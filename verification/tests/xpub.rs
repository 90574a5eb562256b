use bria::entity::{EntityError, EntityEvents};
use bria::primitives::{
    AccountId, ChildNumber, DerivationPath, ExtendedPubKey, Fingerprint, Network, XPubId,
};
use bria::xpub::entity::{
    AccountXPub, BitcoindSignerConfig, LndSignerConfig, NewAccountXPub, NewAccountXPubBuilderError,
    SignerConfig, XPubEvent,
};
use bria::xpub::value::{fingerprint, XPub};
use std::str::FromStr;

const MASTER_XPUB: &str = "xpub661MyMwAqRbcFtXgS5sYJABqqG9YLmC4Q1Rdap9gSE8NqtwybGhePY2gZ29ESFjqJoCu1Rupje8YtGqsefD265TMg7usUDFdp6W1EGMcet8";

fn key_from(text: &str) -> ExtendedPubKey {
    let parsed = bdk::bitcoin::util::bip32::ExtendedPubKey::from_str(text).unwrap();
    ExtendedPubKey {
        network: Network::Bitcoin,
        depth: parsed.depth,
        parent_fingerprint: Fingerprint(parsed.parent_fingerprint.into_bytes()),
        child_number: match parsed.child_number {
            bdk::bitcoin::util::bip32::ChildNumber::Normal { index } => ChildNumber::Normal { index },
            bdk::bitcoin::util::bip32::ChildNumber::Hardened { index } => {
                ChildNumber::Hardened { index }
            }
        },
        public_key: parsed.public_key.serialize(),
        chain_code: parsed.chain_code.to_bytes(),
    }
}

fn master_key() -> ExtendedPubKey {
    key_from(MASTER_XPUB)
}

fn new_xpub(name: &str) -> NewAccountXPub {
    NewAccountXPub::builder()
        .account_id(AccountId(7))
        .key_name(name.to_string())
        .original(MASTER_XPUB.to_string())
        .value(XPub {
            inner: master_key(),
            derivation: Some(DerivationPath(vec![
                ChildNumber::Hardened { index: 84 },
                ChildNumber::Normal { index: 1 },
            ])),
        })
        .build()
        .unwrap()
}

fn lnd_config(endpoint: &str) -> SignerConfig {
    SignerConfig::Lnd(LndSignerConfig {
        endpoint: endpoint.to_string(),
        cert_base64: "cert".to_string(),
        macaroon_base64: "macaroon".to_string(),
    })
}

#[test]
fn fingerprint_is_the_bip32_fingerprint() {
    let key = master_key();
    let expected = bdk::bitcoin::util::bip32::ExtendedPubKey::from_str(MASTER_XPUB)
        .unwrap()
        .fingerprint();
    assert_eq!(fingerprint(&key), Fingerprint(expected.into_bytes()));
    assert_eq!(fingerprint(&key), Fingerprint([0x34, 0x42, 0x19, 0x3e]));
}

#[test]
fn import_round_trip_rebuilds_the_key() {
    let new = new_xpub("cold storage");
    let db_uuid = new.db_uuid;
    let id = new.id();
    assert_eq!(id, XPubId(Fingerprint([0x34, 0x42, 0x19, 0x3e])));
    let events = new.initial_events();
    assert_eq!(events.len(), 2);
    let rebuilt = AccountXPub::from_events(events).unwrap();
    assert_eq!(rebuilt.account_id, AccountId(7));
    assert_eq!(rebuilt.key_name, "cold storage");
    assert_eq!(rebuilt.db_uuid, db_uuid);
    assert_eq!(rebuilt.value.inner, master_key());
    assert_eq!(
        rebuilt.value.derivation,
        Some(DerivationPath(vec![
            ChildNumber::Hardened { index: 84 },
            ChildNumber::Normal { index: 1 },
        ]))
    );
    assert_eq!(rebuilt.id(), id);
}

#[test]
fn initial_events_record_fingerprints_and_name() {
    let events = new_xpub("hot").initial_events();
    match events.get(0) {
        XPubEvent::XpubInitialized {
            account_id,
            fingerprint,
            parent_fingerprint,
            original,
            ..
        } => {
            assert_eq!(*account_id, AccountId(7));
            assert_eq!(*fingerprint, Fingerprint([0x34, 0x42, 0x19, 0x3e]));
            assert_eq!(*parent_fingerprint, Fingerprint([0, 0, 0, 0]));
            assert_eq!(original, MASTER_XPUB);
        }
        other => panic!("unexpected first event {other:?}"),
    }
    match events.get(1) {
        XPubEvent::XpubNameUpdated { name } => assert_eq!(name, "hot"),
        other => panic!("unexpected second event {other:?}"),
    }
}

#[test]
fn rebuild_without_events_misses_account_id() {
    let rebuilt = AccountXPub::from_events(EntityEvents::init(vec![]));
    assert!(matches!(rebuilt, Err(EntityError::UninitializedFieldError("account_id"))));
}

#[test]
fn rebuild_without_name_misses_key_name() {
    let events = new_xpub("a").initial_events();
    let only_init = EntityEvents::init(vec![match events.get(0) {
        XPubEvent::XpubInitialized { db_uuid, account_id, fingerprint, parent_fingerprint, original, xpub, .. } => {
            XPubEvent::XpubInitialized {
                db_uuid: *db_uuid,
                account_id: *account_id,
                fingerprint: *fingerprint,
                parent_fingerprint: *parent_fingerprint,
                original: original.clone(),
                xpub: *xpub,
                derivation_path: None,
            }
        }
        _ => unreachable!(),
    }]);
    let rebuilt = AccountXPub::from_events(only_init);
    assert!(matches!(rebuilt, Err(EntityError::UninitializedFieldError("key_name"))));
}

#[test]
fn rebuild_with_name_only_misses_account_id() {
    let events = EntityEvents::init(vec![XPubEvent::XpubNameUpdated { name: "n".to_string() }]);
    let rebuilt = AccountXPub::from_events(events);
    assert!(matches!(rebuilt, Err(EntityError::UninitializedFieldError("account_id"))));
}

#[test]
fn latest_name_wins() {
    let mut events = new_xpub("first").initial_events();
    events.push(XPubEvent::XpubNameUpdated { name: "second".to_string() });
    let rebuilt = AccountXPub::from_events(events).unwrap();
    assert_eq!(rebuilt.key_name, "second");
}

#[test]
fn latest_initialization_wins() {
    let mut events = new_xpub("k").initial_events();
    events.push(XPubEvent::XpubInitialized {
        db_uuid: 99,
        account_id: AccountId(8),
        fingerprint: Fingerprint([1, 2, 3, 4]),
        parent_fingerprint: Fingerprint([0, 0, 0, 0]),
        original: "other".to_string(),
        xpub: master_key(),
        derivation_path: None,
    });
    let rebuilt = AccountXPub::from_events(events).unwrap();
    assert_eq!(rebuilt.account_id, AccountId(8));
    assert_eq!(rebuilt.db_uuid, 99);
    assert_eq!(rebuilt.value.derivation, None);
    assert_eq!(rebuilt.key_name, "k");
}

#[test]
fn latest_signer_config_wins() {
    let mut xpub = AccountXPub::from_events(new_xpub("k").initial_events()).unwrap();
    assert!(xpub.signing_cfg().is_none());
    xpub.set_signer_config(lnd_config("lnd:10009"));
    match xpub.signing_cfg() {
        Some(SignerConfig::Lnd(cfg)) => assert_eq!(cfg.endpoint, "lnd:10009"),
        other => panic!("unexpected config {other:?}"),
    }
    xpub.set_signer_config(SignerConfig::Bitcoind(BitcoindSignerConfig {
        endpoint: "bitcoind:18443".to_string(),
        rpc_user: "rpcuser".to_string(),
        rpc_password: "rpcpassword".to_string(),
    }));
    match xpub.signing_cfg() {
        Some(SignerConfig::Bitcoind(cfg)) => assert_eq!(cfg.endpoint, "bitcoind:18443"),
        other => panic!("unexpected config {other:?}"),
    }
    assert_eq!(xpub.events.len(), 4);
}

#[test]
fn signer_config_keeps_the_key() {
    let mut xpub = AccountXPub::from_events(new_xpub("kept").initial_events()).unwrap();
    let db_uuid = xpub.db_uuid;
    xpub.set_signer_config(lnd_config("lnd:10009"));
    let rebuilt = AccountXPub::from_events(xpub.events).unwrap();
    assert_eq!(rebuilt.key_name, "kept");
    assert_eq!(rebuilt.account_id, AccountId(7));
    assert_eq!(rebuilt.db_uuid, db_uuid);
    assert_eq!(rebuilt.value.inner, master_key());
    match rebuilt.signing_cfg() {
        Some(SignerConfig::Lnd(cfg)) => assert_eq!(cfg.endpoint, "lnd:10009"),
        other => panic!("unexpected config {other:?}"),
    }
}

#[test]
fn new_xpub_builder_reports_missing_fields_in_order() {
    let missing_account = NewAccountXPub::builder().key_name("n".to_string()).build();
    assert!(matches!(
        missing_account,
        Err(NewAccountXPubBuilderError::UninitializedField("account_id"))
    ));
    let missing_name = NewAccountXPub::builder().account_id(AccountId(1)).build();
    assert!(matches!(
        missing_name,
        Err(NewAccountXPubBuilderError::UninitializedField("key_name"))
    ));
    let missing_original = NewAccountXPub::builder()
        .account_id(AccountId(1))
        .key_name("n".to_string())
        .build();
    assert!(matches!(
        missing_original,
        Err(NewAccountXPubBuilderError::UninitializedField("original"))
    ));
    let missing_value = NewAccountXPub::builder()
        .account_id(AccountId(1))
        .key_name("n".to_string())
        .original("o".to_string())
        .build();
    assert!(matches!(
        missing_value,
        Err(NewAccountXPubBuilderError::UninitializedField("value"))
    ));
}

#[test]
fn new_xpub_gets_a_random_v4_db_uuid() {
    let a = new_xpub("a").db_uuid;
    let b = new_xpub("b").db_uuid;
    assert_ne!(a, b);
    assert_eq!((a >> 76) & 0xf, 4);
    assert_eq!(uuid::Uuid::from_u128(a).get_version_num(), 4);
}

#[test]
fn derivation_path_duplicate_is_equal() {
    let path = DerivationPath(vec![ChildNumber::Hardened { index: 0 }, ChildNumber::Normal { index: 5 }]);
    assert_eq!(path.duplicate(), path);
    let value = XPub { inner: master_key(), derivation: Some(path) };
    let copy = value.duplicate();
    assert_eq!(copy.inner, value.inner);
    assert_eq!(copy.derivation, value.derivation);
}

#[test]
fn new_xpub_clones_keep_their_fields() {
    let new = new_xpub("copy me");
    let copy = new.clone();
    assert_eq!(copy.db_uuid, new.db_uuid);
    assert_eq!(copy.account_id, new.account_id);
    assert_eq!(copy.key_name, new.key_name);
    assert_eq!(copy.original, new.original);
    assert_eq!(copy.value.inner, new.value.inner);
    assert_eq!(copy.value.derivation, new.value.derivation);
    assert_eq!(copy.id(), new.id());
}
