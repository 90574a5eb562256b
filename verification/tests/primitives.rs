use bria::app::wallet_ledger_account;
use bria::primitives::{Fingerprint, WalletId, XPubId};
use bria::xpub::entity::NewAccountXPub;

#[test]
fn uuid_text_is_hyphenated_lower_case() {
    let code = |id: u128| wallet_ledger_account(WalletId(id), String::new()).code;
    assert_eq!(code(1), "WALLET_00000000-0000-0000-0000-000000000001");
    assert_eq!(
        code(0xa1a2a3a4b1b2c1c2d1d2d3d4d5d6d7d8),
        "WALLET_a1a2a3a4-b1b2-c1c2-d1d2-d3d4d5d6d7d8"
    );
    assert_eq!(code(u128::MAX), "WALLET_ffffffff-ffff-ffff-ffff-ffffffffffff");
}

#[test]
fn new_uuids_are_random_version_four() {
    let a = NewAccountXPub::builder().db_uuid.unwrap();
    let b = NewAccountXPub::builder().db_uuid.unwrap();
    assert_ne!(a, b);
    assert_eq!((a >> 76) & 0xf, 4);
    assert_eq!((b >> 76) & 0xf, 4);
    assert_eq!((a >> 62) & 0x3, 2);
    assert_eq!((b >> 62) & 0x3, 2);
    assert_eq!(uuid::Uuid::from_u128(a).get_variant(), uuid::Variant::RFC4122);
}

#[test]
fn xpub_id_parses_eight_hex_digits() {
    assert_eq!(XPubId::parse("3442193e").unwrap(), XPubId(Fingerprint([0x34, 0x42, 0x19, 0x3e])));
    assert_eq!(XPubId::parse("DEADbeef").unwrap(), XPubId(Fingerprint([0xde, 0xad, 0xbe, 0xef])));
    assert_eq!("00ff10a0".parse::<XPubId>().unwrap(), XPubId(Fingerprint([0x00, 0xff, 0x10, 0xa0])));
}

#[test]
fn xpub_id_refuses_other_text() {
    assert!(XPubId::parse("3442193").is_err());
    assert!(XPubId::parse("3442193e00").is_err());
    assert!(XPubId::parse("3442193g").is_err());
    assert!(XPubId::parse("").is_err());
    assert!(XPubId::parse("éé442193").is_err());
}
