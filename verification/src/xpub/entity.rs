//! An extended public key of an account, kept as the events that made it.
use crate::entity::{EntityError, EntityEvents};
use crate::primitives::{new_uuid, AccountId, DerivationPath, ExtendedPubKey, Fingerprint, XPubId};
use crate::xpub::value::{
    derivation_view, fingerprint, hash160_digest, key_fingerprint, xpub_id_of, XPub, XPubView,
};
use vstd::prelude::*;

verus! {

/// How to reach an LND node that signs for a key.
#[derive(Debug, Clone)]
pub struct LndSignerConfig {
    pub endpoint: String,
    pub cert_base64: String,
    pub macaroon_base64: String,
}

/// How to reach a bitcoind node that signs for a key.
#[derive(Debug, Clone)]
pub struct BitcoindSignerConfig {
    pub endpoint: String,
    pub rpc_user: String,
    pub rpc_password: String,
}

/// The remote signer configured for a key.
#[derive(Debug, Clone)]
pub enum SignerConfig {
    Lnd(LndSignerConfig),
    Bitcoind(BitcoindSignerConfig),
}

/// What happened to an account's extended public key.
#[derive(Debug)]
pub enum XPubEvent {
    XpubInitialized {
        db_uuid: u128,
        account_id: AccountId,
        fingerprint: Fingerprint,
        parent_fingerprint: Fingerprint,
        original: String,
        xpub: ExtendedPubKey,
        derivation_path: Option<DerivationPath>,
    },
    XpubNameUpdated { name: String },
    SignerConfigUpdated { config: SignerConfig },
}

/// The latest `XpubInitialized` event of `events`.
pub open spec fn last_initialized(events: Seq<XPubEvent>) -> Option<XPubEvent>
    decreases events.len(),
{
    if events.len() == 0 {
        None
    } else if events.last() is XpubInitialized {
        Some(events.last())
    } else {
        last_initialized(events.drop_last())
    }
}

/// The name set by the latest `XpubNameUpdated` event of `events`.
pub open spec fn last_name(events: Seq<XPubEvent>) -> Option<Seq<char>>
    decreases events.len(),
{
    if events.len() == 0 {
        None
    } else {
        match events.last() {
            XPubEvent::XpubNameUpdated { name } => Some(name@),
            _ => last_name(events.drop_last()),
        }
    }
}

/// The signer configured by the latest `SignerConfigUpdated` event of `events`.
pub open spec fn last_signer_config(events: Seq<XPubEvent>) -> Option<SignerConfig>
    decreases events.len(),
{
    if events.len() == 0 {
        None
    } else {
        match events.last() {
            XPubEvent::SignerConfigUpdated { config } => Some(config),
            _ => last_signer_config(events.drop_last()),
        }
    }
}

/// The mathematical value of an [`AccountXPub`].
pub struct AccountXPubView {
    pub account_id: AccountId,
    pub key_name: Seq<char>,
    pub value: XPubView,
    pub db_uuid: u128,
    pub events: Seq<XPubEvent>,
}

/// What rebuilding an account's key from `events` gives: the latest
/// initialization and the latest name, or the first field that no event set.
pub open spec fn rebuilt_from(events: Seq<XPubEvent>) -> Result<AccountXPubView, EntityError> {
    match last_initialized(events) {
        Some(XPubEvent::XpubInitialized { db_uuid, account_id, xpub, derivation_path, .. }) => {
            match last_name(events) {
                Some(name) => Ok(
                    AccountXPubView {
                        account_id,
                        key_name: name,
                        value: XPubView { inner: xpub, derivation: derivation_view(derivation_path) },
                        db_uuid,
                        events,
                    },
                ),
                None => Err(EntityError::UninitializedFieldError("key_name")),
            }
        },
        _ => Err(EntityError::UninitializedFieldError("account_id")),
    }
}

/// An extended public key imported into an account.
pub struct AccountXPub {
    pub account_id: AccountId,
    pub key_name: String,
    pub value: XPub,
    pub db_uuid: u128,
    pub events: EntityEvents<XPubEvent>,
}

impl View for AccountXPub {
    type V = AccountXPubView;

    open spec fn view(&self) -> AccountXPubView {
        AccountXPubView {
            account_id: self.account_id,
            key_name: self.key_name@,
            value: self.value@,
            db_uuid: self.db_uuid,
            events: self.events@,
        }
    }
}

/// The fields gathered while rebuilding an [`AccountXPub`]; `build` fails on
/// the first field, in declaration order, that was never set.
pub struct AccountXPubBuilder {
    pub account_id: Option<AccountId>,
    pub key_name: Option<String>,
    pub value: Option<XPub>,
    pub db_uuid: Option<u128>,
    pub events: Option<EntityEvents<XPubEvent>>,
}

impl AccountXPubBuilder {
    /// What `build` gives for the fields gathered so far.
    pub open spec fn build_result(self) -> Result<AccountXPub, EntityError> {
        if self.account_id is None {
            Err(EntityError::UninitializedFieldError("account_id"))
        } else if self.key_name is None {
            Err(EntityError::UninitializedFieldError("key_name"))
        } else if self.value is None {
            Err(EntityError::UninitializedFieldError("value"))
        } else if self.db_uuid is None {
            Err(EntityError::UninitializedFieldError("db_uuid"))
        } else if self.events is None {
            Err(EntityError::UninitializedFieldError("events"))
        } else {
            Ok(
                AccountXPub {
                    account_id: self.account_id->0,
                    key_name: self.key_name->0,
                    value: self.value->0,
                    db_uuid: self.db_uuid->0,
                    events: self.events->0,
                },
            )
        }
    }

    pub fn account_id(self, account_id: AccountId) -> (builder: Self)
        ensures
            builder.account_id == Some(account_id),
            builder.key_name == self.key_name,
            builder.value == self.value,
            builder.db_uuid == self.db_uuid,
            builder.events == self.events,
    {
        AccountXPubBuilder { account_id: Some(account_id), ..self }
    }

    pub fn key_name(self, key_name: String) -> (builder: Self)
        ensures
            builder.account_id == self.account_id,
            builder.key_name == Some(key_name),
            builder.value == self.value,
            builder.db_uuid == self.db_uuid,
            builder.events == self.events,
    {
        AccountXPubBuilder { key_name: Some(key_name), ..self }
    }

    pub fn value(self, value: XPub) -> (builder: Self)
        ensures
            builder.account_id == self.account_id,
            builder.key_name == self.key_name,
            builder.value == Some(value),
            builder.db_uuid == self.db_uuid,
            builder.events == self.events,
    {
        AccountXPubBuilder { value: Some(value), ..self }
    }

    pub fn db_uuid(self, db_uuid: u128) -> (builder: Self)
        ensures
            builder.account_id == self.account_id,
            builder.key_name == self.key_name,
            builder.value == self.value,
            builder.db_uuid == Some(db_uuid),
            builder.events == self.events,
    {
        AccountXPubBuilder { db_uuid: Some(db_uuid), ..self }
    }

    pub fn events(self, events: EntityEvents<XPubEvent>) -> (builder: Self)
        ensures
            builder.account_id == self.account_id,
            builder.key_name == self.key_name,
            builder.value == self.value,
            builder.db_uuid == self.db_uuid,
            builder.events == Some(events),
    {
        AccountXPubBuilder { events: Some(events), ..self }
    }

    pub fn build(self) -> (built: Result<AccountXPub, EntityError>)
        ensures
            built == self.build_result(),
    {
        match self {
            AccountXPubBuilder {
                account_id: Some(account_id),
                key_name: Some(key_name),
                value: Some(value),
                db_uuid: Some(db_uuid),
                events: Some(events),
            } => Ok(AccountXPub { account_id, key_name, value, db_uuid, events }),
            AccountXPubBuilder { account_id: None, .. } => Err(
                EntityError::UninitializedFieldError("account_id"),
            ),
            AccountXPubBuilder { key_name: None, .. } => Err(
                EntityError::UninitializedFieldError("key_name"),
            ),
            AccountXPubBuilder { value: None, .. } => Err(
                EntityError::UninitializedFieldError("value"),
            ),
            AccountXPubBuilder { db_uuid: None, .. } => Err(
                EntityError::UninitializedFieldError("db_uuid"),
            ),
            AccountXPubBuilder { events: None, .. } => Err(
                EntityError::UninitializedFieldError("events"),
            ),
        }
    }
}

impl Default for AccountXPubBuilder {
    fn default() -> (builder: Self)
        ensures
            builder.account_id is None,
            builder.key_name is None,
            builder.value is None,
            builder.db_uuid is None,
            builder.events is None,
    {
        AccountXPubBuilder { account_id: None, key_name: None, value: None, db_uuid: None, events: None }
    }
}

/// The builder holds what the events `seen` so far set: the latest
/// initialization and the latest name.
pub open spec fn builder_follows(builder: AccountXPubBuilder, seen: Seq<XPubEvent>) -> bool {
    &&& match last_initialized(seen) {
        Some(XPubEvent::XpubInitialized { db_uuid, account_id, xpub, derivation_path, .. }) => {
            &&& builder.account_id == Some(account_id)
            &&& builder.db_uuid == Some(db_uuid)
            &&& builder.value is Some
            &&& builder.value->0@ == (XPubView { inner: xpub, derivation: derivation_view(derivation_path) })
        },
        _ => {
            &&& builder.account_id is None
            &&& builder.db_uuid is None
            &&& builder.value is None
        },
    }
    &&& match last_name(seen) {
        Some(name) => builder.key_name is Some && builder.key_name->0@ == name,
        None => builder.key_name is None,
    }
    &&& builder.events is None
}

impl AccountXPub {
    /// Rebuilds an account's key from its events: the latest initialization
    /// gives the account, key and db uuid, the latest name gives the name.
    pub fn from_events(events: EntityEvents<XPubEvent>) -> (rebuilt: Result<AccountXPub, EntityError>)
        ensures
            match rebuilt {
                Ok(xpub) => rebuilt_from(events@) == Ok::<AccountXPubView, EntityError>(xpub@),
                Err(e) => rebuilt_from(events@) == Err::<AccountXPubView, EntityError>(e),
            },
    {
        let mut builder = AccountXPubBuilder::default();
        let n = events.len();
        let mut i: usize = 0;
        while i < n
            invariant
                n == events@.len(),
                i <= n,
                builder_follows(builder, events@.take(i as int)),
            decreases n - i,
        {
            let ghost before = events@.take(i as int);
            match events.get(i) {
                XPubEvent::XpubInitialized { db_uuid, account_id, xpub, derivation_path, .. } => {
                    let derivation = match derivation_path {
                        Some(path) => Some(path.duplicate()),
                        None => None,
                    };
                    builder = builder.db_uuid(*db_uuid).account_id(*account_id).value(
                        XPub { inner: *xpub, derivation },
                    );
                },
                XPubEvent::XpubNameUpdated { name } => {
                    builder = builder.key_name(name.clone());
                },
                _ => {},
            }
            assert(events@.take(i + 1).drop_last() =~= before);
            i += 1;
        }
        assert(events@.take(n as int) =~= events@);
        builder.events(events).build()
    }

    /// The id of this key.
    pub fn id(&self) -> (id: XPubId)
        ensures
            id == xpub_id_of(self.value.inner),
    {
        self.value.id()
    }

    /// Configures the remote signer of this key.
    pub fn set_signer_config(&mut self, config: SignerConfig)
        ensures
            final(self)@ == (AccountXPubView {
                events: old(self)@.events.push(XPubEvent::SignerConfigUpdated { config }),
                ..old(self)@
            }),
    {
        self.events.push(XPubEvent::SignerConfigUpdated { config })
    }

    /// The signer configured last, if any.
    pub fn signing_cfg(&self) -> (cfg: Option<&SignerConfig>)
        ensures
            match cfg {
                Some(c) => last_signer_config(self@.events) == Some(*c),
                None => last_signer_config(self@.events) is None,
            },
    {
        let mut ret: Option<&SignerConfig> = None;
        let n = self.events.len();
        let mut i: usize = 0;
        while i < n
            invariant
                n == self.events@.len(),
                i <= n,
                match ret {
                    Some(c) => last_signer_config(self.events@.take(i as int)) == Some(*c),
                    None => last_signer_config(self.events@.take(i as int)) is None,
                },
            decreases n - i,
        {
            let ghost before = self.events@.take(i as int);
            if let XPubEvent::SignerConfigUpdated { config } = self.events.get(i) {
                ret = Some(config);
            }
            assert(self.events@.take(i + 1).drop_last() =~= before);
            i += 1;
        }
        assert(self.events@.take(n as int) =~= self.events@);
        ret
    }
}

/// A key about to be imported into an account.
#[derive(Clone, Debug)]
pub struct NewAccountXPub {
    pub db_uuid: u128,
    pub account_id: AccountId,
    pub key_name: String,
    pub original: String,
    pub value: XPub,
}

/// The events that record the import of `new_xpub`: its initialization,
/// then its name.
pub open spec fn initial_events_of(new_xpub: NewAccountXPub) -> Seq<XPubEvent> {
    seq![
        XPubEvent::XpubInitialized {
            db_uuid: new_xpub.db_uuid,
            account_id: new_xpub.account_id,
            fingerprint: key_fingerprint(new_xpub.value.inner),
            parent_fingerprint: new_xpub.value.inner.parent_fingerprint,
            original: new_xpub.original,
            xpub: new_xpub.value.inner,
            derivation_path: new_xpub.value.derivation,
        },
        XPubEvent::XpubNameUpdated { name: new_xpub.key_name },
    ]
}

/// `build` of [`NewAccountXPubBuilder`] found a field that was never set.
#[derive(Debug, PartialEq, Eq)]
pub enum NewAccountXPubBuilderError {
    UninitializedField(&'static str),
}

/// The fields of a [`NewAccountXPub`] gathered so far.
pub struct NewAccountXPubBuilder {
    pub db_uuid: Option<u128>,
    pub account_id: Option<AccountId>,
    pub key_name: Option<String>,
    pub original: Option<String>,
    pub value: Option<XPub>,
}

impl NewAccountXPubBuilder {
    /// What `build` gives for the fields gathered so far.
    pub open spec fn build_result(self) -> Result<NewAccountXPub, NewAccountXPubBuilderError> {
        if self.db_uuid is None {
            Err(NewAccountXPubBuilderError::UninitializedField("db_uuid"))
        } else if self.account_id is None {
            Err(NewAccountXPubBuilderError::UninitializedField("account_id"))
        } else if self.key_name is None {
            Err(NewAccountXPubBuilderError::UninitializedField("key_name"))
        } else if self.original is None {
            Err(NewAccountXPubBuilderError::UninitializedField("original"))
        } else if self.value is None {
            Err(NewAccountXPubBuilderError::UninitializedField("value"))
        } else {
            Ok(
                NewAccountXPub {
                    db_uuid: self.db_uuid->0,
                    account_id: self.account_id->0,
                    key_name: self.key_name->0,
                    original: self.original->0,
                    value: self.value->0,
                },
            )
        }
    }

    pub fn db_uuid(self, db_uuid: u128) -> (builder: Self)
        ensures
            builder == (NewAccountXPubBuilder { db_uuid: Some(db_uuid), ..self }),
    {
        NewAccountXPubBuilder { db_uuid: Some(db_uuid), ..self }
    }

    pub fn account_id(self, account_id: AccountId) -> (builder: Self)
        ensures
            builder == (NewAccountXPubBuilder { account_id: Some(account_id), ..self }),
    {
        NewAccountXPubBuilder { account_id: Some(account_id), ..self }
    }

    pub fn key_name(self, key_name: String) -> (builder: Self)
        ensures
            builder == (NewAccountXPubBuilder { key_name: Some(key_name), ..self }),
    {
        NewAccountXPubBuilder { key_name: Some(key_name), ..self }
    }

    pub fn original(self, original: String) -> (builder: Self)
        ensures
            builder == (NewAccountXPubBuilder { original: Some(original), ..self }),
    {
        NewAccountXPubBuilder { original: Some(original), ..self }
    }

    pub fn value(self, value: XPub) -> (builder: Self)
        ensures
            builder == (NewAccountXPubBuilder { value: Some(value), ..self }),
    {
        NewAccountXPubBuilder { value: Some(value), ..self }
    }

    pub fn build(self) -> (built: Result<NewAccountXPub, NewAccountXPubBuilderError>)
        ensures
            built == self.build_result(),
    {
        match self {
            NewAccountXPubBuilder {
                db_uuid: Some(db_uuid),
                account_id: Some(account_id),
                key_name: Some(key_name),
                original: Some(original),
                value: Some(value),
            } => Ok(NewAccountXPub { db_uuid, account_id, key_name, original, value }),
            NewAccountXPubBuilder { db_uuid: None, .. } => Err(
                NewAccountXPubBuilderError::UninitializedField("db_uuid"),
            ),
            NewAccountXPubBuilder { account_id: None, .. } => Err(
                NewAccountXPubBuilderError::UninitializedField("account_id"),
            ),
            NewAccountXPubBuilder { key_name: None, .. } => Err(
                NewAccountXPubBuilderError::UninitializedField("key_name"),
            ),
            NewAccountXPubBuilder { original: None, .. } => Err(
                NewAccountXPubBuilderError::UninitializedField("original"),
            ),
            NewAccountXPubBuilder { value: None, .. } => Err(
                NewAccountXPubBuilderError::UninitializedField("value"),
            ),
        }
    }
}

impl NewAccountXPub {
    /// A builder that already holds a fresh random db uuid.
    pub fn builder() -> (builder: NewAccountXPubBuilder)
        ensures
            builder.db_uuid matches Some(db_uuid) && (db_uuid >> 76u128) & 0xfu128 == 4 && (db_uuid
                >> 62u128) & 0x3u128 == 2,
            builder.account_id is None,
            builder.key_name is None,
            builder.original is None,
            builder.value is None,
    {
        NewAccountXPubBuilder {
            db_uuid: Some(new_uuid()),
            account_id: None,
            key_name: None,
            original: None,
            value: None,
        }
    }

    /// The id of the key.
    pub fn id(&self) -> (id: XPubId)
        ensures
            id == xpub_id_of(self.value.inner),
    {
        self.value.id()
    }

    /// The events that record this import.
    pub fn initial_events(self) -> (events: EntityEvents<XPubEvent>)
        ensures
            events@ == initial_events_of(self),
    {
        let fp = fingerprint(&self.value.inner);
        let xpub = self.value.inner;
        let mut initial: Vec<XPubEvent> = Vec::new();
        initial.push(
            XPubEvent::XpubInitialized {
                db_uuid: self.db_uuid,
                account_id: self.account_id,
                fingerprint: fp,
                parent_fingerprint: xpub.parent_fingerprint,
                original: self.original,
                xpub,
                derivation_path: self.value.derivation,
            },
        );
        initial.push(XPubEvent::XpubNameUpdated { name: self.key_name });
        let events = EntityEvents::init(initial);
        assert(events@ =~= initial_events_of(self));
        events
    }
}

/// Importing a key and rebuilding it from the events of the import gives
/// back the account, name, key, derivation path and db uuid that were
/// imported, and so the same id.
pub proof fn lemma_import_round_trip(new_xpub: NewAccountXPub)
    ensures
        rebuilt_from(initial_events_of(new_xpub)) == Ok::<AccountXPubView, EntityError>(
            AccountXPubView {
                account_id: new_xpub.account_id,
                key_name: new_xpub.key_name@,
                value: new_xpub.value@,
                db_uuid: new_xpub.db_uuid,
                events: initial_events_of(new_xpub),
            },
        ),
        rebuilt_from(initial_events_of(new_xpub))->Ok_0.value.inner == new_xpub.value.inner,
{
    let events = initial_events_of(new_xpub);
    assert(events.last() == XPubEvent::XpubNameUpdated { name: new_xpub.key_name });
    assert(events.drop_last() =~= seq![events[0]]);
    assert(last_initialized(events.drop_last()) == Some(events[0]));
    assert(last_initialized(events) == Some(events[0]));
    assert(last_name(events) == Some(new_xpub.key_name@));
}

/// The signer configured last is the one in effect.
pub proof fn lemma_latest_signer_config_wins(events: Seq<XPubEvent>, config: SignerConfig)
    ensures
        last_signer_config(events.push(XPubEvent::SignerConfigUpdated { config })) == Some(config),
{
}

/// Configuring a signer changes nothing that a rebuild reads but the events:
/// the account, name, key and db uuid stay, and a rebuild that failed still
/// fails on the same field.
pub proof fn lemma_signer_config_keeps_key(events: Seq<XPubEvent>, config: SignerConfig)
    ensures
        rebuilt_from(events.push(XPubEvent::SignerConfigUpdated { config })) == match rebuilt_from(
            events,
        ) {
            Ok(view) => Ok::<AccountXPubView, EntityError>(
                AccountXPubView {
                    events: events.push(XPubEvent::SignerConfigUpdated { config }),
                    ..view
                },
            ),
            Err(e) => Err::<AccountXPubView, EntityError>(e),
        },
{
    let pushed = events.push(XPubEvent::SignerConfigUpdated { config });
    assert(pushed.drop_last() =~= events);
}

/// The name set last is the key's name.
pub proof fn lemma_latest_name_wins(events: Seq<XPubEvent>, name: String)
    ensures
        last_name(events.push(XPubEvent::XpubNameUpdated { name })) == Some(name@),
{
}

/// Importing a key records two events: first its initialization, which
/// carries the imported db uuid, account, original text, key and derivation
/// path, the key's BIP-32 fingerprint (the first four bytes of the HASH160 of
/// its public key) and the key's own parent fingerprint; then its name.
pub proof fn lemma_import_records_the_key(new_xpub: NewAccountXPub)
    ensures
        initial_events_of(new_xpub).len() == 2,
        initial_events_of(new_xpub)[0] matches XPubEvent::XpubInitialized {
            db_uuid,
            account_id,
            fingerprint,
            parent_fingerprint,
            original,
            xpub,
            derivation_path,
        } && db_uuid == new_xpub.db_uuid && account_id == new_xpub.account_id
            && parent_fingerprint == new_xpub.value.inner.parent_fingerprint && original
            == new_xpub.original && xpub == new_xpub.value.inner && derivation_path
            == new_xpub.value.derivation && (forall|j: int|
            0 <= j < 4 ==> #[trigger] fingerprint.0[j] == hash160_digest(
                new_xpub.value.inner.public_key@,
            )[j]),
        initial_events_of(new_xpub)[1] == (XPubEvent::XpubNameUpdated { name: new_xpub.key_name }),
{
}

} // verus!
