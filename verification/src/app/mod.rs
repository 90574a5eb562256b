//! Decisions the service takes when an account creates a wallet.
use crate::error::BriaError;
use crate::primitives::{
    fingerprint_parse_error, lemma_uuid_hyphenated_injective, parsed_hex_fingerprint,
    uuid_hyphenated, uuid_text, WalletId, XPubId,
};
use vstd::prelude::*;

verus! {

/// Parses the first of the xpub ids a wallet is to be created from; the
/// others are not read.
pub fn first_xpub_id(xpub_ids: Vec<String>) -> (id: Result<XPubId, BriaError>)
    requires
        xpub_ids@.len() > 0,
    ensures
        match id {
            Ok(id) => parsed_hex_fingerprint(xpub_ids@[0]@) == Some(id.0.0@),
            Err(e) => parsed_hex_fingerprint(xpub_ids@[0]@) is None && e == BriaError::Bip32(
                fingerprint_parse_error(xpub_ids@[0]@),
            ),
        },
{
    match XPubId::parse(xpub_ids[0].as_str()) {
        Ok(id) => Ok(id),
        Err(e) => Err(BriaError::Bip32(e)),
    }
}

/// The ledger account that keeps a wallet's balance.
#[derive(Debug)]
pub struct WalletLedgerAccount {
    pub id: u128,
    pub name: String,
    pub code: String,
}

/// The code of the ledger account of the wallet `wallet_id`.
pub open spec fn wallet_ledger_code(wallet_id: WalletId) -> Seq<char> {
    "WALLET_"@ + uuid_hyphenated(wallet_id.0)
}

/// The ledger account of a new wallet: it has the wallet's id and name,
/// and its code is `WALLET_` followed by the wallet's id.
pub fn wallet_ledger_account(wallet_id: WalletId, name: String) -> (account: WalletLedgerAccount)
    ensures
        account.id == wallet_id.0,
        account.name == name,
        account.code@ == wallet_ledger_code(wallet_id),
{
    let mut code = String::from_str("WALLET_");
    let id_text = uuid_text(wallet_id.0);
    code.append(id_text.as_str());
    WalletLedgerAccount { id: wallet_id.0, name, code }
}

/// Different wallets get ledger accounts with different codes.
pub proof fn lemma_wallet_ledger_codes_distinct(a: WalletId, b: WalletId)
    requires
        a != b,
    ensures
        wallet_ledger_code(a) != wallet_ledger_code(b),
{
    if wallet_ledger_code(a) == wallet_ledger_code(b) {
        let prefix = "WALLET_"@;
        assert(wallet_ledger_code(a).subrange(prefix.len() as int, wallet_ledger_code(a).len() as int)
            =~= uuid_hyphenated(a.0));
        assert(wallet_ledger_code(b).subrange(prefix.len() as int, wallet_ledger_code(b).len() as int)
            =~= uuid_hyphenated(b.0));
        lemma_uuid_hyphenated_injective(a.0, b.0);
    }
}

} // verus!
