use bria::app::{first_xpub_id, wallet_ledger_account};
use bria::error::BriaError;
use bria::primitives::{Fingerprint, WalletId, XPubId};

#[test]
fn first_xpub_id_is_parsed() {
    let id = first_xpub_id(vec!["3442193e".to_string()]).unwrap();
    assert_eq!(id, XPubId(Fingerprint([0x34, 0x42, 0x19, 0x3e])));
}

#[test]
fn only_the_first_xpub_id_is_read() {
    let id = first_xpub_id(vec!["0badf00d".to_string(), "not an id".to_string()]).unwrap();
    assert_eq!(id, XPubId(Fingerprint([0x0b, 0xad, 0xf0, 0x0d])));
}

#[test]
fn bad_first_xpub_id_is_a_bip32_error() {
    let result = first_xpub_id(vec!["xyz".to_string(), "3442193e".to_string()]);
    assert!(matches!(result, Err(BriaError::Bip32(_))));
}

#[test]
fn wallet_ledger_account_is_named_after_the_wallet() {
    let wallet_id = WalletId(0x0123456789abcdef0123456789abcdef);
    let account = wallet_ledger_account(wallet_id, "savings".to_string());
    assert_eq!(account.id, wallet_id.0);
    assert_eq!(account.name, "savings");
    assert_eq!(account.code, "WALLET_01234567-89ab-cdef-0123-456789abcdef");
}

#[test]
fn different_wallets_get_different_ledger_codes() {
    let a = wallet_ledger_account(WalletId(0x10), "a".to_string());
    let b = wallet_ledger_account(WalletId(0x01), "a".to_string());
    let c = wallet_ledger_account(WalletId(0x10 << 64), "a".to_string());
    assert_ne!(a.code, b.code);
    assert_ne!(a.code, c.code);
    assert_ne!(b.code, c.code);
    assert_eq!(a.code, "WALLET_00000000-0000-0000-0000-000000000010");
}

#[test]
fn same_bad_first_xpub_id_gives_the_same_error() {
    let a = first_xpub_id(vec!["12345".to_string(), "3442193e".to_string()]);
    let b = first_xpub_id(vec!["12345".to_string()]);
    match (a, b) {
        (Err(BriaError::Bip32(x)), Err(BriaError::Bip32(y))) => assert_eq!(x.to_string(), y.to_string()),
        _ => panic!("expected bip32 errors"),
    }
}
