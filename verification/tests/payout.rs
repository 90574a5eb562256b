use bria::payout::entity::{NewPayout, Payout, PayoutDestination};
use bria::payout::repo::{PayoutInsert, UnbatchedPayoutRow};
use bria::primitives::{AccountId, BatchGroupId, PayoutId, Satoshis, WalletId};

fn metadata() -> serde_json::Value {
    let mut map = serde_json::Map::new();
    map.insert("order".to_string(), serde_json::Value::from(5));
    serde_json::Value::Object(map)
}

fn new_payout(satoshis: u64) -> NewPayout {
    NewPayout {
        id: PayoutId(11),
        batch_group_id: BatchGroupId(12),
        wallet_id: WalletId(13),
        satoshis: Satoshis(satoshis),
        destination: PayoutDestination::OnchainAddress {
            value: "bcrt1qw508d6qejxtdg4y5r3zarvary0c5xw7kygt080".to_string(),
        },
        external_id: "ext-1".to_string(),
        metadata: Some(metadata()),
    }
}

#[test]
fn payout_insert_binds_the_new_payout() {
    let row = PayoutInsert::new(AccountId(10), new_payout(50_000));
    assert_eq!(row.id, 11);
    assert_eq!(row.account_id, 10);
    assert_eq!(row.batch_group_id, 12);
    assert_eq!(row.wallet_id, 13);
    assert_eq!(row.satoshis, 50_000);
    assert_eq!(row.external_id, "ext-1");
    assert_eq!(row.metadata.unwrap()["order"], 5);
}

#[test]
fn payout_is_read_back_from_its_row() {
    let payout = Payout::from_row(UnbatchedPayoutRow {
        id: 21,
        wallet_id: 22,
        destination: PayoutDestination::OnchainAddress { value: "addr".to_string() },
        satoshis: 1_000,
    });
    assert_eq!(payout.id, PayoutId(21));
    assert_eq!(payout.wallet_id, WalletId(22));
    assert_eq!(payout.satoshis, Satoshis(1_000));
    assert_eq!(payout.destination, PayoutDestination::OnchainAddress { value: "addr".to_string() });
}

#[test]
fn payout_amount_survives_storage_even_above_i64() {
    for sats in [0u64, 1, 2_100_000_000_000_000, i64::MAX as u64, i64::MAX as u64 + 1, u64::MAX] {
        let row = PayoutInsert::new(AccountId(1), new_payout(sats));
        let payout = Payout::from_row(UnbatchedPayoutRow {
            id: row.id,
            wallet_id: row.wallet_id,
            destination: row.destination,
            satoshis: row.satoshis,
        });
        let original = new_payout(sats);
        assert_eq!(payout.satoshis, original.satoshis);
        assert_eq!(payout.id, original.id);
        assert_eq!(payout.wallet_id, original.wallet_id);
        assert_eq!(payout.destination, original.destination);
    }
    assert_eq!(PayoutInsert::new(AccountId(1), new_payout(u64::MAX)).satoshis, -1);
}
