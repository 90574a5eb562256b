//! The rows that payouts are stored in.
use crate::payout::entity::{NewPayout, Payout, PayoutDestination};
use crate::primitives::{AccountId, BatchGroupId, PayoutId, Satoshis, WalletId};
use vstd::prelude::*;

verus! {

/// The values a new payout's row is inserted with. The amount is stored
/// in a signed 64-bit column, so it is kept as the `i64` with the same bits.
#[derive(Debug)]
pub struct PayoutInsert {
    pub id: u128,
    pub account_id: u128,
    pub batch_group_id: u128,
    pub wallet_id: u128,
    pub satoshis: i64,
    pub destination: PayoutDestination,
    pub external_id: String,
    pub metadata: Option<serde_json::Value>,
}

impl PayoutInsert {
    /// The row that records `new_payout` for `account_id`.
    pub open spec fn stored_for(account_id: AccountId, new_payout: NewPayout) -> PayoutInsert {
        PayoutInsert {
            id: new_payout.id.0,
            account_id: account_id.0,
            batch_group_id: new_payout.batch_group_id.0,
            wallet_id: new_payout.wallet_id.0,
            satoshis: new_payout.satoshis.0 as i64,
            destination: new_payout.destination,
            external_id: new_payout.external_id,
            metadata: new_payout.metadata,
        }
    }

    /// The row that records `new_payout` for `account_id`.
    pub fn new(account_id: AccountId, new_payout: NewPayout) -> (row: PayoutInsert)
        ensures
            row == PayoutInsert::stored_for(account_id, new_payout),
    {
        let NewPayout { id, batch_group_id, wallet_id, satoshis, destination, external_id, metadata } =
            new_payout;
        PayoutInsert {
            id: id.0,
            account_id: account_id.0,
            batch_group_id: batch_group_id.0,
            wallet_id: wallet_id.0,
            satoshis: satoshis.0 as i64,
            destination,
            external_id,
            metadata,
        }
    }
}

/// A stored payout that is not in a batch yet, as read back; its
/// destination is already decoded.
#[derive(Debug)]
pub struct UnbatchedPayoutRow {
    pub id: u128,
    pub wallet_id: u128,
    pub destination: PayoutDestination,
    pub satoshis: i64,
}

impl Payout {
    /// The payout a stored row holds; the amount is read back from the bits
    /// of the signed column.
    pub open spec fn read_from(row: UnbatchedPayoutRow) -> Payout {
        Payout {
            id: PayoutId(row.id),
            wallet_id: WalletId(row.wallet_id),
            destination: row.destination,
            satoshis: Satoshis(row.satoshis as u64),
        }
    }

    /// The payout a stored row holds; the amount is read back from the bits
    /// of the signed column.
    pub fn from_row(row: UnbatchedPayoutRow) -> (payout: Payout)
        ensures
            payout == Payout::read_from(row),
    {
        Payout {
            id: PayoutId(row.id),
            wallet_id: WalletId(row.wallet_id),
            destination: row.destination,
            satoshis: Satoshis(row.satoshis as u64),
        }
    }
}

/// Storing a payout's amount and reading it back gives the amount again,
/// however large.
pub proof fn lemma_satoshis_survive_storage(satoshis: u64)
    ensures
        (satoshis as i64) as u64 == satoshis,
{
    assert((satoshis as i64) as u64 == satoshis) by (bit_vector);
}

/// The columns that the unbatched-payouts query reads back, as the row
/// `inserted` stored them.
pub open spec fn stored_unbatched_row(inserted: PayoutInsert) -> UnbatchedPayoutRow {
    UnbatchedPayoutRow {
        id: inserted.id,
        wallet_id: inserted.wallet_id,
        destination: inserted.destination,
        satoshis: inserted.satoshis,
    }
}

/// A payout stored with `PayoutInsert::new` and read back, from the columns
/// it was stored with, with `Payout::from_row` has the id, wallet,
/// destination and amount it was created with.
pub proof fn lemma_stored_payout_reads_back(
    account_id: AccountId,
    new_payout: NewPayout,
    inserted: PayoutInsert,
    read: Payout,
)
    requires
        inserted == PayoutInsert::stored_for(account_id, new_payout),
        read == Payout::read_from(stored_unbatched_row(inserted)),
    ensures
        read.id == new_payout.id,
        read.wallet_id == new_payout.wallet_id,
        read.destination == new_payout.destination,
        read.satoshis == new_payout.satoshis,
{
    lemma_satoshis_survive_storage(new_payout.satoshis.0);
}

/// The row a payout is stored in binds every id of it in full: its own id,
/// the account, its batch group and its wallet, each as the whole 128-bit
/// value, so listing the batch group's payouts finds it again.
pub proof fn lemma_payout_row_binds_ids(account_id: AccountId, new_payout: NewPayout)
    ensures
        PayoutInsert::stored_for(account_id, new_payout).id == new_payout.id.0,
        PayoutInsert::stored_for(account_id, new_payout).account_id == account_id.0,
        PayoutInsert::stored_for(account_id, new_payout).batch_group_id == new_payout.batch_group_id.0,
        PayoutInsert::stored_for(account_id, new_payout).wallet_id == new_payout.wallet_id.0,
        forall|other: BatchGroupId|
            #![trigger other.0]
            PayoutInsert::stored_for(account_id, new_payout).batch_group_id == other.0 ==> other
                == new_payout.batch_group_id,
{
}

} // verus!
