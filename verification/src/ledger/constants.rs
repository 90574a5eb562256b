//! Ids of the ledger accounts that every wallet shares, and of the templates.
use vstd::prelude::*;

verus! {

/// The shared account of on-chain outputs on their way in.
pub const ONCHAIN_UTXO_INCOMING_ID: u128 = 1;
/// The shared account of on-chain outputs at rest.
pub const ONCHAIN_UTXO_AT_REST_ID: u128 = 2;
/// The shared account of on-chain outputs on their way out.
pub const ONCHAIN_UTXO_OUTGOING_ID: u128 = 3;
/// The shared account of on-chain fees.
pub const ONCHAIN_FEE_ID: u128 = 4;
/// The shared account of logical funds at rest.
pub const LOGICAL_AT_REST_ID: u128 = 5;
/// The shared account of logical funds on their way out.
pub const LOGICAL_OUTGOING_ID: u128 = 6;

/// The id of the template that a batch of payouts is posted with.
pub const CREATE_BATCH_ID: u128 = 7;

/// The code of the template that a batch of payouts is posted with.
pub open spec fn create_batch_code() -> Seq<char> {
    "CREATE_BATCH"@
}

} // verus!
