//! What a payout is.
use crate::primitives::{BatchGroupId, PayoutId, Satoshis, WalletId};
use vstd::prelude::*;

verus! {

/// The outside type `serde_json::Value`, carried as an opaque value.
#[verifier::external_type_specification]
#[verifier::external_body]
pub struct ExJsonValue(serde_json::Value);

/// Where a payout sends its bitcoin.
#[derive(Debug, Clone, PartialEq, Eq)]
pub enum PayoutDestination {
    OnchainAddress { value: String },
}

/// A payout about to be queued.
#[derive(Debug)]
pub struct NewPayout {
    pub id: PayoutId,
    pub batch_group_id: BatchGroupId,
    pub wallet_id: WalletId,
    pub satoshis: Satoshis,
    pub destination: PayoutDestination,
    pub external_id: String,
    pub metadata: Option<serde_json::Value>,
}

/// A queued payout.
#[derive(Debug)]
pub struct Payout {
    pub id: PayoutId,
    pub wallet_id: WalletId,
    pub destination: PayoutDestination,
    pub satoshis: Satoshis,
}

} // verus!
