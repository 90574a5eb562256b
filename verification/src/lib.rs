//! Verified core of a bitcoin wallet and payout service: extended public
//! keys rebuilt from their events, the double-entry template that a batch
//! of payouts posts to the ledger, the parameters it is posted with, and the
//! rows that payouts are stored in.
pub mod app;
pub mod entity;
pub mod error;
pub mod ledger;
pub mod payout;
pub mod primitives;
pub mod xpub;
