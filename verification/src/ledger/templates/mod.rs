//! Transaction templates of the ledger.
pub mod create_batch;
