//! What the service posts to its double-entry ledger.
pub mod constants;
pub mod templates;
