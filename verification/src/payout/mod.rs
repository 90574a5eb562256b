//! Payouts: bitcoin that an account asked to send, waiting to be batched.
pub mod entity;
pub mod repo;
