//! Extended public keys imported into an account.
pub mod entity;
pub mod value;
