//! The errors of the service.
use vstd::prelude::*;

verus! {

/// The outside error type `tonic::transport::Error`, carried as an opaque value.
#[verifier::external_type_specification]
#[verifier::external_body]
pub struct ExTonicTransportError(tonic::transport::Error);

/// The outside error type `sqlx::Error`, carried as an opaque value.
#[verifier::external_type_specification]
#[verifier::external_body]
pub struct ExSqlxError(sqlx::Error);

/// The outside error type `sqlx::migrate::MigrateError`, carried as an opaque value.
#[verifier::external_type_specification]
#[verifier::external_body]
pub struct ExSqlxMigrateError(sqlx::migrate::MigrateError);

/// The outside error type `uuid::Error`, carried as an opaque value.
#[verifier::external_type_specification]
#[verifier::external_body]
pub struct ExUuidError(uuid::Error);

/// The outside error type `sqlx_ledger::SqlxLedgerError`, carried as an opaque value.
#[verifier::external_type_specification]
#[verifier::external_body]
pub struct ExSqlxLedgerError(sqlx_ledger::SqlxLedgerError);

/// The outside error type `serde_json::Error`, carried as an opaque value.
#[verifier::external_type_specification]
#[verifier::external_body]
pub struct ExSerdeJsonError(serde_json::Error);

/// The outside error type `electrum_client::Error`, carried as an opaque value.
#[verifier::external_type_specification]
#[verifier::external_body]
pub struct ExElectrumClientError(electrum_client::Error);

/// The outside error type `bitcoin::consensus::encode::Error`, carried as an opaque value.
#[verifier::external_type_specification]
#[verifier::external_body]
pub struct ExConsensusEncodeError(bdk::bitcoin::consensus::encode::Error);

/// The outside error type `bitcoin::util::address::Error`, carried as an opaque value.
#[verifier::external_type_specification]
#[verifier::external_body]
pub struct ExAddressError(bdk::bitcoin::util::address::Error);

/// The outside error type `bitcoin::util::base58::Error`, carried as an opaque value.
#[verifier::external_type_specification]
#[verifier::external_body]
pub struct ExBase58Error(bdk::bitcoin::util::base58::Error);

/// The outside error type `tokio::task::JoinError`, carried as an opaque value.
#[verifier::external_type_specification]
#[verifier::external_body]
pub struct ExJoinError(tokio::task::JoinError);

/// The outside error type `bdk::Error`, carried as an opaque value.
#[verifier::external_type_specification]
#[verifier::external_body]
pub struct ExBdkError(bdk::Error);

/// The outside error type `miniscript::Error` (through bdk), carried as an opaque value.
#[verifier::external_type_specification]
#[verifier::external_body]
pub struct ExMiniscriptError(bdk::miniscript::Error);

/// The outside error type `reqwest::Error`, carried as an opaque value.
#[verifier::external_type_specification]
#[verifier::external_body]
pub struct ExReqwestError(reqwest::Error);

/// The outside error type `bitcoin::util::psbt::Error`, carried as an opaque value.
#[verifier::external_type_specification]
#[verifier::external_body]
pub struct ExPsbtError(bdk::bitcoin::util::psbt::Error);

/// Everything that can go wrong in the service.
#[derive(Debug)]
pub enum BriaError {
    Tonic(tonic::transport::Error),
    Sqlx(sqlx::Error),
    Migrate(sqlx::migrate::MigrateError),
    ParseId(uuid::Error),
    SqlxLedger(sqlx_ledger::SqlxLedgerError),
    SerdeJson(serde_json::Error),
    ElectrumClient(electrum_client::Error),
    Bip32(bdk::bitcoin::util::bip32::Error),
    WalletNotFound,
    ProfileNotFound,
    CouldNotRetrieveWalletBalance,
    BatchGroupNotFound,
    BatchNotFound,
    BitcoinConsensusEncodeError(bdk::bitcoin::consensus::encode::Error),
    TryFromIntError(std::num::TryFromIntError),
    BitcoinAddressParseError(bdk::bitcoin::util::address::Error),
    XPubDepthMismatch(u8, usize),
    XPubParseError(bdk::bitcoin::util::base58::Error),
    JoinError(tokio::task::JoinError),
    BdkError(bdk::Error),
    BdkMiniscriptError(bdk::miniscript::Error),
    FeeEstimation(reqwest::Error),
    CouldNotCombinePsbts(bdk::bitcoin::util::psbt::Error),
    CouldNotParseIncomingMetadata(serde_json::Error),
}

} // verus!
