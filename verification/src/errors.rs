//! Closed, typed error enumerations, one per component, so callers can match
//! on the failure kind.
//!
//! Two variants carry the submission result that the error refers to:
//! `RecordingLag` holds the on-chain result that could not be recorded
//! locally, so it is not lost to the caller.

use vstd::prelude::*;

use crate::chain::SubmissionResult;

verus! {

/// Failures of the key cipher.
#[derive(Clone, Copy, Debug, PartialEq, Eq, Structural)]
pub enum CryptoError {
    /// The key or initialization vector has the wrong length.
    MalformedKeyMaterial,
    /// The ciphertext failed integrity verification or is too short.
    IntegrityCheckFailed,
}

/// Failures of startup configuration handling.
#[derive(Clone, Copy, Debug, PartialEq, Eq, Structural)]
pub enum ConfigError {
    /// The configured chain environment names no known network.
    InvalidChainEnvironment,
}

/// Failures of the account vault when resolving a signing keypair.
#[derive(Clone, Copy, Debug, PartialEq, Eq, Structural)]
pub enum VaultError {
    /// No such account, or no encrypted key is associated with it.
    AccountNotFound,
    /// The stored ciphertext failed decryption.
    Crypto(CryptoError),
    /// The decrypted bytes are not a valid secret key deriving the account's
    /// stored address.
    KeyFormat,
}

/// Failures of the transaction recorder.
#[derive(Clone, Copy, Debug, PartialEq, Eq, Structural)]
pub enum RecorderError {
    /// Neither side of the transaction is a known local account.
    UnknownCounterparty,
}

/// Failures of payment and trustline orchestration.
#[derive(Clone, Debug, PartialEq)]
pub enum PaymentError {
    /// The sending account, or its key, is missing.
    AccountNotFound,
    /// The sender's stored key failed decryption.
    Crypto(CryptoError),
    /// The decrypted bytes are not a valid secret key deriving the sender's
    /// stored address.
    KeyFormat,
    /// The asset code or the issuer address is malformed.
    InvalidAsset,
    /// The network rejected the submission; the raw response is kept.
    ChainSubmission(String),
    /// The network outcome is unknown; retrying could double-pay.
    AmbiguousSubmission,
    /// The submission succeeded on-chain but the local record failed.
    /// The on-chain result is carried so it is not lost.
    RecordingLag(SubmissionResult),
}

/// Failures of the account lifecycle.
#[derive(Clone, Debug, PartialEq)]
pub enum LifecycleError {
    /// No such account, or no encrypted key is associated with it.
    AccountNotFound,
    /// The account is already active; no funding is attempted.
    AlreadyActive,
    /// The stored key failed decryption.
    Crypto(CryptoError),
    /// The decrypted bytes are not a valid secret key deriving the account's
    /// stored address.
    KeyFormat,
    /// The requested status change is not a permitted transition.
    InvalidTransition,
    /// The network rejected the funding submission; the raw response is kept.
    ChainSubmission(String),
    /// The network outcome is unknown; retrying could double-fund.
    AmbiguousSubmission,
    /// On-chain funding succeeded but the local record or status flip failed.
    /// The on-chain result is carried so it is not lost.
    RecordingLag(SubmissionResult),
    /// A freshly generated identifier or address collided with a stored row.
    StorageConflict,
}

} // verus!
