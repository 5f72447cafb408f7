//! Ledger-network interface types: the network selector, the authoritative
//! result of a submitted transaction, and the shape of a ledger transaction
//! response.
//!
//! Submitting a transaction is input/output and happens outside this crate.
//! The caller performs the submission and reports a [`SubmissionOutcome`]
//! back to the orchestration functions, which record and settle it.

use vstd::prelude::*;

use crate::errors::ConfigError;

verus! {

/// The ledger network a submission is destined for.
#[derive(Clone, Copy, Debug, PartialEq, Eq, Structural)]
pub enum ChainNetwork {
    Test,
    Public,
}

/// The network's authoritative confirmation of a submitted transaction.
/// Local state must never claim a success the network did not confirm.
#[derive(Debug, PartialEq)]
pub struct SubmissionResult {
    /// The ledger transaction hash; it uniquely identifies the submission.
    pub hash: String,
    /// Whether the network reports the transaction as applied.
    pub successful: bool,
    /// The network-reported creation time, as an RFC 3339 timestamp.
    pub created_at: String,
    /// The memo attached to the transaction, if any.
    pub memo: Option<String>,
}

impl Clone for SubmissionResult {
    fn clone(&self) -> (r: Self)
        ensures
            r == *self,
    {
        SubmissionResult {
            hash: self.hash.clone(),
            successful: self.successful,
            created_at: self.created_at.clone(),
            memo: crate::text::clone_opt_string(&self.memo),
        }
    }
}

/// What became of a network submission, as reported by the caller that
/// performed it.
pub enum SubmissionOutcome {
    /// The network returned a structured result.
    Confirmed(SubmissionResult),
    /// The network rejected the submission; the raw response is kept for
    /// diagnostics.
    Rejected(String),
    /// The outcome is unknown (for example a timeout after sending).
    /// Retrying could double-pay, so this is surfaced distinctly.
    Unknown,
}

/// The shape of a ledger transaction response, as the network reports it.
pub struct TransactionResponse {
    pub _links: Links,
    pub id: String,
    pub paging_token: String,
    pub successful: bool,
    pub hash: String,
    pub ledger: i64,
    pub created_at: String,
    pub source_account: String,
    pub source_account_sequence: String,
    pub fee_account: String,
    pub fee_charged: String,
    pub max_fee: String,
    pub operation_count: i32,
    pub envelope_xdr: String,
    pub result_xdr: String,
    pub fee_meta_xdr: String,
    pub memo_type: String,
    pub signatures: Vec<String>,
    pub preconditions: Preconditions,
}

/// The navigation links of a transaction response.
pub struct Links {
    pub self_link: HrefWrapper,
    pub account: HrefWrapper,
    pub ledger: HrefWrapper,
    pub operations: HrefTemplated,
    pub effects: HrefTemplated,
    pub precedes: HrefWrapper,
    pub succeeds: HrefWrapper,
    pub transaction: HrefWrapper,
}

/// A plain hyperlink.
pub struct HrefWrapper {
    pub href: String,
}

/// A hyperlink that may be a template.
pub struct HrefTemplated {
    pub href: String,
    pub templated: bool,
}

/// The preconditions a transaction was submitted under.
pub struct Preconditions {
    pub timebounds: TimeBounds,
}

/// The time bounds of a transaction.
pub struct TimeBounds {
    pub min_time: String,
}

/// The authoritative submission result carried by a transaction response:
/// its hash, success flag and creation time. This response shape carries no
/// memo value.
pub fn submission_result_from(response: &TransactionResponse) -> (r: SubmissionResult)
    ensures
        r.hash == response.hash,
        r.successful == response.successful,
        r.created_at == response.created_at,
        r.memo is None,
{
    SubmissionResult {
        hash: response.hash.clone(),
        successful: response.successful,
        created_at: response.created_at.clone(),
        memo: None,
    }
}

/// Selects the ledger network from the configured chain environment.
///
/// Returns `Ok(ChainNetwork::Test)` for `"testnet"`, `Ok(ChainNetwork::Public)`
/// for `"public"`, and a configuration error for anything else.
pub fn get_chain_network(chain_environment: &str) -> (r: Result<ChainNetwork, ConfigError>)
    ensures
        chain_environment@ == "testnet"@ ==> r == Ok::<ChainNetwork, ConfigError>(ChainNetwork::Test),
        chain_environment@ == "public"@ ==> r == Ok::<ChainNetwork, ConfigError>(ChainNetwork::Public),
        chain_environment@ != "testnet"@ && chain_environment@ != "public"@ ==> r == Err::<
            ChainNetwork,
            ConfigError,
        >(ConfigError::InvalidChainEnvironment),
{
    proof {
        reveal_strlit("testnet");
        reveal_strlit("public");
        assert("testnet"@.len() == 7);
        assert("public"@.len() == 6);
    }
    if crate::text::str_eq(chain_environment, "testnet") {
        Ok(ChainNetwork::Test)
    } else if crate::text::str_eq(chain_environment, "public") {
        Ok(ChainNetwork::Public)
    } else {
        Err(ConfigError::InvalidChainEnvironment)
    }
}

} // verus!
