//! The data model: accounts, encrypted keys, trustlines, transactions and
//! pagination.
//!
//! Identifiers are 128-bit values (textual UUIDs at the interface), amounts
//! are unsigned integers of the smallest currency unit — never floating
//! point — and timestamps are microseconds since the Unix epoch.

use vstd::prelude::*;

verus! {

/// The lifecycle status of a custodial account.
#[derive(Clone, Copy, Debug, PartialEq, Eq, Structural)]
pub enum AccountStatus {
    Pending,
    Active,
    Inactive,
    Closed,
}

/// The textual form of a status.
pub open spec fn status_text(s: AccountStatus) -> Seq<char> {
    match s {
        AccountStatus::Pending => "pending"@,
        AccountStatus::Active => "active"@,
        AccountStatus::Inactive => "inactive"@,
        AccountStatus::Closed => "closed"@,
    }
}

/// The status named by a piece of text, if any.
pub open spec fn parse_status_spec(text: Seq<char>) -> Option<AccountStatus> {
    if text == "pending"@ {
        Some(AccountStatus::Pending)
    } else if text == "active"@ {
        Some(AccountStatus::Active)
    } else if text == "inactive"@ {
        Some(AccountStatus::Inactive)
    } else if text == "closed"@ {
        Some(AccountStatus::Closed)
    } else {
        None
    }
}

/// Status transitions are monotonic — pending to active, active and inactive
/// back and forth, anything to closed — and closed is terminal.
pub open spec fn transition_allowed(from: AccountStatus, to: AccountStatus) -> bool {
    match (from, to) {
        (AccountStatus::Closed, _) => false,
        (_, AccountStatus::Closed) => true,
        (AccountStatus::Pending, AccountStatus::Active) => true,
        (AccountStatus::Active, AccountStatus::Inactive) => true,
        (AccountStatus::Inactive, AccountStatus::Active) => true,
        _ => false,
    }
}

impl AccountStatus {
    /// Parses the textual form of a status.
    pub fn parse(text: &str) -> (r: Option<AccountStatus>)
        ensures
            r == parse_status_spec(text@),
    {
        if crate::text::str_eq(text, "pending") {
            Some(AccountStatus::Pending)
        } else if crate::text::str_eq(text, "active") {
            Some(AccountStatus::Active)
        } else if crate::text::str_eq(text, "inactive") {
            Some(AccountStatus::Inactive)
        } else if crate::text::str_eq(text, "closed") {
            Some(AccountStatus::Closed)
        } else {
            None
        }
    }

    /// The textual form of this status.
    pub fn as_str(&self) -> (r: &'static str)
        ensures
            r@ == status_text(*self),
    {
        match self {
            AccountStatus::Pending => "pending",
            AccountStatus::Active => "active",
            AccountStatus::Inactive => "inactive",
            AccountStatus::Closed => "closed",
        }
    }

    /// Whether the transition from this status to `to` is permitted.
    pub fn allows_transition_to(&self, to: AccountStatus) -> (r: bool)
        ensures
            r == transition_allowed(*self, to),
    {
        match (self, to) {
            (AccountStatus::Closed, _) => false,
            (_, AccountStatus::Closed) => true,
            (AccountStatus::Pending, AccountStatus::Active) => true,
            (AccountStatus::Active, AccountStatus::Inactive) => true,
            (AccountStatus::Inactive, AccountStatus::Active) => true,
            _ => false,
        }
    }
}

/// Whether a recorded transaction succeeded or failed on-chain.
#[derive(Clone, Copy, Debug, PartialEq, Eq, Structural)]
pub enum TxStatus {
    Success,
    Failed,
}

/// A custodial account. The network address is unique and immutable once
/// assigned.
#[derive(Debug)]
pub struct Account {
    pub id: u128,
    pub stellar_address: String,
    pub account_type: String,
    pub created_at: Option<i64>,
    pub updated_at: Option<i64>,
    pub status: AccountStatus,
}

impl Clone for Account {
    fn clone(&self) -> (r: Self)
        ensures
            r == *self,
    {
        Account {
            id: self.id,
            stellar_address: self.stellar_address.clone(),
            account_type: self.account_type.clone(),
            created_at: self.created_at,
            updated_at: self.updated_at,
            status: self.status,
        }
    }
}

/// The encrypted signing key owned by an account; created together with it.
/// Only the ciphertext is stored.
#[derive(Debug)]
pub struct EncryptedKey {
    pub id: u128,
    pub account_id: u128,
    pub encrypted_key: Vec<u8>,
    pub created_at: Option<i64>,
}

/// An account joined with its encrypted key, as the vault reads it.
#[derive(Debug)]
pub struct AccountWithKey {
    pub id: u128,
    pub stellar_address: String,
    pub account_type: String,
    pub created_at: Option<i64>,
    pub updated_at: Option<i64>,
    pub status: AccountStatus,
    pub encrypted_key: Vec<u8>,
}

/// A trustline of an account for a credit asset. The pair of asset code and
/// issuer is unique per account.
#[derive(Debug)]
pub struct Trustline {
    pub id: u128,
    pub account_id: u128,
    pub asset_code: String,
    pub asset_issuer: String,
    pub trust_limit: Option<u64>,
    pub created_at: Option<i64>,
    pub status: String,
}

/// An immutable historical record of a ledger submission. The transaction
/// hash is unique; a side that is no known local account is recorded as
/// `None`, the external marker.
#[derive(Debug)]
pub struct Transaction {
    pub id: u128,
    pub source_account_id: Option<u128>,
    pub destination_account_id: Option<u128>,
    pub transaction_hash: String,
    pub amount: u64,
    pub asset_code: String,
    pub memo: Option<String>,
    pub created_at: Option<i64>,
    pub status: TxStatus,
}

impl Clone for Transaction {
    fn clone(&self) -> (r: Self)
        ensures
            r == *self,
    {
        Transaction {
            id: self.id,
            source_account_id: self.source_account_id,
            destination_account_id: self.destination_account_id,
            transaction_hash: self.transaction_hash.clone(),
            amount: self.amount,
            asset_code: self.asset_code.clone(),
            memo: crate::text::clone_opt_string(&self.memo),
            created_at: self.created_at,
            status: self.status,
        }
    }
}

/// A diagnostic child of a failed transaction.
#[derive(Debug)]
pub struct TransactionError {
    pub id: u128,
    pub transaction_id: u128,
    pub error_code: String,
    pub error_message: String,
    pub occurred_at: i64,
}

/// One page of a listing, with the page arithmetic already done.
pub struct Pagination<T> {
    pub data: Vec<T>,
    pub total_pages: i64,
    pub total_records: i64,
    pub page: i64,
    pub per_page: i64,
}

} // verus!
