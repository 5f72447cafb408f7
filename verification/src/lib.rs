//! Custodial gateway core: creates and manages ledger accounts on behalf of
//! end users, keeps their signing keys encrypted at rest, and reconciles the
//! outcome of network submissions with a local durable record.
//!
//! The modules split along the component boundaries of the system:
//! - [`cipher`]: symmetric encryption of signing keys with a process-wide key.
//! - [`keys`]: keypair generation and public-address derivation.
//! - [`store`]: the local record store (accounts, keys, transactions).
//! - [`vault`]: resolving an account id to its decrypted signing keypair.
//! - [`recorder`]: durable, idempotent recording of submission outcomes.
//! - [`account`]: account lifecycle (create, activate, update, soft delete).
//! - [`payment`]: payment and trustline orchestration.
//! - [`chain`]: the ledger-network interface types.
//!
//! Network submission itself is input/output and stays outside this crate:
//! an operation is prepared here, the caller submits it, and the outcome is
//! handed back in to be recorded and settled.

pub mod account;
pub mod chain;
pub mod cipher;
pub mod clock;
pub mod errors;
pub mod forms;
pub mod ids;
pub mod keys;
pub mod models;
pub mod payment;
pub mod recorder;
pub mod store;
pub mod text;
pub mod vault;
