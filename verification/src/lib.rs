//! A verified escrow engine for two-party task-for-payment agreements.
//!
//! A client funds a provider to perform a task; an optional arbitrator can
//! settle disputes. The engine is the escrow lifecycle state machine and the
//! fee-splitting arithmetic: every operation validates its preconditions,
//! transitions the record's status, and describes exactly how the custodied
//! funds must move. The host ledger (account storage, token custody, clock
//! and signature checks) sits outside this crate; operations take the values
//! the host read (caller identity, current time, vault balance) and return
//! the transfers the host must perform, so that everything the engine
//! decides is proved.

pub mod account;
pub mod config;
pub mod dispute;
pub mod enums;
pub mod errors;
pub mod escrow;
pub mod fees;
pub mod laws;
pub mod lifecycle;
pub mod settlement;
