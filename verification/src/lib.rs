//! The decision logic of the Zaps payment platform: the on-ledger contracts
//! (escrow, reputation, upgradeable proxy) and the backend rules (rate limiting,
//! compliance screening, transfers, withdrawals, caching).
//!
//! Every rule is a function on plain values with a proved contract. What has to
//! be asked of the ledger host or of a network service is handed in as a value,
//! and what has to be done there is handed back as one. What the operations are for, alone
//! and one after another, is stated and proved in [`laws`].

pub mod contracts;
pub mod backend;
pub mod laws;
