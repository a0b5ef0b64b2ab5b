//! The contracts that live on the ledger.

pub mod host;
pub mod storage;
pub mod upgradeable_proxy;
pub mod reputation_score;
pub mod escrow;
