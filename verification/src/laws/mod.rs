//! What the operations are for.
//!
//! Each law speaks of calls of the operations themselves: of what they are handed, of what
//! they return and of what they leave behind. A premise `call_ensures(f, args, r)` says
//! that `r` came of a call of `f`; for an argument that is changed, `old` is its value
//! before that call and `final` its value after it.

pub mod basics;
pub mod compliance;
pub mod escrow;
pub mod ledger;
pub mod rate_limit;
pub mod reputation_score;
pub mod transfers;
pub mod upgradeable_proxy;
pub mod withdrawals;
