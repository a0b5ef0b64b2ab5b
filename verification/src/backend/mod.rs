//! The rules of the backend services.

pub mod api_error;
pub mod cache;
pub mod clock;
pub mod compliance;
pub mod ids;
pub mod numbers;
pub mod rate_limit;
pub mod text;
pub mod transfers;
pub mod withdrawals;
