//! Why a request is turned down.

use vstd::prelude::*;

verus! {

/// The answer to a request that is turned down, with the text the client sees.
#[derive(Debug)]
pub enum ApiError {
    Validation(String),
    NotFound(String),
    Authorization(String),
    Compliance(String),
    RateLimit(String),
    InternalServerError,
}

} // verus!
