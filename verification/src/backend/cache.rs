//! The cache: what a reply of the store means for the caller, and what is counted.

use super::api_error::ApiError;
use vstd::prelude::*;

verus! {

/// What came of reading an entry.
#[derive(Debug)]
pub enum CacheRead {
    /// There is no connection to the store.
    Unavailable,
    Failed,
    Missing,
    Found(String),
}

/// What came of changing an entry.
#[derive(Clone, Copy, PartialEq, Eq, Structural, Debug)]
pub enum CacheWrite {
    /// There is no connection to the store.
    Unavailable,
    Failed,
    Done,
}

/// What a read is counted as.
pub open spec fn read_event(read: CacheRead) -> Seq<char> {
    match read {
        CacheRead::Unavailable => "unavailable"@,
        CacheRead::Failed => "error"@,
        CacheRead::Missing => "miss"@,
        CacheRead::Found(_) => "hit"@,
    }
}

/// What a change is counted as.
pub open spec fn write_event(write: CacheWrite) -> Seq<char> {
    match write {
        CacheWrite::Unavailable => "unavailable"@,
        CacheWrite::Failed => "error"@,
        CacheWrite::Done => "ok"@,
    }
}

/// What a change means for the caller: only a failure of the store is an error. A store
/// that is not there is none.
pub open spec fn write_outcome(write: CacheWrite) -> Result<(), ApiError> {
    match write {
        CacheWrite::Failed => Err(ApiError::InternalServerError),
        CacheWrite::Unavailable | CacheWrite::Done => Ok(()),
    }
}

/// The settings of the cache.
#[derive(Debug)]
pub struct CacheService {
    pub default_ttl_seconds: u64,
}

impl CacheService {
    /// A cache whose entries live so long where nothing else is asked for.
    pub fn new(default_ttl_seconds: u64) -> (s: Self)
        ensures
            s.default_ttl_seconds == default_ttl_seconds,
    {
        CacheService { default_ttl_seconds }
    }

    /// How long an entry is to live.
    pub fn ttl(&self, ttl_seconds: Option<u64>) -> (ttl: u64)
        ensures
            ttl == (match ttl_seconds {
                Some(t) => t,
                None => self.default_ttl_seconds,
            }),
    {
        match ttl_seconds {
            Some(t) => t,
            None => self.default_ttl_seconds,
        }
    }

    /// What a read is counted as, and what it gives the caller: the text of the entry, if
    /// there is one.
    pub fn get_json(&self, read: CacheRead) -> (r: (&'static str, Result<Option<String>, ApiError>))
        ensures
            r.0@ == read_event(read),
            r.1 == (match read {
                CacheRead::Unavailable | CacheRead::Missing => Ok(None),
                CacheRead::Failed => Err(ApiError::InternalServerError),
                CacheRead::Found(text) => Ok(Some(text)),
            }),
    {
        match read {
            CacheRead::Unavailable => ("unavailable", Ok(None)),
            CacheRead::Failed => ("error", Err(ApiError::InternalServerError)),
            CacheRead::Missing => ("miss", Ok(None)),
            CacheRead::Found(text) => ("hit", Ok(Some(text))),
        }
    }

    /// What a write is counted as, and what it means for the caller.
    pub fn set_json(&self, write: CacheWrite) -> (r: (&'static str, Result<(), ApiError>))
        ensures
            r.0@ == write_event(write),
            r.1 == write_outcome(write),
    {
        match write {
            CacheWrite::Unavailable => ("unavailable", Ok(())),
            CacheWrite::Failed => ("error", Err(ApiError::InternalServerError)),
            CacheWrite::Done => ("ok", Ok(())),
        }
    }

    /// What the removal of an entry is counted as, and what it means for the caller.
    pub fn invalidate(&self, write: CacheWrite) -> (r: (&'static str, Result<(), ApiError>))
        ensures
            r.0@ == write_event(write),
            r.1 == write_outcome(write),
    {
        match write {
            CacheWrite::Unavailable => ("unavailable", Ok(())),
            CacheWrite::Failed => ("error", Err(ApiError::InternalServerError)),
            CacheWrite::Done => ("ok", Ok(())),
        }
    }
}

} // verus!
