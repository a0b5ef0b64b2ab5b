//! Rate limiting: at most so many requests per caller and time window.
//!
//! The windows are counted in Redis where it can be reached and in the process
//! otherwise. Both counts lead to a decision in the same way.

use super::api_error::ApiError;
use super::clock::{clock_tells, now_ms};
use super::numbers::{as_signed, to_signed};
use super::text::{decimal, decimal_u64, occurs_at, replace_char, starts_with};
use vstd::prelude::*;

verus! {

/// By what a caller is told apart.
#[derive(Clone, Copy, PartialEq, Eq, Structural, Debug)]
pub enum RateLimitScope {
    Ip,
    User,
    ApiKey,
}

/// A limit of its own for the paths that begin with a prefix.
#[derive(Debug)]
pub struct EndpointRateLimitConfig {
    pub path_prefix: String,
    pub window_ms: u64,
    pub max_requests: u32,
}

/// All limits.
#[derive(Debug)]
pub struct RateLimitConfig {
    pub window_ms: u64,
    pub max_requests: u32,
    pub scope: RateLimitScope,
    pub endpoint_limits: Vec<EndpointRateLimitConfig>,
}

/// Whether a request may pass, and what the caller is told of the limit.
#[derive(Clone, Copy, PartialEq, Eq, Structural, Debug)]
pub struct RateLimitDecision {
    pub allowed: bool,
    pub limit: u32,
    pub remaining: u32,
    pub reset_after_seconds: u64,
}

/// The counter that a request goes against.
#[derive(Debug)]
pub struct Bucket {
    pub key: String,
    pub max_requests: u32,
    pub window_ms: u64,
}

/// What Redis said of a counter after it was raised: the count, and the time in
/// milliseconds until it is dropped, where that could be read.
#[derive(Clone, Copy, PartialEq, Eq, Structural, Debug)]
pub struct RedisWindow {
    pub count: u32,
    pub ttl_ms: Option<i64>,
}

/// A concurrent map as `dashmap` provides it.
#[verifier::external_type_specification]
#[verifier::external_body]
#[verifier::reject_recursive_types(K)]
#[verifier::reject_recursive_types(V)]
#[verifier::reject_recursive_types(S)]
pub struct ExDashMap<K, V, S>(dashmap::DashMap<K, V, S>);

/// The windows that are counted in the process: for each key the requests so far and
/// the time at which the window ends.
pub type WindowMap = dashmap::DashMap<String, (u32, u64)>;

/// The entries of a window map.
pub uninterp spec fn windows_of(map: WindowMap) -> Map<Seq<char>, (u32, u64)>;

/// `DashMap::new` makes a map without entries.
#[verifier::external_body]
fn new_windows() -> (map: WindowMap)
    ensures
        windows_of(map).dom().is_empty(),
{
    dashmap::DashMap::new()
}

/// `DashMap::entry` with `Entry::or_insert`: the value under the key, after the given
/// one was entered if there was none. Nothing else changes.
#[verifier::external_body]
fn window_or_insert(map: &mut WindowMap, key: String, value: (u32, u64)) -> (found: (u32, u64))
    ensures
        windows_of(*old(map)).contains_key(key@) ==> found == windows_of(*old(map))[key@],
        !windows_of(*old(map)).contains_key(key@) ==> found == value,
        windows_of(*final(map)) == windows_of(*old(map)).insert(key@, found),
{
    *map.entry(key).or_insert(value)
}

/// `DashMap::insert` puts the value under the key and returns the one that was there.
/// Nothing else changes.
#[verifier::external_body]
fn insert_window(map: &mut WindowMap, key: String, value: (u32, u64)) -> (before: Option<(u32, u64)>)
    ensures
        windows_of(*final(map)) == windows_of(*old(map)).insert(key@, value),
        before == windows_of(*old(map)).get(key@),
{
    map.insert(key, value)
}

/// The name of a scope.
pub open spec fn scope_text(scope: RateLimitScope) -> Seq<char> {
    match scope {
        RateLimitScope::Ip => "ip"@,
        RateLimitScope::User => "user"@,
        RateLimitScope::ApiKey => "api_key"@,
    }
}

/// The name of a scope.
pub fn scope_name(scope: &RateLimitScope) -> (name: &'static str)
    ensures
        name@ == scope_text(*scope),
{
    match scope {
        RateLimitScope::Ip => "ip",
        RateLimitScope::User => "user",
        RateLimitScope::ApiKey => "api_key",
    }
}

/// Whether limit `i` is for the path.
pub open spec fn limit_applies(
    limits: Seq<EndpointRateLimitConfig>,
    path: Seq<char>,
    i: int,
) -> bool {
    0 <= i < limits.len() && occurs_at(path, limits[i].path_prefix@, 0)
}

/// Limit `i` is the one that counts for the path: of those that apply the one with the
/// longest prefix, and of several such the last.
pub open spec fn limit_counts(
    limits: Seq<EndpointRateLimitConfig>,
    path: Seq<char>,
    i: int,
) -> bool {
    &&& limit_applies(limits, path, i)
    &&& forall|j: int| #[trigger]
        limit_applies(limits, path, j) ==> limits[j].path_prefix@.len()
            < limits[i].path_prefix@.len() || (limits[j].path_prefix@.len()
            == limits[i].path_prefix@.len() && j <= i)
}

/// The limit that counts for the path, if there is one of its own for it.
pub open spec fn endpoint_limit_of(config: RateLimitConfig, path: Seq<char>) -> Option<
    EndpointRateLimitConfig,
> {
    let limits = config.endpoint_limits@;
    if exists|i: int| limit_applies(limits, path, i) {
        Some(limits[choose|i: int| limit_counts(limits, path, i)])
    } else {
        None
    }
}

/// The requests per window that the path allows.
pub open spec fn max_requests_of(config: RateLimitConfig, path: Seq<char>) -> u32 {
    match endpoint_limit_of(config, path) {
        Some(l) => l.max_requests,
        None => config.max_requests,
    }
}

/// The length of the path's windows.
pub open spec fn window_ms_of(config: RateLimitConfig, path: Seq<char>) -> u64 {
    match endpoint_limit_of(config, path) {
        Some(l) => l.window_ms,
        None => config.window_ms,
    }
}

/// The key of the counter that requests of a caller to a path go against.
pub open spec fn bucket_key(
    config: RateLimitConfig,
    scope_key: Seq<char>,
    path: Seq<char>,
    scope: RateLimitScope,
) -> Seq<char> {
    let bucket = match endpoint_limit_of(config, path) {
        Some(l) => l.path_prefix@,
        None => "global"@,
    };
    let flat = bucket.map_values(
        |c: char|
            if c == '/' {
                '_'
            } else {
                c
            },
    );
    "rate_limit:"@ + scope_text(scope) + ":"@ + flat + ":"@ + scope_key
}

/// What a count means for the request that was counted last.
pub open spec fn decide(count: u32, max_requests: u32, reset_after_ms: int) -> RateLimitDecision {
    RateLimitDecision {
        allowed: count <= max_requests,
        limit: max_requests,
        remaining: if count <= max_requests {
            (max_requests - count) as u32
        } else {
            0
        },
        reset_after_seconds: ((reset_after_ms + 999) / 1000) as u64,
    }
}

/// The sum, or the largest number where the sum is larger.
pub open spec fn capped_sum(a: int, b: int, cap: int) -> int {
    if a + b > cap {
        cap
    } else {
        a + b
    }
}

/// A window after one more request at time `now`: a window that has ended, or that
/// there was none of, starts anew.
pub open spec fn window_after(window: Option<(u32, u64)>, now: u64, window_ms: u64) -> (u32, u64) {
    let fresh = (1u32, capped_sum(now as int, window_ms as int, u64::MAX as int) as u64);
    match window {
        Some((count, ends)) => if now < ends {
            (capped_sum(count as int, 1, u32::MAX as int) as u32, ends)
        } else {
            fresh
        },
        None => fresh,
    }
}

/// The decision on a request that was counted in a window at time `now`.
pub open spec fn decide_at(window: (u32, u64), max_requests: u32, now: u64) -> RateLimitDecision {
    decide(
        window.0,
        max_requests,
        if now < window.1 {
            window.1 - now
        } else {
            0
        },
    )
}

/// The decision on a request that Redis counted.
pub open spec fn decide_redis(window: RedisWindow, max_requests: u32, window_ms: u64) -> RateLimitDecision {
    let ttl = match window.ttl_ms {
        Some(t) => t as int,
        None => as_signed(window_ms),
    };
    decide(
        window.count,
        max_requests,
        if ttl > 0 {
            ttl
        } else {
            0
        },
    )
}

/// Where the counting of a request in Redis stands, and what is to be done next.
#[derive(Clone, Copy, PartialEq, Eq, Structural, Debug)]
pub enum RedisStep {
    /// Raise the counter (`INCR`).
    Increment,
    /// Set the end of the window (`PEXPIRE`).
    Expire { count: u32, ttl_ms: i64 },
    /// Read the time to the end of the window (`PTTL`).
    ReadTtl { count: u32 },
    /// The request is counted.
    Counted(RedisWindow),
    /// Redis cannot be relied on any more: the connection is given up.
    Lost,
}

/// What Redis answered.
#[derive(Clone, Copy, PartialEq, Eq, Structural, Debug)]
pub enum RedisReply {
    Count(u32),
    Done,
    Ttl(i64),
    Failed,
}

/// The step that follows a reply. The first request of a window sets the window's end,
/// and goes on whether or not that worked.
pub open spec fn redis_step(step: RedisStep, reply: RedisReply, window_ms: u64) -> RedisStep {
    match step {
        RedisStep::Increment => match reply {
            RedisReply::Count(count) => if count == 1 {
                RedisStep::Expire { count, ttl_ms: as_signed(window_ms) as i64 }
            } else {
                RedisStep::ReadTtl { count }
            },
            _ => RedisStep::Lost,
        },
        RedisStep::Expire { count, .. } => RedisStep::ReadTtl { count },
        RedisStep::ReadTtl { count } => match reply {
            RedisReply::Ttl(ttl) => RedisStep::Counted(RedisWindow { count, ttl_ms: Some(ttl) }),
            _ => RedisStep::Counted(RedisWindow { count, ttl_ms: None }),
        },
        RedisStep::Counted(w) => RedisStep::Counted(w),
        RedisStep::Lost => RedisStep::Lost,
    }
}

/// The step that follows a reply.
pub fn next_redis_step(step: RedisStep, reply: RedisReply, window_ms: u64) -> (next: RedisStep)
    ensures
        next == redis_step(step, reply, window_ms),
{
    match step {
        RedisStep::Increment => match reply {
            RedisReply::Count(count) => if count == 1 {
                RedisStep::Expire { count, ttl_ms: to_signed(window_ms) }
            } else {
                RedisStep::ReadTtl { count }
            },
            _ => RedisStep::Lost,
        },
        RedisStep::Expire { count, .. } => RedisStep::ReadTtl { count },
        RedisStep::ReadTtl { count } => match reply {
            RedisReply::Ttl(ttl) => RedisStep::Counted(RedisWindow { count, ttl_ms: Some(ttl) }),
            _ => RedisStep::Counted(RedisWindow { count, ttl_ms: None }),
        },
        RedisStep::Counted(w) => RedisStep::Counted(w),
        RedisStep::Lost => RedisStep::Lost,
    }
}

/// A request on its way through Redis: the counter that it goes against, and what is to be
/// done next with that counter.
#[derive(Debug)]
pub struct Counting {
    pub bucket: Bucket,
    pub step: RedisStep,
}

impl Counting {
    /// The request of the caller `scope_key` to the path, before anything was done.
    pub open spec fn starts(
        self,
        config: RateLimitConfig,
        scope_key: Seq<char>,
        path: Seq<char>,
        scope: RateLimitScope,
    ) -> bool {
        &&& self.bucket.key@ == bucket_key(config, scope_key, path, scope)
        &&& self.bucket.max_requests == max_requests_of(config, path)
        &&& self.bucket.window_ms == window_ms_of(config, path)
        &&& self.step == RedisStep::Increment
    }

    /// Goes on after a reply.
    pub fn replied(self, reply: RedisReply) -> (next: Counting)
        ensures
            next.bucket == self.bucket,
            next.step == redis_step(self.step, reply, self.bucket.window_ms),
    {
        let step = next_redis_step(self.step, reply, self.bucket.window_ms);
        Counting { bucket: self.bucket, step }
    }
}

fn decision(count: u32, max_requests: u32, reset_after_ms: u64) -> (d: RateLimitDecision)
    ensures
        d == decide(count, max_requests, reset_after_ms as int),
{
    let whole: u64 = reset_after_ms / 1000;
    let reset_after_seconds: u64 = if reset_after_ms % 1000 == 0 {
        whole
    } else {
        whole + 1
    };
    RateLimitDecision {
        allowed: count <= max_requests,
        limit: max_requests,
        remaining: max_requests.saturating_sub(count),
        reset_after_seconds,
    }
}

/// The decision on a request that Redis counted.
pub fn check_redis(window: RedisWindow, max_requests: u32, window_ms: u64) -> (d: RateLimitDecision)
    ensures
        d == decide_redis(window, max_requests, window_ms),
{
    let ttl: i64 = match window.ttl_ms {
        Some(t) => t,
        None => to_signed(window_ms),
    };
    let reset_after_ms: u64 = if ttl > 0 {
        ttl as u64
    } else {
        0
    };
    decision(window.count, max_requests, reset_after_ms)
}

/// The limits, and the windows that are counted in the process.
pub struct RateLimitService {
    config: RateLimitConfig,
    local_windows: WindowMap,
}

/// Where any limit applies to a path, exactly one counts, and that is the path's limit.
pub proof fn law_one_limit_counts(config: RateLimitConfig, path: Seq<char>, applies: int)
    requires
        limit_applies(config.endpoint_limits@, path, applies),
    ensures
        exists|i: int| #[trigger]
            limit_counts(config.endpoint_limits@, path, i) && endpoint_limit_of(config, path)
                == Some(config.endpoint_limits@[i]),
        forall|i: int, j: int| #[trigger]
            limit_counts(config.endpoint_limits@, path, i) && #[trigger] limit_counts(
                config.endpoint_limits@,
                path,
                j,
            ) ==> i == j,
{
    let limits = config.endpoint_limits@;
    let i = lemma_some_limit_counts(limits, path, limits.len() as int, applies);
    assert(limit_counts(limits, path, i));
    let chosen = choose|c: int| limit_counts(limits, path, c);
    lemma_limit_counts_once(limits, path, i, chosen);
    assert forall|i: int, j: int| #[trigger]
        limit_counts(limits, path, i) && #[trigger] limit_counts(limits, path, j) implies i
        == j by {
        lemma_limit_counts_once(limits, path, i, j);
    }
}

/// Of the first `n` limits that apply, one is the longest and the last of its length.
proof fn lemma_some_limit_counts(
    limits: Seq<EndpointRateLimitConfig>,
    path: Seq<char>,
    n: int,
    applies: int,
) -> (best: int)
    requires
        limit_applies(limits, path, applies),
        applies < n <= limits.len(),
    ensures
        limit_applies(limits, path, best),
        best < n,
        forall|j: int| #[trigger]
            limit_applies(limits, path, j) && j < n ==> limits[j].path_prefix@.len()
                < limits[best].path_prefix@.len() || (limits[j].path_prefix@.len()
                == limits[best].path_prefix@.len() && j <= best),
    decreases n,
{
    let last = n - 1;
    if limit_applies(limits, path, last) {
        if exists|k: int| limit_applies(limits, path, k) && k < last {
            let k = choose|k: int| limit_applies(limits, path, k) && k < last;
            let before = lemma_some_limit_counts(limits, path, last, k);
            if limits[before].path_prefix@.len() <= limits[last].path_prefix@.len() {
                last
            } else {
                before
            }
        } else {
            last
        }
    } else {
        lemma_some_limit_counts(limits, path, last, applies)
    }
}

proof fn lemma_limit_counts_once(
    limits: Seq<EndpointRateLimitConfig>,
    path: Seq<char>,
    i: int,
    j: int,
)
    requires
        limit_counts(limits, path, i),
        limit_counts(limits, path, j),
    ensures
        i == j,
{
    assert(limit_applies(limits, path, i));
    assert(limit_applies(limits, path, j));
}

impl RateLimitService {
    /// The limits.
    pub closed spec fn limits(&self) -> RateLimitConfig {
        self.config
    }

    /// The windows that are counted in the process, by key.
    pub closed spec fn windows(&self) -> Map<Seq<char>, (u32, u64)> {
        windows_of(self.local_windows)
    }

    /// A limiter that has counted nothing yet.
    pub fn new(config: RateLimitConfig) -> (s: Self)
        ensures
            s.limits() == config,
            s.windows() == Map::<Seq<char>, (u32, u64)>::empty(),
    {
        let s = RateLimitService { config, local_windows: new_windows() };
        assert(s.windows() =~= Map::<Seq<char>, (u32, u64)>::empty());
        s
    }

    /// The limit that counts for a path, if there is one of its own for it.
    pub fn endpoint_limit(&self, path: &str) -> (r: Option<&EndpointRateLimitConfig>)
        ensures
            match r {
                Some(l) => {
                    &&& endpoint_limit_of(self.limits(), path@) == Some(*l)
                    &&& exists|i: int| #[trigger]
                        limit_counts(self.limits().endpoint_limits@, path@, i) && *l
                            == self.limits().endpoint_limits@[i]
                },
                None => {
                    &&& endpoint_limit_of(self.limits(), path@) is None
                    &&& forall|i: int| !limit_applies(self.limits().endpoint_limits@, path@, i)
                },
            },
    {
        let limits = &self.config.endpoint_limits;
        let mut best: Option<usize> = None;
        let mut best_len: usize = 0;
        let mut i: usize = 0;
        while i < limits.len()
            invariant
                limits@ == self.config.endpoint_limits@,
                i <= limits@.len(),
                match best {
                    Some(b) => {
                        &&& b < i
                        &&& best_len == limits@[b as int].path_prefix@.len()
                        &&& limit_counts(limits@.take(i as int), path@, b as int)
                    },
                    None => forall|j: int| 0 <= j < i ==> !limit_applies(limits@, path@, j),
                },
            decreases limits@.len() - i,
        {
            let len: usize = limits[i].path_prefix.as_str().unicode_len();
            let applies = starts_with(path, limits[i].path_prefix.as_str());
            let ghost before = limits@.take(i as int);
            let ghost after = limits@.take(i + 1);
            proof {
                assert forall|j: int| limit_applies(after, path@, j) implies j == i || limit_applies(
                    before,
                    path@,
                    j,
                ) by {
                    if j != i {
                        assert(before[j] == after[j]);
                    }
                }
                assert(after[i as int] == limits@[i as int]);
                if best is None {
                    assert forall|j: int| 0 <= j < i implies !limit_applies(before, path@, j) by {
                        assert(before[j] == limits@[j]);
                        assert(!limit_applies(limits@, path@, j));
                    }
                } else {
                    let b = best->0 as int;
                    assert(before[b] == after[b]);
                    assert(limit_applies(after, path@, b));
                }
            }
            let better = match best {
                Some(_) => len >= best_len,
                None => true,
            };
            if applies && better {
                assert(limit_applies(after, path@, i as int));
                best = Some(i);
                best_len = len;
            }
            proof {
                if best is Some {
                    let b = best->0 as int;
                    assert forall|j: int| #[trigger] limit_applies(after, path@, j) implies after[j].path_prefix@.len()
                        < after[b].path_prefix@.len() || (after[j].path_prefix@.len()
                        == after[b].path_prefix@.len() && j <= b) by {
                        if j != i {
                            assert(limit_applies(before, path@, j));
                            assert(before[j] == after[j]);
                        }
                    }
                }
            }
            i = i + 1;
        }
        proof {
            assert(limits@.take(i as int) =~= limits@);
        }
        match best {
            Some(b) => {
                proof {
                    assert(limit_applies(limits@, path@, b as int));
                    let c = choose|c: int| limit_counts(limits@, path@, c);
                    lemma_limit_counts_once(limits@, path@, b as int, c);
                }
                Some(&limits[b])
            },
            None => None,
        }
    }

    /// The counter that a request goes against.
    pub fn bucket(&self, scope_key: &str, path: &str, scope: &RateLimitScope) -> (b: Bucket)
        ensures
            b.key@ == bucket_key(self.limits(), scope_key@, path@, *scope),
            b.max_requests == max_requests_of(self.limits(), path@),
            b.window_ms == window_ms_of(self.limits(), path@),
    {
        let endpoint = self.endpoint_limit(path);
        let window_ms: u64 = match endpoint {
            Some(l) => l.window_ms,
            None => self.config.window_ms,
        };
        let max_requests: u32 = match endpoint {
            Some(l) => l.max_requests,
            None => self.config.max_requests,
        };
        let bucket: &str = match endpoint {
            Some(l) => l.path_prefix.as_str(),
            None => "global",
        };
        let mut key = String::from_str("rate_limit:");
        key.append(scope_name(scope));
        key.append(":");
        key.append(replace_char(bucket, '/', '_').as_str());
        key.append(":");
        key.append(scope_key);
        Bucket { key, max_requests, window_ms }
    }

    /// Takes up a request by the caller that it is counted for: the limits say by what
    /// callers are told apart.
    pub fn check_request(
        &self,
        ip: String,
        user_id: Option<String>,
        api_key: Option<String>,
        path: &str,
    ) -> (c: Counting)
        ensures
            c.starts(
                self.limits(),
                caller_key(self.limits().scope, ip, user_id, api_key)@,
                path@,
                self.limits().scope,
            ),
    {
        let scope = self.config.scope;
        let key = rate_limit_key(&scope, ip, user_id, api_key);
        self.check_rate_limit(key.as_str(), path, &scope)
    }

    /// Takes up a request of the caller `scope_key`: it is to be counted in Redis first.
    pub fn check_rate_limit(&self, scope_key: &str, path: &str, scope: &RateLimitScope) -> (c:
        Counting)
        ensures
            c.starts(self.limits(), scope_key@, path@, *scope),
    {
        Counting { bucket: self.bucket(scope_key, path, scope), step: RedisStep::Increment }
    }

    /// Decides on a request: by the count in Redis where it came to one, and by a count in
    /// the process where it did not. Both are counts of the same bucket.
    pub fn settle(&mut self, counting: &Counting) -> (d: RateLimitDecision)
        ensures
            final(self).limits() == old(self).limits(),
            ({
                let b = counting.bucket;
                match counting.step {
                    RedisStep::Counted(w) => {
                        &&& d == decide_redis(w, b.max_requests, b.window_ms)
                        &&& final(self).windows() == old(self).windows()
                    },
                    _ => exists|now: u64|
                        clock_tells(now) && #[trigger] old(self).counts_to(
                            *final(self),
                            b.key@,
                            b.max_requests,
                            b.window_ms,
                            now,
                            d,
                        ),
                }
            }),
    {
        let bucket = &counting.bucket;
        match counting.step {
            RedisStep::Counted(w) => check_redis(w, bucket.max_requests, bucket.window_ms),
            _ => self.check_local(bucket.key.as_str(), bucket.max_requests, bucket.window_ms),
        }
    }

    /// `after` and `d` are what counting a request under `key` at time `now` leads to.
    pub open spec fn counts_to(
        self,
        after: RateLimitService,
        key: Seq<char>,
        max_requests: u32,
        window_ms: u64,
        now: u64,
        d: RateLimitDecision,
    ) -> bool {
        let window = window_after(self.windows().get(key), now, window_ms);
        &&& after.limits() == self.limits()
        &&& after.windows() == self.windows().insert(key, window)
        &&& d == decide_at(window, max_requests, now)
    }

    /// Counts a request in the process, now.
    pub fn check_local(&mut self, key: &str, max_requests: u32, window_ms: u64) -> (d: RateLimitDecision)
        ensures
            exists|now: u64|
                clock_tells(now) && #[trigger] old(self).counts_to(
                    *final(self),
                    key@,
                    max_requests,
                    window_ms,
                    now,
                    d,
                ),
    {
        let now: u64 = now_ms();
        self.check_local_at(key, max_requests, window_ms, now)
    }

    /// Counts a request in the process at time `now`.
    pub fn check_local_at(&mut self, key: &str, max_requests: u32, window_ms: u64, now: u64) -> (d:
        RateLimitDecision)
        ensures
            old(self).counts_to(*final(self), key@, max_requests, window_ms, now, d),
    {
        let reset_at_ms: u64 = now.saturating_add(window_ms);
        let found = window_or_insert(&mut self.local_windows, key.to_owned(), (0, reset_at_ms));
        let mut count: u32 = found.0;
        let mut ends: u64 = found.1;
        if now >= ends {
            count = 0;
            ends = reset_at_ms;
        }
        count = count.saturating_add(1);
        insert_window(&mut self.local_windows, key.to_owned(), (count, ends));
        assert(self.windows() =~= old(self).windows().insert(key@, (count, ends)));
        decision(count, max_requests, ends.saturating_sub(now))
    }
}

/// The text by which a caller is counted: the address, or what the scope names if the
/// request carries it.
pub open spec fn caller_key(
    scope: RateLimitScope,
    ip: String,
    user_id: Option<String>,
    api_key: Option<String>,
) -> String {
    match scope {
        RateLimitScope::Ip => ip,
        RateLimitScope::User => match user_id {
            Some(u) => u,
            None => ip,
        },
        RateLimitScope::ApiKey => match api_key {
            Some(k) => k,
            None => ip,
        },
    }
}

/// The text by which a caller is counted.
pub fn rate_limit_key(
    scope: &RateLimitScope,
    ip: String,
    user_id: Option<String>,
    api_key: Option<String>,
) -> (key: String)
    ensures
        key == caller_key(*scope, ip, user_id, api_key),
{
    match scope {
        RateLimitScope::Ip => ip,
        RateLimitScope::User => match user_id {
            Some(u) => u,
            None => ip,
        },
        RateLimitScope::ApiKey => match api_key {
            Some(k) => k,
            None => ip,
        },
    }
}

/// The response headers that tell the caller of the limit.
#[derive(Debug)]
pub struct RateLimitHeaders {
    /// `x-ratelimit-limit`
    pub limit: String,
    /// `x-ratelimit-remaining`
    pub remaining: String,
    /// `x-ratelimit-reset`
    pub reset: String,
}

/// What becomes of a request: it passes, and its response carries the headers, or it
/// is turned down.
pub fn rate_limit(decision: &RateLimitDecision) -> (r: Result<RateLimitHeaders, ApiError>)
    ensures
        decision.allowed ==> {
            &&& r is Ok
            &&& r->Ok_0.limit@ == decimal(decision.limit as int)
            &&& r->Ok_0.remaining@ == decimal(decision.remaining as int)
            &&& r->Ok_0.reset@ == decimal(decision.reset_after_seconds as int)
        },
        !decision.allowed ==> (r matches Err(ApiError::RateLimit(text)) && text@
            == "Too many requests"@),
{
    if !decision.allowed {
        return Err(ApiError::RateLimit("Too many requests".to_owned()));
    }
    Ok(
        RateLimitHeaders {
            limit: decimal_u64(decision.limit as u64),
            remaining: decimal_u64(decision.remaining as u64),
            reset: decimal_u64(decision.reset_after_seconds),
        },
    )
}

/// The window after requests at the given times, none having been counted before.
pub open spec fn window_over(times: Seq<u64>, window_ms: u64) -> Option<(u32, u64)>
    decreases times.len(),
{
    if times.len() == 0 {
        None
    } else {
        Some(window_after(window_over(times.drop_last(), window_ms), times.last(), window_ms))
    }
}

/// Of the requests that fall into one window, starting with the first, exactly the
/// first `max_requests` are allowed; each is told how many are left, and the time to the
/// window's end, which the first of them set.
pub proof fn law_window_allows_the_first_requests(times: Seq<u64>, window_ms: u64, max_requests: u32)
    requires
        0 < times.len() <= u32::MAX,
        forall|i: int|
            0 < i < times.len() ==> #[trigger] times[i] < capped_sum(
                times[0] as int,
                window_ms as int,
                u64::MAX as int,
            ),
    ensures
        ({
            let window = window_over(times, window_ms)->0;
            let d = decide_at(window, max_requests, times.last());
            &&& window.0 == times.len()
            &&& window.1 == capped_sum(times[0] as int, window_ms as int, u64::MAX as int)
            &&& d.allowed <==> times.len() <= max_requests
            &&& d.allowed ==> d.remaining == max_requests - times.len()
            &&& !d.allowed ==> d.remaining == 0
            &&& d.limit == max_requests
            &&& times.last() < window.1 ==> d.reset_after_seconds == (window.1 - times.last() + 999)
                / 1000
            &&& times.last() >= window.1 ==> d.reset_after_seconds == 0
        }),
{
    lemma_window_over(times, window_ms);
}

proof fn lemma_window_over(times: Seq<u64>, window_ms: u64)
    requires
        0 < times.len() <= u32::MAX,
        forall|i: int|
            0 < i < times.len() ==> #[trigger] times[i] < capped_sum(
                times[0] as int,
                window_ms as int,
                u64::MAX as int,
            ),
    ensures
        window_over(times, window_ms) == Some(
            (
                times.len() as u32,
                capped_sum(times[0] as int, window_ms as int, u64::MAX as int) as u64,
            ),
        ),
    decreases times.len(),
{
    let init = times.drop_last();
    if times.len() > 1 {
        assert forall|i: int| 0 < i < init.len() implies #[trigger] init[i] < capped_sum(
            init[0] as int,
            window_ms as int,
            u64::MAX as int,
        ) by {
            assert(init[i] == times[i]);
        }
        lemma_window_over(init, window_ms);
        assert(times[times.len() - 1] == times.last());
    } else {
        assert(window_over(init, window_ms) is None);
    }
}

/// A request after the end of its window starts a new one: it is allowed unless no
/// request is.
pub proof fn law_window_starts_anew(window: (u32, u64), now: u64, window_ms: u64, max_requests: u32)
    requires
        now >= window.1,
    ensures
        ({
            let next = window_after(Some(window), now, window_ms);
            &&& next.0 == 1
            &&& decide_at(next, max_requests, now).allowed <==> max_requests > 0
        }),
{
}

/// Redis and the process decide alike on the same count and time to the window's end.
pub proof fn law_redis_and_process_agree(
    count: u32,
    ends: u64,
    now: u64,
    max_requests: u32,
    window_ms: u64,
)
    requires
        now <= ends,
        ends - now <= i64::MAX,
    ensures
        decide_redis(
            RedisWindow { count, ttl_ms: Some((ends - now) as i64) },
            max_requests,
            window_ms,
        ) == decide_at((count, ends), max_requests, now),
{
}

/// After the counter was raised, three replies at most lead to a counted request,
/// whatever they are, and the count is the one that the first of them gave.
pub proof fn law_raised_counter_is_counted(
    count: u32,
    second: RedisReply,
    third: RedisReply,
    window_ms: u64,
)
    ensures
        ({
            let one = redis_step(RedisStep::Increment, RedisReply::Count(count), window_ms);
            let two = redis_step(one, second, window_ms);
            let three = redis_step(two, third, window_ms);
            &&& one is Expire <==> count == 1
            &&& three matches RedisStep::Counted(w) && w.count == count
        }),
{
}

/// Callers are counted apart: counting under one key leaves the windows of every other
/// key as they were.
pub proof fn law_keys_are_counted_apart(
    before: RateLimitService,
    after: RateLimitService,
    key: Seq<char>,
    other: Seq<char>,
    max_requests: u32,
    window_ms: u64,
    now: u64,
    d: RateLimitDecision,
)
    requires
        before.counts_to(after, key, max_requests, window_ms, now, d),
        other != key,
    ensures
        after.windows().get(other) == before.windows().get(other),
{
}

} // verus!
