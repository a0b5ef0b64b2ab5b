//! Whom the rate limiter lets pass.

use crate::backend::api_error::ApiError;
use crate::backend::clock::clock_tells;
use crate::backend::rate_limit::{
    check_redis, limit_applies, limit_counts, next_redis_step, rate_limit,
    rate_limit_key, scope_name, Bucket, Counting, EndpointRateLimitConfig, RateLimitConfig,
    RateLimitDecision, RateLimitHeaders, RateLimitScope, RateLimitService, RedisReply, RedisStep,
    RedisWindow,
};
use crate::backend::text::{decimal_u64, occurs_at};
use vstd::prelude::*;

verus! {

/// The limit that counts for a path is one of the configured ones whose prefix the path
/// begins with; no other such prefix is longer, and none of the same length stands after
/// it. There is none only if the path begins with no prefix.
pub proof fn law_endpoint_limit(
    s: &RateLimitService,
    path: &str,
    r: Option<&EndpointRateLimitConfig>,
)
    requires
        call_ensures(RateLimitService::endpoint_limit, (s, path), r),
    ensures
        r is None ==> forall|j: int|
            0 <= j < s.limits().endpoint_limits@.len() ==> !starts(
                path@,
                (#[trigger] s.limits().endpoint_limits@[j]).path_prefix@,
            ),
        r matches Some(l) ==> exists|i: int|
            {
                &&& 0 <= i < s.limits().endpoint_limits@.len()
                &&& *l == #[trigger] s.limits().endpoint_limits@[i]
                &&& starts(path@, s.limits().endpoint_limits@[i].path_prefix@)
                &&& forall|j: int|
                    0 <= j < s.limits().endpoint_limits@.len()
                        && starts(path@, (#[trigger] s.limits().endpoint_limits@[j]).path_prefix@)
                        ==> s.limits().endpoint_limits@[j].path_prefix@.len()
                            < s.limits().endpoint_limits@[i].path_prefix@.len() || j <= i
                        && s.limits().endpoint_limits@[j].path_prefix@.len()
                            == s.limits().endpoint_limits@[i].path_prefix@.len()
            },
{
    let limits = s.limits().endpoint_limits@;
    assert forall|j: int| 0 <= j < limits.len() implies (starts(
        path@,
        (#[trigger] limits[j]).path_prefix@,
    ) <==> limit_applies(limits, path@, j)) by {
        lemma_starts(path@, limits[j].path_prefix@);
    }
    if r is Some {
        let i = choose|i: int| #[trigger] limit_counts(limits, path@, i) && *r->0 == limits[i];
        assert(limit_applies(limits, path@, i));
        assert(*r->0 == limits[i]);
    }
}

/// `text` begins with `prefix`, character by character.
pub open spec fn starts(text: Seq<char>, prefix: Seq<char>) -> bool {
    prefix.len() <= text.len() && forall|i: int|
        0 <= i < prefix.len() ==> #[trigger] text[i] == prefix[i]
}

proof fn lemma_starts(text: Seq<char>, prefix: Seq<char>)
    ensures
        starts(text, prefix) <==> occurs_at(text, prefix, 0),
{
    if prefix.len() <= text.len() {
        let head = text.subrange(0, prefix.len() as int);
        if head == prefix {
            assert forall|i: int| 0 <= i < prefix.len() implies #[trigger] text[i]
                == prefix[i] by {
                assert(head[i] == text[i]);
            }
        } else if starts(text, prefix) {
            assert(head =~= prefix);
        }
    }
}

/// A request goes against a counter that is named after the scope, the prefix of the limit
/// that counts (with underscores for slashes; `global` where no limit of its own counts) and
/// the caller, with that limit's numbers, or the general ones.
pub proof fn law_bucket(
    s: &RateLimitService,
    scope_key: &str,
    path: &str,
    scope: RateLimitScope,
    b: Bucket,
    limit: Option<&EndpointRateLimitConfig>,
    name: &'static str,
)
    requires
        call_ensures(RateLimitService::bucket, (s, scope_key, path, &scope), b),
        call_ensures(RateLimitService::endpoint_limit, (s, path), limit),
        call_ensures(scope_name, (&scope,), name),
    ensures
        name@ == (match scope {
            RateLimitScope::Ip => "ip"@,
            RateLimitScope::User => "user"@,
            RateLimitScope::ApiKey => "api_key"@,
        }),
        limit is None ==> {
            &&& b.max_requests == s.limits().max_requests
            &&& b.window_ms == s.limits().window_ms
        },
        limit matches Some(l) ==> b.max_requests == l.max_requests && b.window_ms == l.window_ms,
        exists|flat: Seq<char>|
            {
                let prefix = match limit {
                    Some(l) => l.path_prefix@,
                    None => "global"@,
                };
                &&& b.key@ == #[trigger] ("rate_limit:"@ + name@ + ":"@ + flat + ":"@ + scope_key@)
                &&& flat.len() == prefix.len()
                &&& forall|i: int|
                    0 <= i < prefix.len() ==> #[trigger] flat[i] == (if prefix[i] == '/' {
                        '_'
                    } else {
                        prefix[i]
                    })
            },
{
    let prefix = match limit {
        Some(l) => l.path_prefix@,
        None => "global"@,
    };
    let flat = prefix.map_values(
        |c: char|
            if c == '/' {
                '_'
            } else {
                c
            },
    );
    assert(b.key@ == "rate_limit:"@ + name@ + ":"@ + flat + ":"@ + scope_key@);
}

/// Callers on the same path and scope share a counter only if they are the same.
pub proof fn law_callers_have_their_own_counters(
    s: &RateLimitService,
    one: &str,
    other: &str,
    path: &str,
    scope: RateLimitScope,
    b_one: Bucket,
    b_other: Bucket,
    limit: Option<&EndpointRateLimitConfig>,
    name: &'static str,
)
    requires
        call_ensures(RateLimitService::bucket, (s, one, path, &scope), b_one),
        call_ensures(RateLimitService::bucket, (s, other, path, &scope), b_other),
        call_ensures(RateLimitService::endpoint_limit, (s, path), limit),
        call_ensures(scope_name, (&scope,), name),
        b_one.key@ == b_other.key@,
    ensures
        one@ == other@,
{
    law_bucket(s, one, path, scope, b_one, limit, name);
    law_bucket(s, other, path, scope, b_other, limit, name);
    let prefix = match limit {
        Some(l) => l.path_prefix@,
        None => "global"@,
    };
    let front = "rate_limit:"@ + name@ + ":"@ + prefix.map_values(
        |c: char|
            if c == '/' {
                '_'
            } else {
                c
            },
    ) + ":"@;
    assert(b_one.key@ == front + one@);
    assert(b_other.key@ == front + other@);
    assert(one@ =~= b_one.key@.skip(front.len() as int));
    assert(other@ =~= b_other.key@.skip(front.len() as int));
}

/// A caller is counted by address, unless the scope names something else that the request
/// carries. A request begins with the counter being raised, in Redis, in the bucket of that
/// caller.
pub proof fn law_request(
    s: &RateLimitService,
    ip: String,
    user_id: Option<String>,
    api_key: Option<String>,
    path: &str,
    c: Counting,
    key: String,
    scope_key: &str,
    scope: RateLimitScope,
    begun: Counting,
    b: Bucket,
    b_begun: Bucket,
    caller: &str,
)
    requires
        call_ensures(RateLimitService::check_request, (s, ip, user_id, api_key, path), c),
        call_ensures(rate_limit_key, (&s.limits().scope, ip, user_id, api_key), key),
        caller@ == key@,
        call_ensures(RateLimitService::bucket, (s, caller, path, &s.limits().scope), b),
        call_ensures(RateLimitService::check_rate_limit, (s, scope_key, path, &scope), begun),
        call_ensures(RateLimitService::bucket, (s, scope_key, path, &scope), b_begun),
    ensures
        s.limits().scope == RateLimitScope::Ip ==> key == ip,
        s.limits().scope == RateLimitScope::User ==> key == (if user_id is Some {
            user_id->0
        } else {
            ip
        }),
        s.limits().scope == RateLimitScope::ApiKey ==> key == (if api_key is Some {
            api_key->0
        } else {
            ip
        }),
        c.step == RedisStep::Increment,
        c.bucket.key@ == b.key@,
        c.bucket.max_requests == b.max_requests,
        c.bucket.window_ms == b.window_ms,
        begun.step == RedisStep::Increment,
        begun.bucket.key@ == b_begun.key@,
        begun.bucket.max_requests == b_begun.max_requests,
        begun.bucket.window_ms == b_begun.window_ms,
{
}

/// In Redis the first request of a window sets the window's end and all requests read it;
/// only a counter that could not be raised loses the connection. The counter stays the same
/// on the way.
pub proof fn law_redis_steps(c: Counting, reply: RedisReply, next: Counting)
    requires
        call_ensures(Counting::replied, (c, reply), next),
    ensures
        next.bucket == c.bucket,
        c.step is Increment ==> match reply {
            RedisReply::Count(n) => if n == 1 {
                next.step matches RedisStep::Expire { count, ttl_ms } && count == 1
                    && (c.bucket.window_ms <= 0x7fff_ffff_ffff_ffff ==> ttl_ms
                    == c.bucket.window_ms) && (c.bucket.window_ms > 0x7fff_ffff_ffff_ffff ==> ttl_ms
                    == c.bucket.window_ms - 0x1_0000_0000_0000_0000)
            } else {
                next.step == (RedisStep::ReadTtl { count: n })
            },
            _ => next.step == RedisStep::Lost,
        },
        c.step matches RedisStep::Expire { count, .. } ==> next.step == (RedisStep::ReadTtl {
            count,
        }),
        c.step matches RedisStep::ReadTtl { count } ==> match reply {
            RedisReply::Ttl(t) => next.step == RedisStep::Counted(
                RedisWindow { count, ttl_ms: Some(t) },
            ),
            _ => next.step == RedisStep::Counted(RedisWindow { count, ttl_ms: None }),
        },
        c.step is Counted || c.step is Lost ==> next.step == c.step,
{
}

/// The step after a reply is the same with and without the counter around it.
pub proof fn law_bare_redis_steps(
    c: Counting,
    reply: RedisReply,
    next: Counting,
    bare: RedisStep,
)
    requires
        call_ensures(Counting::replied, (c, reply), next),
        call_ensures(next_redis_step, (c.step, reply, c.bucket.window_ms), bare),
    ensures
        bare == next.step,
{
}

/// A request is allowed exactly if the count is at most the limit, is told what is left of
/// the limit, and the seconds to the window's end, rounded up. Where Redis does not know the
/// time to the end it is the whole window, and a negative one is none.
pub proof fn law_redis_decision(
    window: RedisWindow,
    max_requests: u32,
    window_ms: u64,
    d: RateLimitDecision,
)
    requires
        call_ensures(check_redis, (window, max_requests, window_ms), d),
    ensures
        d.allowed <==> window.count <= max_requests,
        d.limit == max_requests,
        d.allowed ==> d.remaining == max_requests - window.count,
        !d.allowed ==> d.remaining == 0,
        window.ttl_ms matches Some(t) ==> (t <= 0 ==> d.reset_after_seconds == 0),
        window.ttl_ms matches Some(t) ==> (t > 0 ==> d.reset_after_seconds * 1000 - 1000 < t
            <= d.reset_after_seconds * 1000),
        window.ttl_ms is None && 0 < window_ms <= 0x7fff_ffff_ffff_ffff ==> d.reset_after_seconds
            * 1000 - 1000 < window_ms <= d.reset_after_seconds * 1000,
        window.ttl_ms is None && (window_ms == 0 || window_ms > 0x7fff_ffff_ffff_ffff)
            ==> d.reset_after_seconds == 0,
{
}

/// In the process a request is counted in the running window of its key, or begins a new
/// window that ends `window_ms` later; whoever is not over the limit passes. No other key's
/// window changes.
pub proof fn law_local_count(
    s: &mut RateLimitService,
    key: &str,
    max_requests: u32,
    window_ms: u64,
    now: u64,
    d: RateLimitDecision,
)
    requires
        call_ensures(
            RateLimitService::check_local_at,
            (s, key, max_requests, window_ms, now),
            d,
        ),
    ensures
        final(s).limits() == old(s).limits(),
        final(s).windows().remove(key@) == old(s).windows().remove(key@),
        final(s).windows().contains_key(key@),
        ({
            let before = old(s).windows();
            let (count, ends) = final(s).windows()[key@];
            let running = before.contains_key(key@) && now < (before[key@]).1;
            &&& running && (before[key@]).0 < u32::MAX ==> count == (before[key@]).0 + 1
            &&& running && (before[key@]).0 == u32::MAX ==> count == u32::MAX
            &&& running ==> ends == (before[key@]).1
            &&& !running ==> count == 1
            &&& !running && now + window_ms <= u64::MAX ==> ends == now + window_ms
            &&& !running && now + window_ms > u64::MAX ==> ends == u64::MAX
            &&& d.allowed <==> count <= max_requests
            &&& d.limit == max_requests
            &&& d.allowed ==> d.remaining == max_requests - count
            &&& !d.allowed ==> d.remaining == 0
            &&& ends <= now ==> d.reset_after_seconds == 0
            &&& ends > now ==> d.reset_after_seconds * 1000 - 1000 < ends - now
                <= d.reset_after_seconds * 1000
        }),
{
    let window = final(s).windows()[key@];
    assert(old(s).windows().insert(key@, window).remove(key@) =~= old(s).windows().remove(key@));
}

/// A request that comes now is counted as one at a time that the clock can tell.
pub proof fn law_local_count_now(
    s: &mut RateLimitService,
    key: &str,
    max_requests: u32,
    window_ms: u64,
    d: RateLimitDecision,
)
    requires
        call_ensures(RateLimitService::check_local, (s, key, max_requests, window_ms), d),
    ensures
        final(s).limits() == old(s).limits(),
        final(s).windows().remove(key@) == old(s).windows().remove(key@),
        final(s).windows().contains_key(key@),
        exists|now: u64| #[trigger]
            clock_tells(now) && {
                let before = old(s).windows();
                let (count, ends) = final(s).windows()[key@];
                let running = before.contains_key(key@) && now < (before[key@]).1;
                &&& running && (before[key@]).0 < u32::MAX ==> count == (before[key@]).0 + 1
                &&& running && (before[key@]).0 == u32::MAX ==> count == u32::MAX
                &&& running ==> ends == (before[key@]).1
                &&& !running ==> count == 1
                &&& !running && now + window_ms <= u64::MAX ==> ends == now + window_ms
                &&& !running && now + window_ms > u64::MAX ==> ends == u64::MAX
                &&& d.allowed <==> count <= max_requests
                &&& d.limit == max_requests
                &&& d.allowed ==> d.remaining == max_requests - count
                &&& !d.allowed ==> d.remaining == 0
                &&& ends <= now ==> d.reset_after_seconds == 0
                &&& ends > now ==> d.reset_after_seconds * 1000 - 1000 < ends - now
                    <= d.reset_after_seconds * 1000
            },
{
    let now = choose|now: u64|
        clock_tells(now) && #[trigger] old(s).counts_to(
            *final(s),
            key@,
            max_requests,
            window_ms,
            now,
            d,
        );
    let window = final(s).windows()[key@];
    assert(old(s).windows().insert(key@, window).remove(key@) =~= old(s).windows().remove(key@));
    assert(clock_tells(now));
}

/// A request is decided on by the count in Redis where there is one, which leaves the
/// windows in the process alone; and otherwise by a count in the process, in the same
/// bucket, at a time that the clock can tell.
pub proof fn law_settle(
    s: &mut RateLimitService,
    c: Counting,
    d: RateLimitDecision,
    by_redis: RateLimitDecision,
)
    requires
        call_ensures(RateLimitService::settle, (s, &c), d),
        c.step matches RedisStep::Counted(w) ==> call_ensures(
            check_redis,
            (w, c.bucket.max_requests, c.bucket.window_ms),
            by_redis,
        ),
    ensures
        final(s).limits() == old(s).limits(),
        c.step is Counted ==> d == by_redis && final(s).windows() == old(s).windows(),
        !(c.step is Counted) ==> exists|now: u64| #[trigger]
            clock_tells(now) && {
                let before = old(s).windows();
                let key = c.bucket.key@;
                let (count, ends) = final(s).windows()[key];
                let running = before.contains_key(key) && now < (before[key]).1;
                &&& final(s).windows().remove(key) == before.remove(key)
                &&& final(s).windows().contains_key(key)
                &&& running && (before[key]).0 < u32::MAX ==> count == (before[key]).0 + 1
                &&& running && (before[key]).0 == u32::MAX ==> count == u32::MAX
                &&& running ==> ends == (before[key]).1
                &&& !running ==> count == 1
                &&& !running && now + c.bucket.window_ms <= u64::MAX ==> ends == now
                    + c.bucket.window_ms
                &&& !running && now + c.bucket.window_ms > u64::MAX ==> ends == u64::MAX
                &&& d.allowed <==> count <= c.bucket.max_requests
                &&& d.limit == c.bucket.max_requests
                &&& d.allowed ==> d.remaining == c.bucket.max_requests - count
                &&& !d.allowed ==> d.remaining == 0
                &&& ends <= now ==> d.reset_after_seconds == 0
                &&& ends > now ==> d.reset_after_seconds * 1000 - 1000 < ends - now
                    <= d.reset_after_seconds * 1000
            },
{
    if !(c.step is Counted) {
        let key = c.bucket.key@;
        let now = choose|now: u64|
            clock_tells(now) && #[trigger] old(s).counts_to(
                *final(s),
                key,
                c.bucket.max_requests,
                c.bucket.window_ms,
                now,
                d,
            );
        let window = final(s).windows()[key];
        assert(old(s).windows().insert(key, window).remove(key) =~= old(s).windows().remove(key));
        assert(clock_tells(now));
    }
}

/// A request that is allowed passes, with the three numbers in decimal; one that is not is
/// turned down.
pub proof fn law_answer(
    d: RateLimitDecision,
    r: Result<RateLimitHeaders, ApiError>,
    limit: String,
    remaining: String,
    reset: String,
)
    requires
        call_ensures(rate_limit, (&d,), r),
        call_ensures(decimal_u64, (d.limit as u64,), limit),
        call_ensures(decimal_u64, (d.remaining as u64,), remaining),
        call_ensures(decimal_u64, (d.reset_after_seconds,), reset),
    ensures
        r is Ok <==> d.allowed,
        r matches Ok(h) ==> h.limit@ == limit@ && h.remaining@ == remaining@ && h.reset@ == reset@,
        r is Err ==> (r matches Err(ApiError::RateLimit(text)) && text@ == "Too many requests"@),
{
}

/// A limiter starts out with the limits it is given and nothing counted.
pub proof fn law_new(config: RateLimitConfig, s: RateLimitService, key: Seq<char>)
    requires
        call_ensures(RateLimitService::new, (config,), s),
    ensures
        s.limits() == config,
        !s.windows().contains_key(key),
{
}

} // verus!
