//! Rate limiting.

use zaps::backend::api_error::ApiError;
use zaps::backend::clock::{epoch_ms, now_ms};
use zaps::backend::rate_limit::{
    check_redis, next_redis_step, rate_limit, rate_limit_key, scope_name, Counting,
    EndpointRateLimitConfig, RateLimitConfig, RateLimitDecision, RateLimitScope,
    RateLimitService, RedisReply, RedisStep, RedisWindow,
};

fn endpoint(prefix: &str, window_ms: u64, max_requests: u32) -> EndpointRateLimitConfig {
    EndpointRateLimitConfig {
        path_prefix: prefix.to_string(),
        window_ms,
        max_requests,
    }
}

fn service() -> RateLimitService {
    RateLimitService::new(RateLimitConfig {
        window_ms: 60_000,
        max_requests: 100,
        scope: RateLimitScope::Ip,
        endpoint_limits: vec![
            endpoint("/payments", 1_000, 5),
            endpoint("/payments/qr", 2_000, 2),
            endpoint("/", 3_000, 50),
            endpoint("/payments", 4_000, 6),
        ],
    })
}

/// Counts a request, in Redis if it gives a count.
fn check(
    s: &mut RateLimitService,
    scope_key: &str,
    path: &str,
    scope: &RateLimitScope,
    redis: Option<RedisWindow>,
) -> RateLimitDecision {
    let counting = s.check_rate_limit(scope_key, path, scope);
    assert_eq!(counting.step, RedisStep::Increment);
    let counting = match redis {
        Some(w) => {
            let raised = counting.replied(RedisReply::Count(w.count));
            assert_eq!(raised.step, RedisStep::ReadTtl { count: w.count });
            raised.replied(match w.ttl_ms {
                Some(ttl) => RedisReply::Ttl(ttl),
                None => RedisReply::Failed,
            })
        }
        None => counting,
    };
    s.settle(&counting)
}

#[test]
fn scopes_have_names() {
    assert_eq!(scope_name(&RateLimitScope::Ip), "ip");
    assert_eq!(scope_name(&RateLimitScope::User), "user");
    assert_eq!(scope_name(&RateLimitScope::ApiKey), "api_key");
}

#[test]
fn longest_prefix_counts_and_the_last_of_equals() {
    let s = service();
    assert_eq!(s.endpoint_limit("/payments/qr/generate").unwrap().max_requests, 2);
    assert_eq!(s.endpoint_limit("/payments/12").unwrap().max_requests, 6);
    assert_eq!(s.endpoint_limit("/files").unwrap().max_requests, 50);
    assert!(s.endpoint_limit("files").is_none());
}

#[test]
fn buckets_are_named_by_scope_prefix_and_caller() {
    let s = service();
    let b = s.bucket("alice", "/payments/qr/x", &RateLimitScope::User);
    assert_eq!(b.key, "rate_limit:user:_payments_qr:alice");
    assert_eq!(b.max_requests, 2);
    assert_eq!(b.window_ms, 2_000);

    let b = s.bucket("10.0.0.1", "other", &RateLimitScope::Ip);
    assert_eq!(b.key, "rate_limit:ip:global:10.0.0.1");
    assert_eq!(b.max_requests, 100);
    assert_eq!(b.window_ms, 60_000);
}

#[test]
fn window_allows_the_first_requests() {
    let mut s = service();
    for n in 1..=5u32 {
        let d = s.check_local_at("k", 3, 1_000, 10_000 + n as u64);
        assert_eq!(d.allowed, n <= 3);
        assert_eq!(d.limit, 3);
        assert_eq!(d.remaining, 3u32.saturating_sub(n));
        assert_eq!(d.reset_after_seconds, 1);
    }
}

#[test]
fn window_starts_anew_after_its_end() {
    let mut s = service();
    assert!(s.check_local_at("k", 1, 1_000, 10_000).allowed);
    assert!(!s.check_local_at("k", 1, 1_000, 10_999).allowed);
    let d = s.check_local_at("k", 1, 1_000, 11_000);
    assert!(d.allowed);
    assert_eq!(d.remaining, 0);
    // The second window ends one second after its own first request.
    assert!(!s.check_local_at("k", 1, 1_000, 11_999).allowed);
}

#[test]
fn callers_are_counted_apart() {
    let mut s = service();
    assert!(s.check_local_at("a", 1, 1_000, 0).allowed);
    assert!(s.check_local_at("b", 1, 1_000, 0).allowed);
    assert!(!s.check_local_at("a", 1, 1_000, 1).allowed);
    assert!(!s.check_local_at("b", 1, 1_000, 1).allowed);
}

#[test]
fn seconds_are_rounded_up() {
    let mut s = service();
    assert_eq!(s.check_local_at("a", 1, 1_001, 0).reset_after_seconds, 2);
    assert_eq!(s.check_local_at("b", 1, 0, 0).reset_after_seconds, 0);
    assert_eq!(
        s.check_local_at("c", 1, u64::MAX, 0).reset_after_seconds,
        18_446_744_073_709_552
    );
}

#[test]
fn no_request_is_allowed_where_none_may_be() {
    let mut s = service();
    assert!(!s.check_local_at("a", 0, 1_000, 0).allowed);
}

#[test]
fn local_count_goes_by_the_clock() {
    let mut s = service();
    let d = s.check_local("k", 2, 3_600_000);
    assert!(d.allowed);
    assert_eq!(d.remaining, 1);
    let d = s.check_local("k", 2, 3_600_000);
    assert!(d.allowed);
    assert_eq!(d.remaining, 0);
    assert!(!s.check_local("k", 2, 3_600_000).allowed);
}

#[test]
fn requests_go_by_redis_where_it_answers() {
    let mut s = service();
    let window = RedisWindow {
        count: 3,
        ttl_ms: Some(1_500),
    };
    let d = check(&mut s, "alice", "/payments/qr", &RateLimitScope::User, Some(window));
    assert_eq!(
        d,
        RateLimitDecision {
            allowed: false,
            limit: 2,
            remaining: 0,
            reset_after_seconds: 2
        }
    );
    // Nothing was counted in the process meanwhile.
    let d = check(&mut s, "alice", "/payments/qr", &RateLimitScope::User, None);
    assert!(d.allowed);
    assert_eq!(d.remaining, 1);
    let d = check(&mut s, "alice", "/payments/qr", &RateLimitScope::User, None);
    assert_eq!(d.remaining, 0);
    let d = check(&mut s, "alice", "/payments/qr", &RateLimitScope::User, None);
    assert!(!d.allowed);
    // Another caller and another scope have counters of their own.
    let d = check(&mut s, "bob", "/payments/qr", &RateLimitScope::User, None);
    assert!(d.allowed);
    let d = check(&mut s, "alice", "/payments/qr", &RateLimitScope::ApiKey, None);
    assert!(d.allowed);
}

#[test]
fn redis_decides_by_count_and_time_left() {
    let w = |count, ttl_ms| RedisWindow { count, ttl_ms };
    let d = check_redis(w(1, Some(999)), 5, 60_000);
    assert_eq!(
        d,
        RateLimitDecision {
            allowed: true,
            limit: 5,
            remaining: 4,
            reset_after_seconds: 1
        }
    );
    // A key without an end has a negative time left.
    assert_eq!(check_redis(w(1, Some(-1)), 5, 60_000).reset_after_seconds, 0);
    // Where the time left is not known, it is the whole window.
    assert_eq!(check_redis(w(1, None), 5, 60_000).reset_after_seconds, 60);
    assert_eq!(check_redis(w(1, None), 5, u64::MAX).reset_after_seconds, 0);
    assert!(check_redis(w(5, Some(1)), 5, 60_000).allowed);
    assert!(!check_redis(w(6, Some(1)), 5, 60_000).allowed);
}

#[test]
fn redis_and_the_process_agree() {
    let mut s = service();
    s.check_local_at("k", 4, 5_000, 100);
    let local = s.check_local_at("k", 4, 5_000, 600);
    let window = RedisWindow {
        count: 2,
        ttl_ms: Some(4_500),
    };
    assert_eq!(local, check_redis(window, 4, 5_000));
}

#[test]
fn first_request_of_a_window_sets_its_end() {
    let one = next_redis_step(RedisStep::Increment, RedisReply::Count(1), 2_000);
    assert_eq!(
        one,
        RedisStep::Expire {
            count: 1,
            ttl_ms: 2_000
        }
    );
    for reply in [RedisReply::Done, RedisReply::Failed] {
        let two = next_redis_step(one, reply, 2_000);
        assert_eq!(two, RedisStep::ReadTtl { count: 1 });
    }
}

#[test]
fn later_requests_only_read_the_end() {
    let one = next_redis_step(RedisStep::Increment, RedisReply::Count(7), 2_000);
    assert_eq!(one, RedisStep::ReadTtl { count: 7 });
    let known = next_redis_step(one, RedisReply::Ttl(30), 2_000);
    assert_eq!(
        known,
        RedisStep::Counted(RedisWindow {
            count: 7,
            ttl_ms: Some(30)
        })
    );
    let unknown = next_redis_step(one, RedisReply::Failed, 2_000);
    assert_eq!(
        unknown,
        RedisStep::Counted(RedisWindow {
            count: 7,
            ttl_ms: None
        })
    );
}

#[test]
fn lost_redis_counts_nothing() {
    let lost = next_redis_step(RedisStep::Increment, RedisReply::Failed, 2_000);
    assert_eq!(lost, RedisStep::Lost);
    assert_eq!(next_redis_step(lost, RedisReply::Count(1), 2_000), RedisStep::Lost);
}

#[test]
fn callers_are_told_apart_by_the_scope() {
    let ip = || "10.0.0.1".to_string();
    let user = || Some("alice".to_string());
    let key = || Some("k-1".to_string());
    assert_eq!(rate_limit_key(&RateLimitScope::Ip, ip(), user(), key()), "10.0.0.1");
    assert_eq!(rate_limit_key(&RateLimitScope::User, ip(), user(), key()), "alice");
    assert_eq!(rate_limit_key(&RateLimitScope::User, ip(), None, key()), "10.0.0.1");
    assert_eq!(rate_limit_key(&RateLimitScope::ApiKey, ip(), user(), key()), "k-1");
    assert_eq!(rate_limit_key(&RateLimitScope::ApiKey, ip(), user(), None), "10.0.0.1");
}

#[test]
fn requests_are_counted_for_their_callers() {
    for (scope, name) in [
        (RateLimitScope::Ip, "ip:_payments:10.0.0.1"),
        (RateLimitScope::User, "user:_payments:alice"),
        (RateLimitScope::ApiKey, "api_key:_payments:k-1"),
    ] {
        let s = RateLimitService::new(RateLimitConfig {
            window_ms: 60_000,
            max_requests: 100,
            scope,
            endpoint_limits: vec![endpoint("/payments", 1_000, 5)],
        });
        let c = s.check_request(
            "10.0.0.1".to_string(),
            Some("alice".to_string()),
            Some("k-1".to_string()),
            "/payments/7",
        );
        assert_eq!(c.bucket.key, format!("rate_limit:{}", name));
        assert_eq!(c.bucket.max_requests, 5);
        assert_eq!(c.bucket.window_ms, 1_000);
        assert_eq!(c.step, RedisStep::Increment);
    }
}

#[test]
fn lost_redis_leaves_the_count_to_the_process() {
    let mut s = service();
    let start = |s: &RateLimitService| -> Counting {
        s.check_rate_limit("alice", "/payments/qr", &RateLimitScope::User)
    };
    for allowed in [true, true, false] {
        let lost = start(&s).replied(RedisReply::Failed);
        assert_eq!(lost.step, RedisStep::Lost);
        assert_eq!(s.settle(&lost).allowed, allowed);
    }
}

#[test]
fn headers_tell_of_the_limit() {
    let d = RateLimitDecision {
        allowed: true,
        limit: 100,
        remaining: 7,
        reset_after_seconds: 18_446_744_073_709_551_615,
    };
    let h = rate_limit(&d).ok().unwrap();
    assert_eq!(h.limit, "100");
    assert_eq!(h.remaining, "7");
    assert_eq!(h.reset, "18446744073709551615");
}

#[test]
fn too_many_requests_are_turned_down() {
    let d = RateLimitDecision {
        allowed: false,
        limit: 100,
        remaining: 0,
        reset_after_seconds: 1,
    };
    match rate_limit(&d) {
        Err(ApiError::RateLimit(text)) => assert_eq!(text, "Too many requests"),
        other => panic!("{:?}", other),
    }
}

#[test]
fn clock_readings_are_milliseconds() {
    assert_eq!(epoch_ms(None), 0);
    assert_eq!(epoch_ms(Some(1_700_000_000_123)), 1_700_000_000_123);
    assert_eq!(epoch_ms(Some(0x1_0000_0000_0000_0005)), 5);
    // Some time after this was written.
    assert!(now_ms() > 1_700_000_000_000);
}
