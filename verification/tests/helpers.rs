//! The cache, texts, numbers and storage.

use zaps::backend::api_error::ApiError;
use zaps::backend::cache::{CacheRead, CacheService, CacheWrite};
use zaps::backend::numbers::{saturating_add, to_signed, to_unsigned};
use zaps::backend::text::{
    contains, decimal_i64, decimal_u64, replace_char, same_text, starts_with,
};
use zaps::contracts::storage::Storage;

#[test]
fn cache_reads() {
    let c = CacheService::new(300);
    let (event, r) = c.get_json(CacheRead::Found("{}".to_string()));
    assert_eq!(event, "hit");
    assert_eq!(r.ok().unwrap(), Some("{}".to_string()));
    let (event, r) = c.get_json(CacheRead::Missing);
    assert_eq!(event, "miss");
    assert_eq!(r.ok().unwrap(), None);
    let (event, r) = c.get_json(CacheRead::Unavailable);
    assert_eq!(event, "unavailable");
    assert_eq!(r.ok().unwrap(), None);
    let (event, r) = c.get_json(CacheRead::Failed);
    assert_eq!(event, "error");
    assert!(matches!(r, Err(ApiError::InternalServerError)));
}

#[test]
fn cache_writes() {
    let c = CacheService::new(300);
    assert_eq!(c.ttl(None), 300);
    assert_eq!(c.ttl(Some(5)), 5);
    for (write, name, ok) in [
        (CacheWrite::Done, "ok", true),
        (CacheWrite::Unavailable, "unavailable", true),
        (CacheWrite::Failed, "error", false),
    ] {
        let (event, r) = c.set_json(write);
        assert_eq!(event, name);
        assert_eq!(r.is_ok(), ok);
        let (event, r) = c.invalidate(write);
        assert_eq!(event, name);
        assert_eq!(r.is_ok(), ok);
    }
}

#[test]
fn texts() {
    assert!(starts_with("/payments/1", "/payments"));
    assert!(starts_with("abc", ""));
    assert!(!starts_with("ab", "abc"));
    assert!(!starts_with("abc", "b"));
    assert!(contains("https://api.example.com", "example.com"));
    assert!(contains("abc", ""));
    assert!(contains("abc", "c"));
    assert!(!contains("abc", "ca"));
    assert!(same_text("naïve", "naïve"));
    assert!(!same_text("naïve", "naive"));
    assert!(!same_text("ab", "abc"));
    assert_eq!(replace_char("/a//b", '/', '_'), "_a__b");
    assert_eq!(decimal_u64(0), "0");
    assert_eq!(decimal_u64(907), "907");
    assert_eq!(decimal_i64(-907), "-907");
}

#[test]
fn numbers_as_machines_read_them() {
    assert_eq!(to_signed(5), 5);
    assert_eq!(to_signed(u64::MAX), -1);
    assert_eq!(to_unsigned(-1), u64::MAX);
    assert_eq!(to_unsigned(7), 7);
    assert_eq!(saturating_add(i64::MAX, 1), i64::MAX);
    assert_eq!(saturating_add(i64::MIN, -1), i64::MIN);
    assert_eq!(saturating_add(-3, 5), 2);
}

#[test]
fn storage_keeps_the_last_value() {
    let mut s: Storage<u32, i128> = Storage::new();
    assert!(!s.has(1));
    s.set(1, 10);
    s.set(2, 20);
    s.set(1, 11);
    assert_eq!(s.get(1), Some(&11));
    assert_eq!(s.get(2), Some(&20));
    s.remove(1);
    assert!(!s.has(1));
    assert_eq!(s.get(1), None);
    assert_eq!(s.get(2), Some(&20));
}
