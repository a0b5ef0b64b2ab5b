//! Texts, numbers, the clock and the cache.

use crate::backend::api_error::ApiError;
use crate::backend::cache::{CacheRead, CacheService, CacheWrite};
use crate::backend::clock::{clock_reads, epoch_ms, now_ms};
use crate::backend::numbers::{saturating_add, to_signed, to_unsigned};
use crate::backend::text::{
    contains, decimal_i64, decimal_u64, occurs_at, replace_char, same_text, starts_with,
};
use vstd::prelude::*;

verus! {

/// A text begins with another, or holds it, or is it, character by character.
pub proof fn law_text_tests(
    text: &str,
    part: &str,
    begins: bool,
    holds: bool,
    same: bool,
)
    requires
        call_ensures(starts_with, (text, part), begins),
        call_ensures(contains, (text, part), holds),
        call_ensures(same_text, (text, part), same),
    ensures
        begins <==> part@.len() <= text@.len() && forall|i: int|
            0 <= i < part@.len() ==> #[trigger] text@[i] == part@[i],
        holds <==> exists|at: int|
            {
                &&& 0 <= at <= text@.len() - part@.len()
                &&& #[trigger] text@.subrange(at, at + part@.len()) == part@
            },
        same <==> text@ == part@,
{
    if part@.len() <= text@.len() {
        let head = text@.subrange(0, part@.len() as int);
        if begins {
            assert forall|i: int| 0 <= i < part@.len() implies #[trigger] text@[i] == part@[i] by {
                assert(head[i] == text@[i]);
            }
        } else if forall|i: int| 0 <= i < part@.len() ==> #[trigger] text@[i] == part@[i] {
            assert(head =~= part@);
        }
    }
    if holds {
        let at = choose|at: int| occurs_at(text@, part@, at);
        assert(text@.subrange(at, at + part@.len()) == part@);
    }
    assert forall|at: int|
        0 <= at <= text@.len() - part@.len() && #[trigger] text@.subrange(at, at + part@.len())
            == part@ implies holds by {
        assert(occurs_at(text@, part@, at));
    }
}

/// Replacing a character keeps the length and all other characters.
pub proof fn law_replace(text: &str, from: char, to: char, r: String)
    requires
        call_ensures(replace_char, (text, from, to), r),
    ensures
        r@.len() == text@.len(),
        forall|i: int|
            0 <= i < text@.len() ==> #[trigger] r@[i] == (if text@[i] == from {
                to
            } else {
                text@[i]
            }),
{
}

/// A number of one digit is that digit, and a longer one is the number without its last
/// digit, followed by it. A negative number is the minus sign and the number without it.
pub proof fn law_decimal(
    n: u64,
    r: String,
    tenth: String,
    negative: i64,
    size: u64,
    r_negative: String,
    r_size: String,
)
    requires
        call_ensures(decimal_u64, (n,), r),
        call_ensures(decimal_u64, (n / 10,), tenth),
        negative < 0,
        size == -(negative as int),
        call_ensures(decimal_i64, (negative,), r_negative),
        call_ensures(decimal_u64, (size,), r_size),
    ensures
        n < 10 ==> r@.len() == 1 && r@[0] as int == 48 + n,
        n >= 10 ==> r@.len() == tenth@.len() + 1 && r@.drop_last() == tenth@ && r@.last() as int
            == 48 + n % 10,
        r_negative@ == seq!['-'] + r_size@,
{
}

/// A signed number that is not negative is written like the unsigned one.
pub proof fn law_decimal_of_positive(n: i64, u: u64, r: String, r_u: String)
    requires
        n >= 0,
        u == n,
        call_ensures(decimal_i64, (n,), r),
        call_ensures(decimal_u64, (u,), r_u),
    ensures
        r@ == r_u@,
{
}

/// Reading a number as signed or unsigned keeps it where both can hold it and shifts it by
/// two to the sixty-fourth where not; reading it back gives it again. A sum that does not
/// fit is the nearest number that does.
pub proof fn law_readings(
    n: u64,
    signed: i64,
    back: u64,
    m: i64,
    unsigned: u64,
    a: i64,
    b: i64,
    sum: i64,
)
    requires
        call_ensures(to_signed, (n,), signed),
        call_ensures(to_unsigned, (signed,), back),
        call_ensures(to_unsigned, (m,), unsigned),
        call_ensures(saturating_add, (a, b), sum),
    ensures
        n <= 0x7fff_ffff_ffff_ffff ==> signed == n,
        n > 0x7fff_ffff_ffff_ffff ==> signed == n - 0x1_0000_0000_0000_0000,
        back == n,
        m >= 0 ==> unsigned == m,
        m < 0 ==> unsigned == m + 0x1_0000_0000_0000_0000,
        a + b > 0x7fff_ffff_ffff_ffff ==> sum == 0x7fff_ffff_ffff_ffff,
        a + b < -0x8000_0000_0000_0000 ==> sum == -0x8000_0000_0000_0000,
        -0x8000_0000_0000_0000 <= a + b <= 0x7fff_ffff_ffff_ffff ==> sum == a + b,
{
}

/// A clock reading is taken as it is where 64 bits hold it, by its low 64 bits where not,
/// and as zero where there is none.
pub proof fn law_clock(elapsed: Option<u128>, ms: u64)
    requires
        call_ensures(epoch_ms, (elapsed,), ms),
    ensures
        elapsed is None ==> ms == 0,
        elapsed matches Some(m) ==> (m <= 0xffff_ffff_ffff_ffff ==> ms == m),
        elapsed matches Some(m) ==> (m - ms) % 0x1_0000_0000_0000_0000 == 0,
{
}

/// The time now is a reading of the system clock: as it is where 64 bits hold it, by its low
/// 64 bits where not, and zero where there is none.
pub proof fn law_now(ms: u64)
    requires
        call_ensures(now_ms, (), ms),
    ensures
        exists|elapsed: Option<u128>| #[trigger]
            clock_reads(elapsed) && match elapsed {
                Some(m) => (m <= 0xffff_ffff_ffff_ffff ==> ms == m) && (m - ms)
                    % 0x1_0000_0000_0000_0000 == 0,
                None => ms == 0,
            },
{
}

/// A store that is not there is no error to the caller, a store that fails is; an entry is
/// given out as it was found; and each outcome is counted under its own name.
pub proof fn law_cache(
    s: &CacheService,
    read: CacheRead,
    got: (&'static str, Result<Option<String>, ApiError>),
    write: CacheWrite,
    put: (&'static str, Result<(), ApiError>),
    dropped: (&'static str, Result<(), ApiError>),
    asked: Option<u64>,
    ttl: u64,
    default_ttl: u64,
    new: CacheService,
)
    requires
        call_ensures(CacheService::new, (default_ttl,), new),
        call_ensures(CacheService::get_json, (s, read), got),
        call_ensures(CacheService::set_json, (s, write), put),
        call_ensures(CacheService::invalidate, (s, write), dropped),
        call_ensures(CacheService::ttl, (s, asked), ttl),
    ensures
        read matches CacheRead::Found(text) ==> (got.0)@ == "hit"@ && got.1 == Ok::<
            Option<String>,
            ApiError,
        >(Some(text)),
        read is Missing ==> (got.0)@ == "miss"@ && got.1 == Ok::<Option<String>, ApiError>(None),
        read is Unavailable ==> (got.0)@ == "unavailable"@ && got.1 == Ok::<
            Option<String>,
            ApiError,
        >(None),
        read is Failed ==> (got.0)@ == "error"@ && got.1 == Err::<Option<String>, ApiError>(
            ApiError::InternalServerError,
        ),
        write is Done ==> (put.0)@ == "ok"@ && put.1 is Ok,
        write is Unavailable ==> (put.0)@ == "unavailable"@ && put.1 is Ok,
        write is Failed ==> (put.0)@ == "error"@ && put.1 == Err::<(), ApiError>(
            ApiError::InternalServerError,
        ),
        (dropped.0)@ == (put.0)@,
        dropped.1 == put.1,
        asked matches Some(t) ==> ttl == t,
        asked is None ==> ttl == s.default_ttl_seconds,
        new.default_ttl_seconds == default_ttl,
{
}

} // verus!
