//! The wall clock.

use vstd::prelude::*;

verus! {

/// `SystemTime::elapsed`, asked of the Unix epoch: the time from there to now as the
/// system clock tells it, here in whole milliseconds; none if the clock stands before
/// the epoch. The answer depends on the moment of the call, so nothing is claimed of it.
#[verifier::external_body]
fn millis_since_epoch() -> (elapsed: Option<u128>)
{
    std::time::UNIX_EPOCH.elapsed().ok().map(|d| d.as_millis())
}

/// The number of milliseconds that a clock reading stands for: its low 64 bits, and
/// zero where the clock stands before the epoch.
pub open spec fn epoch_reading(elapsed: Option<u128>) -> int {
    match elapsed {
        Some(m) => m as int % 0x1_0000_0000_0000_0000,
        None => 0,
    }
}

/// The number of milliseconds that a clock reading stands for.
pub fn epoch_ms(elapsed: Option<u128>) -> (ms: u64)
    ensures
        ms == epoch_reading(elapsed),
{
    match elapsed {
        Some(m) => {
            assert((m as u64) == m % 0x1_0000_0000_0000_0000u128) by (bit_vector);
            #[verifier::truncate]
            (m as u64)
        },
        None => 0,
    }
}

/// The system clock can give this reading.
pub closed spec fn clock_reads(elapsed: Option<u128>) -> bool {
    call_ensures(millis_since_epoch, (), elapsed)
}

/// A reading is what the clock gave, and nothing else is.
proof fn law_clock_reads(elapsed: Option<u128>)
    ensures
        clock_reads(elapsed) <==> call_ensures(millis_since_epoch, (), elapsed),
{
}

/// The system clock can tell this number of milliseconds since the Unix epoch.
pub open spec fn clock_tells(ms: u64) -> bool {
    exists|elapsed: Option<u128>| #[trigger] clock_reads(elapsed) && ms == epoch_reading(elapsed)
}

/// Milliseconds since the Unix epoch, now, as the system clock tells it.
pub fn now_ms() -> (ms: u64)
    ensures
        clock_tells(ms),
{
    let elapsed = millis_since_epoch();
    assert(clock_reads(elapsed));
    epoch_ms(elapsed)
}

} // verus!
