use vstd::prelude::*;

verus! {

/// The largest delay, in milliseconds, that a host timer accepts.
pub const MAX_TIMER_MILLIS: i32 = 2147483647;

/// A duration of `secs` seconds and `nanos` nanoseconds, in nanoseconds.
pub open spec fn total_nanos(secs: u64, nanos: u32) -> int {
    secs * 1_000_000_000 + nanos
}

/// A duration of `secs` seconds and `nanos` nanoseconds in whole
/// milliseconds, rounded up.
pub open spec fn millis_rounded_up(secs: u64, nanos: u32) -> int {
    secs * 1000 + (nanos + 999_999) / 1_000_000
}

/// The next host timer to set for a sleep of `secs` seconds and `nanos`
/// nanoseconds, and what is left of the sleep once it fires, as
/// `(delay in milliseconds, seconds left, nanoseconds left)`.
///
/// The delay is the duration rounded up to a whole millisecond, capped at
/// the largest delay a timer accepts; whatever the cap cuts off is left
/// over, so that timers set one after another until nothing is left cover
/// the whole duration, and what is left always shrinks.
pub fn next_timer(secs: u64, nanos: u32) -> (r: (i32, u64, u32))
    requires
        nanos < 1_000_000_000,
    ensures
        r.0 >= 0,
        r.2 < 1_000_000_000,
        r.0 as int == if millis_rounded_up(secs, nanos) > MAX_TIMER_MILLIS as int {
            MAX_TIMER_MILLIS as int
        } else {
            millis_rounded_up(secs, nanos)
        },
        r.0 as int * 1_000_000 + total_nanos(r.1, r.2) >= total_nanos(secs, nanos),
        total_nanos(secs, nanos) > 0 ==> total_nanos(r.1, r.2) < total_nanos(secs, nanos),
        (r.1 == 0 && r.2 == 0) <==> millis_rounded_up(secs, nanos) <= MAX_TIMER_MILLIS as int,
        millis_rounded_up(secs, nanos) > MAX_TIMER_MILLIS as int ==> total_nanos(r.1, r.2)
            == total_nanos(secs, nanos) - MAX_TIMER_MILLIS as int * 1_000_000,
{
    let extra: u32 = (nanos + 999_999) / 1_000_000;
    proof {
        assert(extra as int * 1_000_000 >= nanos) by (nonlinear_arith)
            requires
                extra as int == (nanos + 999_999) / 1_000_000,
        ;
        assert(extra as int * 1_000_000 < nanos + 1_000_000) by (nonlinear_arith)
            requires
                extra as int == (nanos + 999_999) / 1_000_000,
        ;
    }
    if secs <= 2_147_483 {
        let total: u64 = secs * 1000 + extra as u64;
        if total <= MAX_TIMER_MILLIS as u64 {
            return (total as i32, 0, 0);
        }
    }
    // The duration is longer than the cap: one full timer, then the rest.
    if nanos >= 647_000_000 {
        (MAX_TIMER_MILLIS, secs - 2_147_483, nanos - 647_000_000)
    } else {
        (MAX_TIMER_MILLIS, secs - 2_147_484, nanos + 353_000_000)
    }
}

} // verus!
