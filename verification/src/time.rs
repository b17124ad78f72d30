//! Local-time handling: timestamps are Unix seconds paired with a local UTC
//! offset, and the start of the current local calendar day is recomputed from
//! them on every query, so crossing midnight needs no reset step.

use vstd::prelude::*;

verus! {

/// A UTC offset is strictly within one day of UTC.
pub open spec fn valid_offset(off: int) -> bool {
    -86400 < off < 86400
}

/// Timestamps far enough from the ends of the `i64` range that day-boundary
/// arithmetic cannot overflow.
pub open spec fn valid_timestamp(now: int) -> bool {
    i64::MIN + 172800 <= now <= i64::MAX - 172800
}

/// The Unix second at which the local calendar day containing `now` begins,
/// for a clock running `off` seconds ahead of UTC.
pub open spec fn day_start(now: int, off: int) -> int {
    (now + off) / 86400 * 86400 - off
}

/// The day start never lies after the instant itself, and never more than one
/// day before it — every instant falls inside its own local day — and it is a
/// local midnight: a whole number of days in local time.
pub proof fn lemma_day_start_bounds(now: int, off: int)
    ensures
        day_start(now, off) <= now < day_start(now, off) + 86400,
        (day_start(now, off) + off) % 86400 == 0,
{
    broadcast use vstd::arithmetic::div_mod::lemma_fundamental_div_mod;

    assert(86400 * ((now + off) / 86400) == (now + off) - (now + off) % 86400);
    vstd::arithmetic::div_mod::lemma_mod_multiples_basic((now + off) / 86400, 86400);
}

/// Computes the start of the local calendar day containing `now`.
pub fn local_day_start(now: i64, off: i32) -> (r: i64)
    requires
        valid_offset(off as int),
        valid_timestamp(now as int),
    ensures
        r == day_start(now as int, off as int),
{
    let l: i64 = now + off as i64;
    proof {
        broadcast use vstd::arithmetic::div_mod::lemma_fundamental_div_mod;
        broadcast use vstd::arithmetic::div_mod::lemma_mod_bound;

        assert(86400 * ((l as int) / 86400) == (l as int) - (l as int) % 86400);
        assert(0 <= (l as int) % 86400 < 86400);
    }
    let q: i64 = match l.checked_div_euclid(86400) {
        Some(q) => q,
        None => 0,  // unreachable: the quotient of an i64 by 86400 always fits
    };
    proof {
        assert(q == (l as int) / 86400);
        assert((q as int) * 86400 == (l as int) - (l as int) % 86400);
        assert(l as int - 86400 < (q as int) * 86400 <= l as int);
    }
    q * 86400 - off as i64
}

/// Relies on chrono::Local::now, chrono::DateTime::timestamp and
/// chrono::FixedOffset::local_minus_utc: the current wall-clock time as Unix
/// seconds, together with the local UTC offset in seconds. A chrono offset is
/// strictly within one day of UTC, and chrono timestamps are bounded by its
/// minimum and maximum representable dates (about 262,000 years either side of
/// the common era), far inside the `i64` range.
#[verifier::external_body]
pub fn now_local() -> (r: (i64, i32))
    ensures
        valid_offset(r.1 as int),
        valid_timestamp(r.0 as int),
{
    let now = chrono::Local::now();
    (now.timestamp(), now.offset().local_minus_utc())
}

} // verus!
