//! The local wall clock, and the day arithmetic of the shop's rotation.
//!
//! Local times are counted in seconds from 1970-01-01 00:00:00 on the local
//! wall clock, so that every local midnight is a multiple of [`DAY`].

use vstd::prelude::*;

verus! {

/// The seconds of a day.
pub const DAY: i64 = 86_400;

/// Reads the local wall clock as it will stand `delay` seconds from now.
///
/// Trusted: the body adds a `chrono::Duration` of `delay` seconds to
/// `chrono::Local::now()`, takes the local date and time of that moment with
/// `naive_local` and counts its seconds with `and_utc().timestamp()`. The
/// result depends on the clock and the time zone of the machine, so nothing
/// is claimed of it.
#[verifier::external_body]
pub(crate) fn local_timestamp_after(delay: u32) -> (seconds: i64) {
    (chrono::Local::now() + chrono::Duration::seconds(i64::from(delay)))
        .naive_local()
        .and_utc()
        .timestamp()
}

/// The midnight that starts the day of the local time `at`. A time within
/// the first day that an `i64` can count has no such midnight in range and
/// gives `i64::MIN`.
pub open spec fn spec_day_start(at: int) -> int {
    if at < i64::MIN + DAY {
        i64::MIN as int
    } else {
        at - at % (DAY as int)
    }
}

/// The midnight that starts the day of the local time `at`.
pub fn day_start(at: i64) -> (midnight: i64)
    ensures
        midnight == spec_day_start(at as int),
{
    if at < i64::MIN + DAY {
        i64::MIN
    } else if at >= 0 {
        at - at % DAY
    } else {
        // `at` is negative: count back from the midnight that follows it.
        let back = (-(at + 1)) % DAY;
        assert(at as int % (DAY as int) == DAY - 1 - back) by {
            let ahead = -(at + 1);
            assert(ahead == (ahead / 86400) * 86400 + back) by (nonlinear_arith)
                requires
                    ahead >= 0,
                    back == ahead % 86400,
            ;
            let days = -(ahead / 86400) - 1;
            assert(at == days * 86400 + (86400 - 1 - back)) by (nonlinear_arith)
                requires
                    ahead == (ahead / 86400) * 86400 + back,
                    at == -ahead - 1,
                    days == -(ahead / 86400) - 1,
            ;
            vstd::arithmetic::div_mod::lemma_fundamental_div_mod_converse(
                at as int,
                86400,
                days,
                86400 - 1 - back,
            );
        }
        at - (DAY - 1 - back)
    }
}

/// The next local midnight: the start of the day that the local wall clock
/// shows one day from now.
pub fn next_midnight() -> (midnight: i64)
    ensures
        midnight == i64::MIN || midnight as int % (DAY as int) == 0,
{
    let tomorrow = local_timestamp_after(86_400);
    let midnight = day_start(tomorrow);
    proof {
        if midnight != i64::MIN {
            lemma_day_start(tomorrow as int);
        }
    }
    midnight
}

/// A day's midnight is a multiple of [`DAY`], is not after any time of the
/// day, and is less than a day before it.
pub proof fn lemma_day_start(at: int)
    requires
        i64::MIN + DAY <= at,
    ensures
        spec_day_start(at) % (DAY as int) == 0,
        spec_day_start(at) <= at < spec_day_start(at) + DAY,
{
    let rest = at % 86400;
    vstd::arithmetic::div_mod::lemma_fundamental_div_mod(at, 86400);
    vstd::arithmetic::div_mod::lemma_mod_multiples_basic(at / 86400, 86400);
    assert((86400 * (at / 86400)) % 86400 == 0) by {
        assert(86400 * (at / 86400) == (at / 86400) * 86400) by (nonlinear_arith);
    }
}

} // verus!
