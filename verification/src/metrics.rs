//! The figures derived from a recorded session: the time in bed, the time
//! asleep and the sleep efficiency.

use crate::session::SleepSession;
use crate::timestamp::minutes_between;
use vstd::arithmetic::div_mod::lemma_fundamental_div_mod;
use vstd::arithmetic::div_mod::lemma_fundamental_div_mod_converse;
use vstd::prelude::*;

verus! {

/// Why a figure cannot be given.
#[derive(Clone, Copy, Debug, PartialEq, Eq, Structural)]
pub enum MetricError {
    /// The night does not last one whole minute, or ends before it starts:
    /// there is no time in bed to divide by.
    NoTimeInBed,
}

/// The figures of one session.
#[derive(Clone, Copy, Debug, PartialEq, Eq)]
pub struct Summary {
    /// The minutes from the start of the night to its end.
    pub total_time_in_bed: i64,
    /// The minutes in bed that were spent asleep. Negative where the
    /// session claims more time awake than time in bed.
    pub total_sleep_minutes: i64,
    /// The share of the time in bed that was spent asleep, in tenths of a
    /// percent.
    pub sleep_efficiency: Result<i64, MetricError>,
}

/// The minutes from the start of the night to its end.
pub open spec fn time_in_bed(session: SleepSession) -> int {
    minutes_between(session.start, session.end)
}

/// The minutes in bed that were spent asleep: the time in bed less the time
/// it took to fall asleep, the time awake during the night and the time in
/// bed after waking. Nothing is clamped.
pub open spec fn sleep_minutes(session: SleepSession) -> int {
    time_in_bed(session) - session.minutes_to_fall_asleep - session.time_awake
        - session.time_in_bed_after_waking
}

/// The integer nearest to `numerator / denominator`, for a positive
/// denominator. A value halfway between two integers goes to the even one.
pub open spec fn nearest(numerator: int, denominator: int) -> int
    recommends
        denominator > 0,
{
    let floor = numerator / denominator;
    let rest = numerator % denominator;
    if 2 * rest < denominator {
        floor
    } else if 2 * rest > denominator {
        floor + 1
    } else if floor % 2 == 0 {
        floor
    } else {
        floor + 1
    }
}

/// The sleep efficiency in tenths of a percent: the time asleep divided by
/// the time in bed, times 100, to one decimal place.
pub open spec fn efficiency_tenths(session: SleepSession) -> int
    recommends
        time_in_bed(session) > 0,
{
    nearest(1000 * sleep_minutes(session), time_in_bed(session))
}

/// The sleep efficiency of a session, or the reason why it has none.
pub open spec fn efficiency(session: SleepSession) -> Result<i64, MetricError> {
    if time_in_bed(session) > 0 {
        Ok(efficiency_tenths(session) as i64)
    } else {
        Err(MetricError::NoTimeInBed)
    }
}

/// The figures of a session.
pub open spec fn summary(session: SleepSession) -> Summary {
    Summary {
        total_time_in_bed: time_in_bed(session) as i64,
        total_sleep_minutes: sleep_minutes(session) as i64,
        sleep_efficiency: efficiency(session),
    }
}

/// The minutes from the start of the night to its end.
pub fn total_time_in_bed(session: &SleepSession) -> (minutes: i64)
    requires
        session.start.wf(),
        session.end.wf(),
    ensures
        minutes == time_in_bed(*session),
{
    session.start.minutes_until(&session.end)
}

/// The minutes in bed that were spent asleep.
pub fn total_sleep_minutes(session: &SleepSession) -> (minutes: i64)
    requires
        session.start.wf(),
        session.end.wf(),
    ensures
        minutes == sleep_minutes(*session),
{
    let in_bed: i64 = session.start.minutes_until(&session.end);
    in_bed - session.minutes_to_fall_asleep as i64 - session.time_awake as i64
        - session.time_in_bed_after_waking as i64
}

/// The sleep efficiency in tenths of a percent. A session with no time in
/// bed has none: the division is not attempted.
pub fn sleep_efficiency(session: &SleepSession) -> (result: Result<i64, MetricError>)
    requires
        session.start.wf(),
        session.end.wf(),
    ensures
        result == efficiency(*session),
        result is Err <==> time_in_bed(*session) <= 0,
        result matches Ok(tenths) ==> tenths == efficiency_tenths(*session),
{
    let in_bed: i64 = total_time_in_bed(session);
    if in_bed <= 0 {
        return Err(MetricError::NoTimeInBed);
    }
    let asleep: i64 = total_sleep_minutes(session);
    proof {
        lemma_nearest_bounds(1000 * asleep, in_bed as int);
    }
    Ok(round_ratio(1000 * asleep, in_bed))
}

/// All three figures of a session.
pub fn summarize(session: &SleepSession) -> (figures: Summary)
    requires
        session.start.wf(),
        session.end.wf(),
    ensures
        figures == summary(*session),
{
    Summary {
        total_time_in_bed: total_time_in_bed(session),
        total_sleep_minutes: total_sleep_minutes(session),
        sleep_efficiency: sleep_efficiency(session),
    }
}

/// Divides and rounds to the nearest integer, halves to the even one.
fn round_ratio(numerator: i64, denominator: i64) -> (rounded: i64)
    requires
        denominator > 0,
        -1_000_000_000_000_000 < numerator < 1_000_000_000_000_000,
    ensures
        rounded == nearest(numerator as int, denominator as int),
{
    let d: u64 = denominator as u64;
    if numerator >= 0 {
        let n: u64 = numerator as u64;
        let floor: u64 = n / d;
        let rest: u64 = n % d;
        let up: bool = rest > d - rest || (rest == d - rest && floor % 2 == 1);
        proof {
            lemma_fundamental_div_mod(n as int, d as int);
            lemma_quotient_bound(n as int, d as int);
        }
        if up {
            (floor + 1) as i64
        } else {
            floor as i64
        }
    } else {
        let n: u64 = (-numerator) as u64;
        let floor: u64 = n / d;
        let rest: u64 = n % d;
        let up: bool = rest > d - rest || (rest == d - rest && floor % 2 == 1);
        proof {
            lemma_fundamental_div_mod(n as int, d as int);
            lemma_quotient_bound(n as int, d as int);
            lemma_negated_division(n as int, d as int);
        }
        if up {
            -((floor + 1) as i64)
        } else {
            -(floor as i64)
        }
    }
}

proof fn lemma_quotient_bound(n: int, d: int)
    requires
        0 <= n,
        0 < d,
    ensures
        0 <= n / d <= n,
        0 <= n % d < d,
{
    lemma_fundamental_div_mod(n, d);
    let q = n / d;
    let r = n % d;
    assert(0 <= r < d);
    assert(n == d * q + r);
    assert(q >= 0) by (nonlinear_arith)
        requires
            n == d * q + r,
            0 <= r < d,
            0 <= n,
            0 < d,
    ;
    assert(q <= n) by (nonlinear_arith)
        requires
            n == d * q + r,
            0 <= r,
            0 < d,
            0 <= q,
    ;
}

proof fn lemma_negated_division(n: int, d: int)
    requires
        0 < n,
        0 < d,
    ensures
        n % d == 0 ==> (-n) / d == -(n / d) && (-n) % d == 0,
        n % d != 0 ==> (-n) / d == -(n / d) - 1 && (-n) % d == d - n % d,
{
    lemma_fundamental_div_mod(n, d);
    let q = n / d;
    let r = n % d;
    assert(0 <= r < d);
    if r == 0 {
        assert(-n == (-q) * d + 0) by (nonlinear_arith)
            requires
                n == d * q + r,
                r == 0,
        ;
        lemma_fundamental_div_mod_converse(-n, d, -q, 0);
    } else {
        assert(-n == (-q - 1) * d + (d - r)) by (nonlinear_arith)
            requires
                n == d * q + r,
        ;
        lemma_fundamental_div_mod_converse(-n, d, -q - 1, d - r);
    }
}

/// Rounding moves a quotient by half a unit at most: `nearest` is within
/// half of `numerator / denominator`, and no further from zero than the
/// numerator is.
pub proof fn lemma_nearest_bounds(numerator: int, denominator: int)
    requires
        denominator > 0,
    ensures
        -denominator <= 2 * (nearest(numerator, denominator) * denominator - numerator)
            <= denominator,
        numerator >= 0 ==> 0 <= nearest(numerator, denominator) <= numerator,
        numerator <= 0 ==> numerator <= nearest(numerator, denominator) <= 0,
{
    lemma_fundamental_div_mod(numerator, denominator);
    let q = numerator / denominator;
    let r = numerator % denominator;
    assert(0 <= r < denominator);
    assert((q + 1) * denominator == q * denominator + denominator) by (nonlinear_arith);
    assert(q * denominator == denominator * q) by (nonlinear_arith);
    if numerator >= 0 {
        lemma_quotient_bound(numerator, denominator);
        if q + 1 > numerator {
            assert(q == numerator);
            assert(r == 0 || q == 0) by (nonlinear_arith)
                requires
                    numerator == denominator * q + r,
                    q == numerator,
                    0 <= r < denominator,
                    0 <= q,
            ;
            if r != 0 {
                assert(numerator == r);
                assert(numerator == 0);
            }
        }
    } else {
        assert(q < 0) by (nonlinear_arith)
            requires
                numerator == denominator * q + r,
                0 <= r,
                numerator < 0,
                0 < denominator,
        ;
        assert(q >= numerator) by (nonlinear_arith)
            requires
                numerator == denominator * q + r,
                0 <= r < denominator,
                q < 0,
                0 < denominator,
        ;
    }
}

/// The efficiency of a night with time in bed is the share of that time
/// spent asleep, times 100, to the nearest tenth of a percent: it differs
/// from the exact share by half a tenth at most. Where the time asleep lies
/// between nothing and the whole time in bed, the efficiency lies between 0
/// and 100 percent.
pub proof fn lemma_efficiency_is_rounded_share(session: SleepSession)
    requires
        time_in_bed(session) > 0,
    ensures
        efficiency(session) is Ok,
        -time_in_bed(session) <= 2 * (efficiency_tenths(session) * time_in_bed(session) - 1000
            * sleep_minutes(session)) <= time_in_bed(session),
        0 <= sleep_minutes(session) <= time_in_bed(session) ==> 0 <= efficiency_tenths(session)
            <= 1000,
        sleep_minutes(session) == time_in_bed(session) ==> efficiency_tenths(session) == 1000,
{
    let bed = time_in_bed(session);
    let asleep = sleep_minutes(session);
    lemma_nearest_bounds(1000 * asleep, bed);
    let tenths = nearest(1000 * asleep, bed);
    if 0 <= asleep <= bed {
        if tenths > 1000 {
            assert(tenths * bed >= 1001 * bed) by (nonlinear_arith)
                requires
                    tenths >= 1001,
                    bed > 0,
            ;
        }
    }
    if asleep == bed {
        if tenths < 1000 {
            assert(tenths * bed <= 999 * bed) by (nonlinear_arith)
                requires
                    tenths <= 999,
                    bed > 0,
            ;
        }
    }
}

} // verus!
