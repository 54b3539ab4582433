use vstd::prelude::*;

use crate::types::TimeUnit;

verus! {

/// Seconds in one day.
pub const SECONDS_PER_DAY: i64 = 86400;

/// Milliseconds in one second.
pub const MILLIS_PER_SECOND: i64 = 1000;

/// Ticks of `unit` in one second.
pub open spec fn ticks_per_second(unit: TimeUnit) -> int {
    match unit {
        TimeUnit::Second => 1,
        TimeUnit::Millisecond => 1_000,
        TimeUnit::Microsecond => 1_000_000,
        TimeUnit::Nanosecond => 1_000_000_000,
    }
}

/// `x / d` rounded toward negative infinity (the earlier instant).
pub fn floor_div(x: i64, d: i64) -> (r: i64)
    requires
        d > 0,
    ensures
        r == x as int / d as int,
{
    if x >= 0 {
        x / d
    } else {
        let y: i64 = -(x + 1);
        let q: i64 = y / d;
        proof {
            let xi = x as int;
            let di = d as int;
            let qi = q as int;
            let yi = y as int;
            assert(yi == qi * di + yi % di) by (nonlinear_arith)
                requires di > 0, qi == yi / di, yi >= 0;
            assert(0 <= yi % di < di) by (nonlinear_arith)
                requires di > 0, yi >= 0;
            assert(xi == (-qi - 1) * di + (di - 1 - yi % di)) by (nonlinear_arith)
                requires xi == -yi - 1, yi == qi * di + yi % di;
            vstd::arithmetic::div_mod::lemma_fundamental_div_mod_converse(
                xi, di, -qi - 1, di - 1 - yi % di);
        }
        -q - 1
    }
}

/// Seconds at midnight UTC of `day` days after the epoch.
pub fn date32_seconds(day: i32) -> (r: i64)
    ensures
        r == day as int * 86400,
{
    day as i64 * SECONDS_PER_DAY
}

/// Whole seconds of a date held as milliseconds since the epoch.
pub fn date64_seconds(millis: i64) -> (r: i64)
    ensures
        r == millis as int / 1000,
{
    floor_div(millis, MILLIS_PER_SECOND)
}

/// Whole seconds of a timestamp of `unit` ticks, truncated toward the earlier second.
pub fn timestamp_seconds(unit: TimeUnit, ticks: i64) -> (r: i64)
    ensures
        r == ticks as int / ticks_per_second(unit),
{
    match unit {
        TimeUnit::Second => ticks,
        TimeUnit::Millisecond => floor_div(ticks, 1_000),
        TimeUnit::Microsecond => floor_div(ticks, 1_000_000),
        TimeUnit::Nanosecond => floor_div(ticks, 1_000_000_000),
    }
}

} // verus!
