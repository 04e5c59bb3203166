//! Wall-clock-aligned periodic schedule computation.
//!
//! Given a repeat period (a count of days, hours, minutes or seconds) and a
//! sub-second fine-tuning offset, [`set_interval`] computes when the first
//! tick of a periodic poll should fire: the current time is rounded to the
//! nearest boundary of an alignment granularity picked from a fixed ladder
//! (1 min, 5 min, ..., 12 h, 1 day), the offset is applied, and a candidate
//! that would fire less than half a second from now is pushed one whole
//! granularity bucket into the future.  The caller drives a timer from the
//! returned plan; everything here is pure arithmetic.

use vstd::prelude::*;

use crate::config::ConfError;

verus! {

/// Seconds in one period unit: 'd' days, 'h' hours, 'm' minutes, 's' seconds.
/// Any other unit is invalid.
pub open spec fn spec_unit_seconds(unit: char) -> Option<int> {
    if unit == 'd' {
        Some(86400int)
    } else if unit == 'h' {
        Some(3600int)
    } else if unit == 'm' {
        Some(60int)
    } else if unit == 's' {
        Some(1int)
    } else {
        None
    }
}

pub open spec fn valid_interval_unit(unit: char) -> bool {
    spec_unit_seconds(unit) is Some
}

/// The alignment granularity, in seconds, for a total period of `total_s`
/// seconds: the first bucket of the ladder that the period fits into, and one
/// day for anything beyond twelve hours.
pub open spec fn spec_granularity(total_s: int) -> int {
    if total_s <= 60 {
        60int
    } else if total_s <= 300 {
        300int
    } else if total_s <= 600 {
        600int
    } else if total_s <= 900 {
        900int
    } else if total_s <= 1800 {
        1800int
    } else if total_s <= 3600 {
        3600int
    } else if total_s <= 7200 {
        7200int
    } else if total_s <= 10800 {
        10800int
    } else if total_s <= 14400 {
        14400int
    } else if total_s <= 21600 {
        21600int
    } else if total_s <= 43200 {
        43200int
    } else {
        86400int
    }
}

/// Membership in the alignment ladder.
pub open spec fn in_ladder(b: int) -> bool {
    ||| b == 60
    ||| b == 300
    ||| b == 600
    ||| b == 900
    ||| b == 1800
    ||| b == 3600
    ||| b == 7200
    ||| b == 10800
    ||| b == 14400
    ||| b == 21600
    ||| b == 43200
    ||| b == 86400
}

/// Law: the chosen alignment granularity is a ladder bucket, never finer than
/// one minute; for periods up to the last twelve-hour bucket it is the
/// smallest bucket at least as large as the period, and for longer periods it
/// is one day.
pub proof fn lemma_granularity_smallest_bucket(total_s: int)
    requires
        1 <= total_s,
    ensures
        in_ladder(spec_granularity(total_s)),
        spec_granularity(total_s) >= 60,
        total_s <= 43200 ==> total_s <= spec_granularity(total_s),
        total_s <= 43200 ==> forall|b: int|
            in_ladder(b) && total_s <= b ==> spec_granularity(total_s) <= b,
        total_s > 43200 ==> spec_granularity(total_s) == 86400,
{
}

/// `t_ms` rounded to the nearest multiple of `g_ms`, halves rounding up.
pub open spec fn spec_round_nearest(t_ms: int, g_ms: int) -> int
    recommends
        t_ms >= 0,
        g_ms > 0,
{
    let rem = t_ms % g_ms;
    if 2 * rem >= g_ms {
        t_ms - rem + g_ms
    } else {
        t_ms - rem
    }
}

/// Delay from `now_ms` until the first fire: round now to the nearest
/// granularity boundary, shift by the offset, and push a candidate that is
/// less than 500 ms away one whole bucket further out.
pub open spec fn spec_first_delay_ms(now_ms: int, g_s: int, offset_ms: int) -> int {
    let delay = spec_round_nearest(now_ms, g_s * 1000) + offset_ms - now_ms;
    if delay < 500 {
        delay + g_s * 1000
    } else {
        delay
    }
}

/// Law: with a granularity of at least one minute and a sub-second offset,
/// the first fire is always at least 500 ms in the future.
pub proof fn lemma_first_fire_at_least_500ms(now_ms: int, g_s: int, offset_ms: int)
    requires
        0 <= now_ms,
        60 <= g_s,
        -1000 < offset_ms < 1000,
    ensures
        spec_first_delay_ms(now_ms, g_s, offset_ms) >= 500,
{
    let g_ms = g_s * 1000;
    assert(g_ms >= 60000) by (nonlinear_arith)
        requires
            g_s >= 60,
            g_ms == g_s * 1000,
    ;
    let rem = now_ms % g_ms;
    assert(0 <= rem < g_ms) by (nonlinear_arith)
        requires
            now_ms >= 0,
            g_ms > 0,
            rem == now_ms % g_ms,
    ;
}

/// A computed periodic schedule: the delay until the first tick and the
/// repeat period for every tick after it.
#[derive(Debug)]
pub struct IntervalPlan {
    /// Milliseconds from now until the first tick; always at least 500.
    pub first_delay_ms: i64,
    /// Seconds between consecutive ticks.
    pub period_s: u64,
}

/// The alignment granularity, in seconds, for a period of `total_s` seconds.
pub fn granularity_secs(total_s: u64) -> (g: u64)
    ensures
        g as int == spec_granularity(total_s as int),
{
    if total_s <= 60 {
        60
    } else if total_s <= 300 {
        300
    } else if total_s <= 600 {
        600
    } else if total_s <= 900 {
        900
    } else if total_s <= 1800 {
        1800
    } else if total_s <= 3600 {
        3600
    } else if total_s <= 7200 {
        7200
    } else if total_s <= 10800 {
        10800
    } else if total_s <= 14400 {
        14400
    } else if total_s <= 21600 {
        21600
    } else if total_s <= 43200 {
        43200
    } else {
        86400
    }
}

/// Computes the periodic schedule for a poll cycle: `repeat_interval` many
/// `units` ('d', 'h', 'm' or 's') between ticks, with the first tick aligned
/// to a wall-clock boundary and shifted by `offset_ms`.  `now_ms` is the
/// current time in milliseconds since the epoch.  An invalid unit is a fatal
/// configuration error reported as `Err`.
pub fn set_interval(repeat_interval: u64, units: char, offset_ms: i64, now_ms: i64) -> (r: Result<
    IntervalPlan,
    ConfError,
>)
    requires
        1 <= repeat_interval,
        repeat_interval <= u64::MAX as int / 86400,
        0 <= now_ms <= 4_000_000_000_000_000,
        -1000 < offset_ms < 1000,
    ensures
        r is Ok <==> valid_interval_unit(units),
        r is Err ==> r == Result::<IntervalPlan, ConfError>::Err(ConfError::InvalidIntervalUnit),
        r is Ok ==> r->Ok_0.period_s as int == repeat_interval * spec_unit_seconds(units)->0,
        r is Ok ==> r->Ok_0.first_delay_ms as int == spec_first_delay_ms(
            now_ms as int,
            spec_granularity(r->Ok_0.period_s as int),
            offset_ms as int,
        ),
        r is Ok ==> r->Ok_0.first_delay_ms >= 500,
{
    proof {
        assert(repeat_interval * 86400 <= u64::MAX) by (nonlinear_arith)
            requires
                repeat_interval <= u64::MAX as int / 86400,
        ;
        assert(repeat_interval * 3600 <= repeat_interval * 86400) by (nonlinear_arith)
            requires
                repeat_interval >= 1,
        ;
        assert(repeat_interval * 60 <= repeat_interval * 86400) by (nonlinear_arith)
            requires
                repeat_interval >= 1,
        ;
    }
    let period_s: u64 = match units {
        'd' => repeat_interval * 86400,
        'h' => repeat_interval * 3600,
        'm' => repeat_interval * 60,
        's' => repeat_interval,
        _ => { return Err(ConfError::InvalidIntervalUnit) },
    };
    let g_s: u64 = granularity_secs(period_s);
    proof {
        lemma_granularity_smallest_bucket(period_s as int);
        lemma_first_fire_at_least_500ms(now_ms as int, g_s as int, offset_ms as int);
    }
    let g_ms: i64 = (g_s as i64) * 1000;
    let rem: i64 = now_ms % g_ms;
    proof {
        assert(0 <= rem < g_ms) by (nonlinear_arith)
            requires
                now_ms >= 0,
                g_ms > 0,
                rem == now_ms % g_ms,
        ;
    }
    let rounded: i64 = if 2 * rem >= g_ms {
        now_ms - rem + g_ms
    } else {
        now_ms - rem
    };
    let delay: i64 = rounded + offset_ms - now_ms;
    let first_delay_ms: i64 = if delay < 500 {
        delay + g_ms
    } else {
        delay
    };
    Ok(IntervalPlan { first_delay_ms, period_s })
}

} // verus!
