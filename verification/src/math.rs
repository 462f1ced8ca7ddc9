//! Time bucketing: conversions between wall-clock Unix timestamps and
//! `(era, period)` coordinates.
//!
//! An era is a span of 256 fixed-length periods of 3 days each; era 0 begins
//! at [`COMMON_ERA_UNIX_TS`]. Every conversion is checked: overflow or an
//! out-of-range narrowing yields `None`, never a silently wrapped coordinate.

use vstd::prelude::*;
use vstd::arithmetic::div_mod::{
    lemma_fundamental_div_mod, lemma_fundamental_div_mod_converse_div,
    lemma_mod_division_less_than_divisor, lemma_div_is_ordered,
};
use vstd::arithmetic::mul::{lemma_mul_inequality, lemma_mul_strict_inequality};

verus! {

broadcast use vstd::arithmetic::mul::lemma_mul_is_commutative;

/// Number of periods in an era.
pub const ERA_NUM_PERIODS: usize = 256;

/// Number of seconds in a period (3 days).
pub const PERIOD_SECONDS: u32 = 86_400 * 3;

/// Number of seconds in an era.
pub const SECONDS_PER_ERA: u64 = 256 * (PERIOD_SECONDS as u64);

/// The Unix timestamp of the start of era 0.
pub const COMMON_ERA_UNIX_TS: u64 = 1_640_995_200;

/// The instant at which an era begins.
pub open spec fn era_start(era: u16) -> int {
    COMMON_ERA_UNIX_TS + era * SECONDS_PER_ERA
}

/// The instant at which a period of an era begins: the period's checkpoint.
pub open spec fn period_start(era: u16, period: u8) -> int {
    era_start(era) + period * PERIOD_SECONDS
}

/// The era containing instant `t` (meaningful for `t >= COMMON_ERA_UNIX_TS`).
pub open spec fn era_of(t: int) -> int {
    (t - COMMON_ERA_UNIX_TS) / (SECONDS_PER_ERA as int)
}

/// The period index within `era_of(t)` containing instant `t`.
pub open spec fn period_of(t: int) -> int {
    (t - COMMON_ERA_UNIX_TS - era_of(t) * SECONDS_PER_ERA) / (PERIOD_SECONDS as int)
}

/// Largest instant any representable coordinate can start at:
/// `period_start(u16::MAX, u8::MAX)` is far below `u64::MAX`.
pub proof fn lemma_period_start_fits_u64(era: u16, period: u8)
    ensures
        0 <= era * SECONDS_PER_ERA <= 65535 * SECONDS_PER_ERA,
        0 <= period * PERIOD_SECONDS <= 255 * PERIOD_SECONDS,
        0 < era_start(era) <= period_start(era, period) < u64::MAX,
{
    assert(era * SECONDS_PER_ERA <= 65535 * SECONDS_PER_ERA) by (nonlinear_arith)
        requires era <= 65535;
    assert(period * PERIOD_SECONDS <= 255 * PERIOD_SECONDS) by (nonlinear_arith)
        requires period <= 255;
    assert(era * SECONDS_PER_ERA >= 0) by (nonlinear_arith);
    assert(period * PERIOD_SECONDS >= 0) by (nonlinear_arith);
}

/// Calculates the start timestamp of an era.
///
/// Always succeeds: even the largest representable era starts well below
/// `u64::MAX`. The `Option` shape is kept so that callers treat every
/// coordinate-to-time conversion as fallible.
pub fn calculate_era_start_ts(era: u16) -> (r: Option<u64>)
    ensures
        r == Some(era_start(era) as u64),
{
    proof { lemma_period_start_fits_u64(era, 0); }
    COMMON_ERA_UNIX_TS.checked_add(SECONDS_PER_ERA.checked_mul(era as u64)?)
}

/// Calculates the start timestamp of a period of an era.
///
/// Always succeeds; see [`calculate_era_start_ts`] for the `Option` shape.
pub fn calculate_period_start_ts(era: u16, period: u8) -> (r: Option<u64>)
    ensures
        r == Some(period_start(era, period) as u64),
{
    proof { lemma_period_start_fits_u64(era, period); }
    calculate_era_start_ts(era)?.checked_add((period as u64).checked_mul(PERIOD_SECONDS as u64)?)
}

/// A period is `elapsed` if its start time has strictly passed.
///
/// `>` instead of `>=`: the instant exactly equal to a checkpoint is still
/// "not yet elapsed", a one-second grace window against off-by-one misuse.
/// Elapsed periods' recorded balances are frozen.
///
/// Fails only on a negative `now`, which cannot be compared to an unsigned
/// checkpoint.
pub fn has_period_elapsed(era: u16, period: u8, now: i64) -> (r: Option<bool>)
    ensures
        now < 0 ==> r is None,
        now >= 0 ==> r == Some(now > period_start(era, period)),
{
    let start = calculate_period_start_ts(era, period)?;
    proof { lemma_period_start_fits_u64(era, period); }
    if now < 0 {
        return None;
    }
    let now_u: u64 = now as u64;
    Some(now_u > start)
}

/// Calculates the era and period containing the given Unix timestamp.
///
/// Fails exactly when `now` lies before era 0, or so far in the future that
/// its era does not fit the 16-bit coordinate.
pub fn calculate_era_and_period_of_ts(now: u64) -> (r: Option<(u16, u8)>)
    ensures
        (r is Some) <==> (COMMON_ERA_UNIX_TS <= now && era_of(now as int) <= u16::MAX),
        r is Some ==> r == Some((era_of(now as int) as u16, period_of(now as int) as u8)),
        r is Some ==> 0 <= period_of(now as int) < 256,
{
    let diff: u64 = now.checked_sub(COMMON_ERA_UNIX_TS)?;
    let era_wide: u64 = diff / SECONDS_PER_ERA;
    proof {
        lemma_fundamental_div_mod(diff as int, SECONDS_PER_ERA as int);
        lemma_mod_division_less_than_divisor(diff as int, SECONDS_PER_ERA as int);
        assert(era_wide == era_of(now as int));
    }
    if era_wide > u16::MAX as u64 {
        return None;
    }
    let current_era: u16 = era_wide as u16;
    let current_era_start_ts: u64 = calculate_era_start_ts(current_era)?;
    proof {
        lemma_period_start_fits_u64(current_era, 0);
        assert(diff - era_wide * SECONDS_PER_ERA == (diff as int) % (SECONDS_PER_ERA as int));
        assert(now - current_era_start_ts == (diff as int) % (SECONDS_PER_ERA as int));
    }
    let diff2: u64 = now - current_era_start_ts;
    let period_wide: u64 = diff2 / (PERIOD_SECONDS as u64);
    proof {
        lemma_div_is_ordered(diff2 as int, SECONDS_PER_ERA - 1, PERIOD_SECONDS as int);
        lemma_fundamental_div_mod_converse_div(
            SECONDS_PER_ERA - 1, PERIOD_SECONDS as int, 255, PERIOD_SECONDS - 1,
        );
        assert(period_wide <= 255);
        assert(period_of(now as int) == period_wide);
    }
    let current_period: u8 = period_wide as u8;
    Some((current_era, current_period))
}

/// Calculates the coordinate immediately after the given one, wrapping the
/// period into the next era at the era boundary.
///
/// Fails only when both coordinates are already at their maxima.
pub fn calculate_next_era_and_period(era: u16, period: u8) -> (r: Option<(u16, u8)>)
    ensures
        period == 255 && era == u16::MAX ==> r is None,
        period == 255 && era < u16::MAX ==> r == Some(((era + 1) as u16, 0u8)),
        period < 255 ==> r == Some((era, (period + 1) as u8)),
{
    Some(
        if period == u8::MAX {
            (era.checked_add(1)?, 0_u8)
        } else {
            (era, period + 1)
        },
    )
}

/// Calculates the coordinate immediately after the one containing the given
/// Unix timestamp.
pub fn calculate_next_era_and_period_of_ts(now: u64) -> (r: Option<(u16, u8)>)
    ensures
        (r is Some) <==> (COMMON_ERA_UNIX_TS <= now && era_of(now as int) <= u16::MAX
            && !(era_of(now as int) == u16::MAX && period_of(now as int) == 255)),
        r is Some && period_of(now as int) < 255 ==> r == Some((
            era_of(now as int) as u16,
            (period_of(now as int) + 1) as u8,
        )),
        r is Some && period_of(now as int) == 255 ==> r == Some((
            (era_of(now as int) + 1) as u16,
            0u8,
        )),
{
    let (current_era, current_period) = calculate_era_and_period_of_ts(now)?;
    calculate_next_era_and_period(current_era, current_period)
}

/// Law: a period's checkpoint is strictly monotonic in the lexicographic
/// order of `(era, period)` coordinates.
pub proof fn lemma_period_start_monotonic(era1: u16, period1: u8, era2: u16, period2: u8)
    requires
        era1 < era2 || (era1 == era2 && period1 < period2),
    ensures
        period_start(era1, period1) < period_start(era2, period2),
{
    if era1 == era2 {
        lemma_mul_strict_inequality(period1 as int, period2 as int, PERIOD_SECONDS as int);
    } else {
        assert(period1 * PERIOD_SECONDS <= 255 * PERIOD_SECONDS) by (nonlinear_arith)
            requires period1 <= 255;
        lemma_mul_inequality(era1 + 1, era2 as int, SECONDS_PER_ERA as int);
        assert((era1 + 1) * SECONDS_PER_ERA == era1 * SECONDS_PER_ERA + SECONDS_PER_ERA)
            by (nonlinear_arith);
        assert(period2 * PERIOD_SECONDS >= 0) by (nonlinear_arith);
    }
}

/// Law: time-to-coordinate conversion is the inverse of coordinate-to-time
/// conversion, for every representable coordinate.
pub proof fn lemma_coords_of_period_start(era: u16, period: u8)
    ensures
        era_of(period_start(era, period)) == era,
        period_of(period_start(era, period)) == period,
{
    let t = period_start(era, period);
    let rem = period * PERIOD_SECONDS;
    assert(0 <= rem < SECONDS_PER_ERA) by (nonlinear_arith)
        requires period <= 255, rem == period * PERIOD_SECONDS;
    assert(t - COMMON_ERA_UNIX_TS == era * SECONDS_PER_ERA + rem);
    lemma_fundamental_div_mod_converse_div(
        t - COMMON_ERA_UNIX_TS, SECONDS_PER_ERA as int, era as int, rem,
    );
    assert(era_of(t) == era);
    lemma_fundamental_div_mod_converse_div(rem, PERIOD_SECONDS as int, period as int, 0);
}

} // verus!
