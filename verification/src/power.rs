//! Decay model: a participant's voting power at a checkpoint, computed from
//! its lockup parameters.
//!
//! Power is zero before the lockup starts and at or after its expiry; in
//! between it decays linearly from the maximum-lockup power down to zero,
//! with the remaining duration clamped to the configured maximum.

use vstd::prelude::*;
use vstd::arithmetic::div_mod::{lemma_div_is_ordered, lemma_div_multiples_vanish};
use vstd::arithmetic::mul::lemma_mul_upper_bound;

verus! {

broadcast use vstd::arithmetic::mul::lemma_mul_is_commutative;

/// Seconds of lockup left at instant `t`, clamped to the maximum duration.
pub open spec fn remaining_duration(t: u64, ends_at: u64, max_stake_duration: u64) -> int {
    if ends_at - t <= max_stake_duration {
        ends_at - t
    } else {
        max_stake_duration as int
    }
}

/// The decay model: voting power anchored to checkpoint `t`.
///
/// - `t == 0` is out of domain: checkpoint timestamps are always positive.
/// - A lockup that never started (`started_at == 0`) has no power anywhere.
/// - Power is zero before `started_at` and at or after `ends_at`.
/// - Otherwise power is `floor(power_if_max_lockup * remaining / max_stake_duration)`,
///   undefined (a failure) when `max_stake_duration` is zero.
pub open spec fn voter_power(
    power_if_max_lockup: u64,
    t: u64,
    started_at: u64,
    ends_at: u64,
    max_stake_duration: u64,
) -> Option<u64> {
    if t == 0 {
        None
    } else if started_at == 0 {
        Some(0u64)
    } else if t < started_at || t >= ends_at {
        Some(0u64)
    } else if max_stake_duration == 0 {
        None
    } else {
        Some(
            ((power_if_max_lockup * remaining_duration(t, ends_at, max_stake_duration))
                / (max_stake_duration as int)) as u64,
        )
    }
}

/// Computes `floor(a * b / c)` through a 128-bit intermediate, so that the
/// multiply cannot overflow before the divide.
///
/// Fails when `c` is zero or the quotient does not fit 64 bits.
fn mul_div_u64(a: u64, b: u64, c: u64) -> (r: Option<u64>)
    ensures
        c == 0 ==> r is None,
        c != 0 && (a * b) / (c as int) > u64::MAX ==> r is None,
        c != 0 && (a * b) / (c as int) <= u64::MAX ==> r == Some(((a * b) / (c as int)) as u64),
{
    proof {
        lemma_mul_upper_bound(a as int, u64::MAX as int, b as int, u64::MAX as int);
    }
    let wide: u128 = (a as u128) * (b as u128);
    if c == 0 {
        return None;
    }
    let q: u128 = wide / (c as u128);
    if q > (u64::MAX as u128) {
        None
    } else {
        Some(q as u64)
    }
}

/// Calculates voter power from cached lockup quantities.
///
/// `power_if_max_lockup` is the power the lockup would carry at the maximum
/// duration; the result never exceeds it, since the remaining duration is
/// clamped to `max_stake_duration`.
pub fn calculate_voter_power_simple(
    power_if_max_lockup: u64,
    period_start_ts: u64,
    escrow_started_at: u64,
    escrow_ends_at: u64,
    max_stake_duration: u64,
) -> (r: Option<u64>)
    ensures
        r == voter_power(
            power_if_max_lockup,
            period_start_ts,
            escrow_started_at,
            escrow_ends_at,
            max_stake_duration,
        ),
        r is Some ==> r.unwrap() <= power_if_max_lockup,
{
    if period_start_ts == 0 {
        return None;
    }
    if escrow_started_at == 0 {
        return Some(0);
    }
    if period_start_ts < escrow_started_at || period_start_ts >= escrow_ends_at {
        return Some(0);
    }
    let seconds_until_lockup_expiry: u64 = escrow_ends_at - period_start_ts;
    let relevant_seconds_until_lockup_expiry: u64 =
        if seconds_until_lockup_expiry <= max_stake_duration {
            seconds_until_lockup_expiry
        } else {
            max_stake_duration
        };
    proof {
        if max_stake_duration != 0 {
            lemma_quotient_bounded(
                power_if_max_lockup,
                relevant_seconds_until_lockup_expiry,
                max_stake_duration,
            );
        }
    }
    mul_div_u64(
        power_if_max_lockup,
        relevant_seconds_until_lockup_expiry,
        max_stake_duration,
    )
}

/// `floor(pmax * rem / dur) <= pmax` whenever `rem <= dur`.
proof fn lemma_quotient_bounded(pmax: u64, rem: u64, dur: u64)
    requires
        rem <= dur,
        dur != 0,
    ensures
        0 <= (pmax * rem) / (dur as int) <= pmax,
{
    assert(pmax * rem <= pmax * dur) by (nonlinear_arith)
        requires rem <= dur, 0 <= pmax;
    assert(pmax * rem >= 0) by (nonlinear_arith);
    lemma_div_is_ordered(pmax * rem, pmax * dur, dur as int);
    lemma_div_multiples_vanish(pmax as int, dur as int);
    lemma_div_is_ordered(0, pmax * rem, dur as int);
}

/// Law: at the instant the lockup starts, a lockup with at least the maximum
/// duration remaining carries the full maximum-lockup power.
pub proof fn lemma_power_at_start(pmax: u64, started_at: u64, ends_at: u64, max_dur: u64)
    requires
        started_at != 0,
        started_at < ends_at,
        max_dur != 0,
        ends_at - started_at >= max_dur,
    ensures
        voter_power(pmax, started_at, started_at, ends_at, max_dur) == Some(pmax),
{
    lemma_div_multiples_vanish(pmax as int, max_dur as int);
}

/// Law: power is zero strictly before the lockup starts and at or after it
/// ends.
pub proof fn lemma_power_zero_outside(
    pmax: u64,
    t: u64,
    started_at: u64,
    ends_at: u64,
    max_dur: u64,
)
    requires
        t != 0,
        started_at != 0,
        t < started_at || t >= ends_at,
    ensures
        voter_power(pmax, t, started_at, ends_at, max_dur) == Some(0u64),
{
}

/// Law: strictly before expiry, a lockup whose maximum-lockup power is at
/// least the maximum duration still carries nonzero power: the linear decay
/// only reaches zero at `ends_at` itself.
pub proof fn lemma_power_positive_before_expiry(
    pmax: u64,
    t: u64,
    started_at: u64,
    ends_at: u64,
    max_dur: u64,
)
    requires
        t != 0,
        started_at != 0,
        max_dur != 0,
        started_at <= t < ends_at,
        pmax >= max_dur,
    ensures
        voter_power(pmax, t, started_at, ends_at, max_dur) is Some,
        voter_power(pmax, t, started_at, ends_at, max_dur).unwrap() >= 1,
{
    let rem = remaining_duration(t, ends_at, max_dur);
    assert(rem >= 1);
    assert(pmax * rem >= max_dur) by (nonlinear_arith)
        requires rem >= 1, pmax >= max_dur, max_dur >= 0;
    lemma_div_is_ordered(max_dur as int, pmax * rem, max_dur as int);
    lemma_div_multiples_vanish(1, max_dur as int);
    lemma_quotient_bounded(pmax, rem as u64, max_dur);
}

/// Law: within `[started_at, ends_at)`, power is monotonically non-increasing
/// as the checkpoint moves later.
pub proof fn lemma_power_monotonic(
    pmax: u64,
    t1: u64,
    t2: u64,
    started_at: u64,
    ends_at: u64,
    max_dur: u64,
)
    requires
        started_at != 0,
        max_dur != 0,
        0 < started_at <= t1 <= t2 < ends_at,
    ensures
        voter_power(pmax, t2, started_at, ends_at, max_dur).unwrap()
            <= voter_power(pmax, t1, started_at, ends_at, max_dur).unwrap(),
{
    let rem1 = remaining_duration(t1, ends_at, max_dur);
    let rem2 = remaining_duration(t2, ends_at, max_dur);
    assert(0 <= rem2 <= rem1);
    assert(pmax * rem2 <= pmax * rem1) by (nonlinear_arith)
        requires 0 <= rem2 <= rem1, 0 <= pmax;
    assert(pmax * rem2 >= 0) by (nonlinear_arith)
        requires 0 <= rem2, 0 <= pmax;
    lemma_div_is_ordered(pmax * rem2, pmax * rem1, max_dur as int);
    lemma_quotient_bounded(pmax, rem1 as u64, max_dur);
    lemma_quotient_bounded(pmax, rem2 as u64, max_dur);
}

} // verus!
