//! Reconciliation ("sync"): recomputes one participant's not-yet-elapsed
//! period balances for one era from the live lockup state, rewrites the
//! participant record, and folds the delta into the aggregate record.
//!
//! The walk visits all 256 periods in increasing order. Elapsed periods are
//! frozen and skipped; a not-yet-elapsed period's balance may only grow or
//! stay level between reconciliations. The operation is all-or-nothing: on
//! any failure both records are left exactly as they were.

use vstd::prelude::*;

verus! {

broadcast use vstd::arithmetic::mul::lemma_mul_is_commutative;

use crate::ErrorCode;
use crate::math::{
    era_start, period_start, calculate_era_start_ts, lemma_period_start_fits_u64,
    ERA_NUM_PERIODS, PERIOD_SECONDS,
};
use crate::power::{voter_power, calculate_voter_power_simple};
use crate::state::{LockerHistory, EscrowHistory, copy_periods};

/// Locker-wide decay parameters, shared by every participant of one locker.
pub struct LockerParams {
    /// Longest lockup duration that still increases power, in seconds.
    pub max_stake_duration: u64,
    /// Multiplier applied to the staked amount at the maximum duration.
    pub max_stake_vote_multiplier: u8,
}

/// The aggregate entity whose history is tracked.
pub struct Locker {
    /// Identity of this locker.
    pub key: u64,
    /// Decay parameters, read fresh at each reconciliation.
    pub params: LockerParams,
}

/// One participant's live lockup state, read-only to this crate.
pub struct Escrow {
    /// Identity of this escrow.
    pub key: u64,
    /// The locker this escrow belongs to.
    pub locker: u64,
    /// Staked quantity.
    pub amount: u64,
    /// When the lockup began; 0 means it never started.
    pub escrow_started_at: i64,
    /// When the lockup expires.
    pub escrow_ends_at: i64,
}

/// The voting power the escrow would carry at the maximum lockup duration.
pub open spec fn power_if_max(locker: Locker, escrow: Escrow) -> int {
    escrow.amount * locker.params.max_stake_vote_multiplier
}

/// The decay-model balance anchored to one period checkpoint of the era.
pub open spec fn new_balance(locker: Locker, escrow: Escrow, era: u16, p: u8) -> Option<u64> {
    voter_power(
        power_if_max(locker, escrow) as u64,
        period_start(era, p) as u64,
        escrow.escrow_started_at as u64,
        escrow.escrow_ends_at as u64,
        locker.params.max_stake_duration,
    )
}

/// Failures detected before the period walk, in the order they are checked:
/// the cross-reference checks between the caller-supplied locker and escrow
/// and the two records, then the checked conversions of the clock and of the
/// lockup quantities.
pub open spec fn validation_error(
    locker: Locker,
    escrow: Escrow,
    lh: LockerHistory,
    eh: EscrowHistory,
    now: i64,
) -> Option<ErrorCode> {
    if escrow.locker != locker.key {
        Some(ErrorCode::LockerEscrowMismatch)
    } else if lh.locker != locker.key {
        Some(ErrorCode::LockerEscrowMismatch)
    } else if eh.escrow != escrow.key {
        Some(ErrorCode::LockerEscrowMismatch)
    } else if lh.era != eh.era {
        Some(ErrorCode::EraMismatch)
    } else if now < 0 {
        Some(ErrorCode::ArithmeticOverflow)
    } else if power_if_max(locker, escrow) > u64::MAX {
        Some(ErrorCode::ArithmeticOverflow)
    } else if escrow.escrow_started_at < 0 || escrow.escrow_ends_at < 0 {
        Some(ErrorCode::ArithmeticOverflow)
    } else {
        None
    }
}

/// The failure, if any, that one not-yet-elapsed slot raises, given the
/// recomputed balance `nb_opt` and the stored participant balance `ob`,
/// aggregate balance `ab` and aggregate count `ac`.
pub open spec fn slot_error(nb_opt: Option<u64>, ob: u64, ab: u64, ac: u64) -> Option<ErrorCode> {
    if nb_opt is None {
        Some(ErrorCode::ArithmeticOverflow)
    } else {
        let nb = nb_opt.unwrap();
        if nb < ob {
            Some(ErrorCode::EscrowBalanceDecreased)
        } else if ab < ob {
            Some(ErrorCode::ArithmeticOverflow)
        } else if ab - ob + nb > u64::MAX {
            Some(ErrorCode::ArithmeticOverflow)
        } else if ob == 0 && nb != 0 && ac == u64::MAX {
            Some(ErrorCode::ArithmeticOverflow)
        } else {
            None
        }
    }
}

/// The failure, if any, that period `p` raises during the walk, judged
/// against the records as they stood when the walk began.
pub open spec fn period_error(
    locker: Locker,
    escrow: Escrow,
    lh: LockerHistory,
    eh: EscrowHistory,
    now_u: u64,
    p: int,
) -> Option<ErrorCode> {
    let era = lh.era;
    if now_u > period_start(era, p as u8) {
        None
    } else {
        slot_error(
            new_balance(locker, escrow, era, p as u8),
            eh.ve_balances@[p],
            lh.ve_balances@[p],
            lh.ve_counts@[p],
        )
    }
}

/// The first failure met walking periods from `p` upward.
pub open spec fn first_period_error_from(
    locker: Locker,
    escrow: Escrow,
    lh: LockerHistory,
    eh: EscrowHistory,
    now_u: u64,
    p: int,
) -> Option<ErrorCode>
    decreases 256 - p,
{
    if p >= 256 {
        None
    } else if period_error(locker, escrow, lh, eh, now_u, p) is Some {
        period_error(locker, escrow, lh, eh, now_u, p)
    } else {
        first_period_error_from(locker, escrow, lh, eh, now_u, p + 1)
    }
}

/// The outcome of a reconciliation attempt on the given inputs: `None` for
/// success, otherwise the error it fails with. A lockup that never started
/// succeeds at once, touching nothing.
pub open spec fn sync_error(
    locker: Locker,
    escrow: Escrow,
    lh: LockerHistory,
    eh: EscrowHistory,
    now: i64,
) -> Option<ErrorCode> {
    if validation_error(locker, escrow, lh, eh, now) is Some {
        validation_error(locker, escrow, lh, eh, now)
    } else if escrow.escrow_started_at == 0 {
        None
    } else {
        first_period_error_from(locker, escrow, lh, eh, now as u64, 0)
    }
}

/// How a successful reconciliation of a started lockup rewrites the two
/// records: elapsed periods are untouched; each not-yet-elapsed period's
/// participant balance becomes the decay-model balance, the aggregate
/// balance absorbs the delta, and the aggregate count grows by one exactly
/// when the participant newly holds nonzero power there.
pub open spec fn records_synced(
    locker: Locker,
    escrow: Escrow,
    old_lh: LockerHistory,
    old_eh: EscrowHistory,
    new_lh: LockerHistory,
    new_eh: EscrowHistory,
    now_u: u64,
) -> bool {
    let era = old_lh.era;
    &&& new_lh.locker == old_lh.locker
    &&& new_lh.era == old_lh.era
    &&& new_eh.escrow == old_eh.escrow
    &&& new_eh.era == old_eh.era
    &&& new_lh.ve_balances@.len() == 256
    &&& new_lh.ve_counts@.len() == 256
    &&& new_eh.ve_balances@.len() == 256
    &&& forall|p: int|
        0 <= p < 256 && now_u > period_start(era, p as u8) ==> {
            &&& #[trigger] new_eh.ve_balances@[p] == old_eh.ve_balances@[p]
            &&& new_lh.ve_balances@[p] == old_lh.ve_balances@[p]
            &&& new_lh.ve_counts@[p] == old_lh.ve_counts@[p]
        }
    &&& forall|p: int|
        #![trigger new_balance(locker, escrow, era, p as u8)]
        0 <= p < 256 && now_u <= period_start(era, p as u8) ==> {
            &&& new_eh.ve_balances@[p] == new_balance(locker, escrow, era, p as u8).unwrap()
            &&& new_lh.ve_balances@[p] == old_lh.ve_balances@[p] - old_eh.ve_balances@[p]
                + new_balance(locker, escrow, era, p as u8).unwrap()
            &&& new_lh.ve_counts@[p] == old_lh.ve_counts@[p] + (
                if old_eh.ve_balances@[p] == 0
                    && new_balance(locker, escrow, era, p as u8).unwrap() != 0 {
                    1int
                } else {
                    0int
                }
            )
        }
}

/// Walking on from `i`, periods that raise no failure can be skipped.
pub proof fn lemma_first_error_skip(
    locker: Locker,
    escrow: Escrow,
    lh: LockerHistory,
    eh: EscrowHistory,
    now_u: u64,
    i: int,
    p: int,
)
    requires
        0 <= i <= p <= 256,
        forall|q: int| i <= q < p ==> period_error(locker, escrow, lh, eh, now_u, q) is None,
    ensures
        first_period_error_from(locker, escrow, lh, eh, now_u, i) == first_period_error_from(
            locker, escrow, lh, eh, now_u, p,
        ),
    decreases p - i,
{
    if i < p {
        lemma_first_error_skip(locker, escrow, lh, eh, now_u, i + 1, p);
    }
}

/// Recomputes one not-yet-elapsed slot and checks it: the recomputed
/// balance must not fall below the stored one, and the aggregate updates
/// must fit. Returns the new participant balance, aggregate balance and
/// aggregate count for the slot.
fn sync_slot(
    power_if_max_lockup: u64,
    period_start_ts: u64,
    escrow_started_at: u64,
    escrow_ends_at: u64,
    max_stake_duration: u64,
    ob: u64,
    ab: u64,
    ac: u64,
) -> (r: Result<(u64, u64, u64), ErrorCode>)
    ensures
        ({
            let nb_opt = voter_power(
                power_if_max_lockup,
                period_start_ts,
                escrow_started_at,
                escrow_ends_at,
                max_stake_duration,
            );
            &&& ((r is Ok) <==> slot_error(nb_opt, ob, ab, ac) is None)
            &&& r is Err ==> Some(r->Err_0) == slot_error(nb_opt, ob, ab, ac)
            &&& r is Ok ==> {
                &&& r->Ok_0.0 == nb_opt.unwrap()
                &&& r->Ok_0.1 == ab - ob + nb_opt.unwrap()
                &&& r->Ok_0.2 == ac + (
                    if ob == 0 && nb_opt.unwrap() != 0 {
                        1int
                    } else {
                        0int
                    }
                )
            }
        }),
{
    let ve_balance: u64 = match calculate_voter_power_simple(
        power_if_max_lockup,
        period_start_ts,
        escrow_started_at,
        escrow_ends_at,
        max_stake_duration,
    ) {
        Some(v) => v,
        None => {
            return Err(ErrorCode::ArithmeticOverflow);
        },
    };
    if ve_balance < ob {
        return Err(ErrorCode::EscrowBalanceDecreased);
    }
    let reduced: u64 = match ab.checked_sub(ob) {
        Some(v) => v,
        None => {
            return Err(ErrorCode::ArithmeticOverflow);
        },
    };
    let updated: u64 = match reduced.checked_add(ve_balance) {
        Some(v) => v,
        None => {
            return Err(ErrorCode::ArithmeticOverflow);
        },
    };
    // A participant whose balance was zero and is now nonzero is newly
    // tracked in this bucket.
    let new_count: u64 = if ob == 0 && ve_balance != 0 {
        match ac.checked_add(1) {
            Some(v) => v,
            None => {
                return Err(ErrorCode::ArithmeticOverflow);
            },
        }
    } else {
        ac
    };
    Ok((ve_balance, updated, new_count))
}

/// A walk that meets no failure met none at any single period.
pub proof fn lemma_clean_walk_period(
    locker: Locker,
    escrow: Escrow,
    lh: LockerHistory,
    eh: EscrowHistory,
    now_u: u64,
    i: int,
    p: int,
)
    requires
        0 <= i <= p < 256,
        first_period_error_from(locker, escrow, lh, eh, now_u, i) is None,
    ensures
        period_error(locker, escrow, lh, eh, now_u, p) is None,
    decreases p - i,
{
    if i < p {
        lemma_clean_walk_period(locker, escrow, lh, eh, now_u, i + 1, p);
    }
}

/// Reconciliation of one participant with its aggregate for one era.
///
/// Walks all 256 periods in increasing order, skipping those whose
/// checkpoint has strictly passed (`now` exactly at a checkpoint still
/// counts as not elapsed). For each remaining period it recomputes the
/// decay-model balance at that period's checkpoint, rejects any decrease,
/// rewrites the participant's slot, folds the delta into the aggregate's
/// slot, and bumps the aggregate count when the participant newly holds
/// nonzero power. A lockup that never started leaves both records
/// untouched. On any failure both records are left exactly as they were.
#[verifier::loop_isolation(false)]
#[verifier::rlimit(100)]
pub fn sync(
    locker: &Locker,
    escrow: &Escrow,
    locker_history: &mut LockerHistory,
    escrow_history: &mut EscrowHistory,
    now: i64,
) -> (r: Result<(), ErrorCode>)
    requires
        old(locker_history).wf(),
        old(escrow_history).wf(),
    ensures
        final(locker_history).wf(),
        final(escrow_history).wf(),
        final(locker_history).locker == old(locker_history).locker,
        final(locker_history).era == old(locker_history).era,
        final(escrow_history).escrow == old(escrow_history).escrow,
        final(escrow_history).era == old(escrow_history).era,
        (r is Ok) <==> sync_error(
            *locker, *escrow, *old(locker_history), *old(escrow_history), now,
        ) is None,
        r is Err ==> {
            &&& Some(r->Err_0) == sync_error(
                *locker, *escrow, *old(locker_history), *old(escrow_history), now,
            )
            &&& *final(locker_history) == *old(locker_history)
            &&& *final(escrow_history) == *old(escrow_history)
        },
        r is Ok && escrow.escrow_started_at == 0 ==> {
            &&& *final(locker_history) == *old(locker_history)
            &&& *final(escrow_history) == *old(escrow_history)
        },
        r is Ok && escrow.escrow_started_at != 0 ==> records_synced(
            *locker,
            *escrow,
            *old(locker_history),
            *old(escrow_history),
            *final(locker_history),
            *final(escrow_history),
            now as u64,
        ),
{
    if escrow.locker != locker.key {
        return Err(ErrorCode::LockerEscrowMismatch);
    }
    if locker_history.locker != locker.key {
        return Err(ErrorCode::LockerEscrowMismatch);
    }
    if escrow_history.escrow != escrow.key {
        return Err(ErrorCode::LockerEscrowMismatch);
    }
    if locker_history.era != escrow_history.era {
        return Err(ErrorCode::EraMismatch);
    }
    if now < 0 {
        return Err(ErrorCode::ArithmeticOverflow);
    }
    let now_u: u64 = now as u64;
    let power_if_max_lockup: u64 = match escrow.amount.checked_mul(
        locker.params.max_stake_vote_multiplier as u64,
    ) {
        Some(v) => v,
        None => {
            return Err(ErrorCode::ArithmeticOverflow);
        },
    };
    if escrow.escrow_started_at < 0 || escrow.escrow_ends_at < 0 {
        return Err(ErrorCode::ArithmeticOverflow);
    }
    let escrow_started_at: u64 = escrow.escrow_started_at as u64;
    let escrow_ends_at: u64 = escrow.escrow_ends_at as u64;

    // A lockup that never started updates nothing.
    if escrow_started_at == 0 {
        return Ok(());
    }

    let era: u16 = locker_history.era;
    let start_ts: u64 = match calculate_era_start_ts(era) {
        Some(t) => t,
        None => {
            return Err(ErrorCode::ArithmeticOverflow);
        },
    };

    // Work on copies; commit only when the whole walk has succeeded, so a
    // failure leaves no partial update visible.
    let mut eh_balances: Vec<u64> = copy_periods(&escrow_history.ve_balances);
    let mut lh_balances: Vec<u64> = copy_periods(&locker_history.ve_balances);
    let mut lh_counts: Vec<u64> = copy_periods(&locker_history.ve_counts);

    let mut period_start_ts: u64 = start_ts;
    let mut period: usize = 0;
    while period < ERA_NUM_PERIODS
        invariant
            period <= 256,
            period == 0 ==> period_start_ts == era_start(era) as u64,
            period >= 1 ==> period_start_ts == period_start(era, (period - 1) as u8) as u64,
            eh_balances@.len() == 256,
            lh_balances@.len() == 256,
            lh_counts@.len() == 256,
            forall|q: int| period <= q < 256 ==> {
                &&& eh_balances@[q] == old(escrow_history).ve_balances@[q]
                &&& lh_balances@[q] == old(locker_history).ve_balances@[q]
                &&& lh_counts@[q] == old(locker_history).ve_counts@[q]
            },
            forall|q: int| 0 <= q < period ==> period_error(
                *locker, *escrow, *old(locker_history), *old(escrow_history), now_u, q,
            ) is None,
            forall|q: int|
                0 <= q < period && now_u > period_start(era, q as u8) ==> {
                    &&& eh_balances@[q] == old(escrow_history).ve_balances@[q]
                    &&& lh_balances@[q] == old(locker_history).ve_balances@[q]
                    &&& lh_counts@[q] == old(locker_history).ve_counts@[q]
                },
            forall|q: int|
                #![trigger new_balance(*locker, *escrow, era, q as u8)]
                0 <= q < period && now_u <= period_start(era, q as u8) ==> {
                    &&& eh_balances@[q] == new_balance(*locker, *escrow, era, q as u8).unwrap()
                    &&& lh_balances@[q] == old(locker_history).ve_balances@[q]
                        - old(escrow_history).ve_balances@[q]
                        + new_balance(*locker, *escrow, era, q as u8).unwrap()
                    &&& lh_counts@[q] == old(locker_history).ve_counts@[q] + (
                        if old(escrow_history).ve_balances@[q] == 0
                            && new_balance(*locker, *escrow, era, q as u8).unwrap() != 0 {
                            1int
                        } else {
                            0int
                        }
                    )
                },
        decreases 256 - period,
    {
        if period > 0 {
            proof {
                let p = period as int;
                assert(p * PERIOD_SECONDS == (p - 1) * PERIOD_SECONDS + PERIOD_SECONDS)
                    by (nonlinear_arith);
                lemma_period_start_fits_u64(era, period as u8);
            }
            period_start_ts = period_start_ts + (PERIOD_SECONDS as u64);
        }
        proof {
            lemma_period_start_fits_u64(era, period as u8);
            assert(period_start_ts == period_start(era, period as u8) as u64);
        }

        // Skip periods whose checkpoint has strictly passed: they are frozen.
        if now_u <= period_start_ts {
            let slot: (u64, u64, u64) = match sync_slot(
                power_if_max_lockup,
                period_start_ts,
                escrow_started_at,
                escrow_ends_at,
                locker.params.max_stake_duration,
                eh_balances[period],
                lh_balances[period],
                lh_counts[period],
            ) {
                Ok(t) => t,
                Err(e) => {
                    proof {
                        assert(period_error(
                            *locker, *escrow, *old(locker_history), *old(escrow_history),
                            now_u, period as int,
                        ) == Some(e));
                        lemma_first_error_skip(
                            *locker, *escrow, *old(locker_history), *old(escrow_history),
                            now_u, 0, period as int,
                        );
                    }
                    return Err(e);
                },
            };
            eh_balances[period] = slot.0;
            lh_balances[period] = slot.1;
            lh_counts[period] = slot.2;
            proof {
                assert(new_balance(*locker, *escrow, era, period as u8) == Some(slot.0));
                assert(period_error(
                    *locker, *escrow, *old(locker_history), *old(escrow_history),
                    now_u, period as int,
                ) is None);
            }
        }
        period = period + 1;
    }

    proof {
        lemma_first_error_skip(
            *locker, *escrow, *old(locker_history), *old(escrow_history), now_u, 0, 256,
        );
    }
    locker_history.ve_balances = lh_balances;
    locker_history.ve_counts = lh_counts;
    escrow_history.ve_balances = eh_balances;
    Ok(())
}

} // verus!
