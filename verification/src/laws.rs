//! Cross-record laws of the reconciliation algorithm: repeating a
//! reconciliation with nothing changed is a no-op, and the aggregate record
//! stays equal to the sum of its participants' records.

use vstd::prelude::*;

verus! {

use crate::state::{LockerHistory, EscrowHistory};
use crate::sync::{
    Locker, Escrow, records_synced, period_error, sync_error, validation_error, new_balance,
    lemma_first_error_skip, lemma_clean_walk_period,
};
use crate::math::period_start;

/// Law: reconciliation is idempotent. If a reconciliation of a started
/// lockup succeeds, taking the records from `(lh0, eh0)` to `(lh1, eh1)`,
/// then running it again at the same instant with the same lockup state
/// succeeds too and leaves both records exactly as they are.
pub proof fn lemma_sync_idempotent(
    locker: Locker,
    escrow: Escrow,
    lh0: LockerHistory,
    eh0: EscrowHistory,
    lh1: LockerHistory,
    eh1: EscrowHistory,
    now: i64,
)
    requires
        lh0.wf(),
        eh0.wf(),
        escrow.escrow_started_at != 0,
        sync_error(locker, escrow, lh0, eh0, now) is None,
        records_synced(locker, escrow, lh0, eh0, lh1, eh1, now as u64),
    ensures
        sync_error(locker, escrow, lh1, eh1, now) is None,
        records_synced(locker, escrow, lh1, eh1, lh1, eh1, now as u64),
{
    let now_u = now as u64;
    let era = lh0.era;
    assert(validation_error(locker, escrow, lh0, eh0, now) is None);
    assert(lh1.era == era && eh1.era == eh0.era && lh1.locker == lh0.locker
        && eh1.escrow == eh0.escrow);
    assert(validation_error(locker, escrow, lh1, eh1, now) is None);
    assert forall|p: int| 0 <= p < 256 implies period_error(
        locker, escrow, lh1, eh1, now_u, p,
    ) is None by {
        lemma_clean_walk_period(locker, escrow, lh0, eh0, now_u, 0, p);
        if now_u <= period_start(era, p as u8) {
            let nb = new_balance(locker, escrow, era, p as u8).unwrap();
            assert(eh1.ve_balances@[p] == nb);
            assert(lh1.ve_balances@[p] == lh0.ve_balances@[p] - eh0.ve_balances@[p] + nb);
            assert(lh0.ve_balances@[p] >= eh0.ve_balances@[p]);
        }
    }
    lemma_first_error_skip(locker, escrow, lh1, eh1, now_u, 0, 256);
    assert forall|p: int|
        #![trigger new_balance(locker, escrow, lh1.era, p as u8)]
        0 <= p < 256 && now_u <= period_start(lh1.era, p as u8) implies {
        &&& eh1.ve_balances@[p] == new_balance(locker, escrow, lh1.era, p as u8).unwrap()
        &&& lh1.ve_balances@[p] == lh1.ve_balances@[p] - eh1.ve_balances@[p]
            + new_balance(locker, escrow, lh1.era, p as u8).unwrap()
        &&& lh1.ve_counts@[p] == lh1.ve_counts@[p] + (
            if eh1.ve_balances@[p] == 0
                && new_balance(locker, escrow, lh1.era, p as u8).unwrap() != 0 {
                1int
            } else {
                0int
            }
        )
    } by {
        let nb = new_balance(locker, escrow, era, p as u8).unwrap();
        assert(eh1.ve_balances@[p] == nb);
    }
}

/// The sum, over a sequence of participant records, of the balance each
/// one anchors to period `p`.
pub open spec fn balances_sum_at(ehs: Seq<EscrowHistory>, p: int) -> int
    decreases ehs.len(),
{
    if ehs.len() == 0 {
        0
    } else {
        balances_sum_at(ehs.drop_last(), p) + ehs.last().ve_balances@[p]
    }
}

/// How many of the participant records anchor a nonzero balance to
/// period `p`.
pub open spec fn nonzero_count_at(ehs: Seq<EscrowHistory>, p: int) -> int
    decreases ehs.len(),
{
    if ehs.len() == 0 {
        0
    } else {
        nonzero_count_at(ehs.drop_last(), p) + (
            if ehs.last().ve_balances@[p] != 0 {
                1int
            } else {
                0int
            }
        )
    }
}

/// The books balance: for every period, the aggregate record holds exactly
/// the sum of the participants' balances and the number of participants
/// with nonzero balance.
pub open spec fn aggregate_consistent(lh: LockerHistory, ehs: Seq<EscrowHistory>) -> bool {
    forall|p: int|
        #![trigger balances_sum_at(ehs, p)]
        0 <= p < 256 ==> {
            &&& lh.ve_balances@[p] == balances_sum_at(ehs, p)
            &&& lh.ve_counts@[p] == nonzero_count_at(ehs, p)
        }
}

/// Law: a freshly created (zeroed) aggregate record with no participant
/// records is consistent.
pub proof fn lemma_consistency_empty(lh: LockerHistory)
    requires
        lh.wf(),
        forall|p: int| 0 <= p < 256 ==> lh.ve_balances@[p] == 0 && lh.ve_counts@[p] == 0,
    ensures
        aggregate_consistent(lh, Seq::<EscrowHistory>::empty()),
{
}

/// Law: adding a freshly created (zeroed) participant record keeps the
/// books consistent.
pub proof fn lemma_consistency_new_participant(
    lh: LockerHistory,
    ehs: Seq<EscrowHistory>,
    eh: EscrowHistory,
)
    requires
        aggregate_consistent(lh, ehs),
        forall|p: int| 0 <= p < 256 ==> eh.ve_balances@[p] == 0,
    ensures
        aggregate_consistent(lh, ehs.push(eh)),
{
    assert forall|p: int| 0 <= p < 256 implies {
        &&& lh.ve_balances@[p] == balances_sum_at(ehs.push(eh), p)
        &&& lh.ve_counts@[p] == nonzero_count_at(ehs.push(eh), p)
    } by {
        assert(ehs.push(eh).drop_last() =~= ehs);
        assert(ehs.push(eh).last() == eh);
        assert(balances_sum_at(ehs, p) == lh.ve_balances@[p]);
    }
}

/// Replacing one record in the sequence shifts the per-period sum and
/// nonzero count by exactly that record's contribution.
proof fn lemma_sum_update(ehs: Seq<EscrowHistory>, k: int, e: EscrowHistory, p: int)
    requires
        0 <= k < ehs.len(),
    ensures
        balances_sum_at(ehs.update(k, e), p) == balances_sum_at(ehs, p)
            - ehs[k].ve_balances@[p] + e.ve_balances@[p],
        nonzero_count_at(ehs.update(k, e), p) == nonzero_count_at(ehs, p) - (
            if ehs[k].ve_balances@[p] != 0 {
                1int
            } else {
                0int
            }
        ) + (
            if e.ve_balances@[p] != 0 {
                1int
            } else {
                0int
            }
        ),
    decreases ehs.len(),
{
    if k == ehs.len() - 1 {
        assert(ehs.update(k, e).drop_last() =~= ehs.drop_last());
        assert(ehs.update(k, e).last() == e);
    } else {
        lemma_sum_update(ehs.drop_last(), k, e, p);
        assert(ehs.update(k, e).drop_last() =~= ehs.drop_last().update(k, e));
        assert(ehs.update(k, e).last() == ehs.last());
        assert(ehs.drop_last()[k] == ehs[k]);
    }
}

/// Law: a successful reconciliation preserves consistency. If the aggregate
/// equals the sum of all participants' records and participant `k` is
/// reconciled successfully, the rewritten aggregate equals the sum of the
/// rewritten participants' records, period by period — balances and nonzero
/// counts alike. Consistency therefore holds after any sequence of
/// successful reconciliations, by induction from a freshly created pair of
/// records.
pub proof fn lemma_sync_preserves_consistency(
    locker: Locker,
    escrow: Escrow,
    old_lh: LockerHistory,
    ehs: Seq<EscrowHistory>,
    k: int,
    new_lh: LockerHistory,
    new_eh: EscrowHistory,
    now_u: u64,
)
    requires
        0 <= k < ehs.len(),
        aggregate_consistent(old_lh, ehs),
        records_synced(locker, escrow, old_lh, ehs[k], new_lh, new_eh, now_u),
        forall|p: int| 0 <= p < 256 ==> period_error(
            locker, escrow, old_lh, ehs[k], now_u, p,
        ) is None,
    ensures
        aggregate_consistent(new_lh, ehs.update(k, new_eh)),
{
    let era = old_lh.era;
    assert forall|p: int| 0 <= p < 256 implies {
        &&& new_lh.ve_balances@[p] == balances_sum_at(ehs.update(k, new_eh), p)
        &&& new_lh.ve_counts@[p] == nonzero_count_at(ehs.update(k, new_eh), p)
    } by {
        lemma_sum_update(ehs, k, new_eh, p);
        assert(period_error(locker, escrow, old_lh, ehs[k], now_u, p) is None);
        if now_u <= period_start(era, p as u8) {
            let nb = new_balance(locker, escrow, era, p as u8).unwrap();
            assert(new_eh.ve_balances@[p] == nb);
            assert(nb >= ehs[k].ve_balances@[p]);
        } else {
            assert(new_eh.ve_balances@[p] == ehs[k].ve_balances@[p]);
        }
    }
}

/// A per-period nonzero count is never negative.
proof fn lemma_count_nonneg(ehs: Seq<EscrowHistory>, p: int)
    ensures
        0 <= nonzero_count_at(ehs, p),
    decreases ehs.len(),
{
    if ehs.len() > 0 {
        lemma_count_nonneg(ehs.drop_last(), p);
    }
}

/// Records that all anchor zero to `p` sum to zero there.
proof fn lemma_zero_count_all_zero(ehs: Seq<EscrowHistory>, p: int)
    requires
        nonzero_count_at(ehs, p) == 0,
    ensures
        balances_sum_at(ehs, p) == 0,
    decreases ehs.len(),
{
    if ehs.len() > 0 {
        lemma_count_nonneg(ehs.drop_last(), p);
        lemma_zero_count_all_zero(ehs.drop_last(), p);
    }
}

/// Law: in consistent books, a period that counts no participants holds no
/// balance.
pub proof fn lemma_zero_count_zero_balance(
    lh: LockerHistory,
    ehs: Seq<EscrowHistory>,
    p: int,
)
    requires
        aggregate_consistent(lh, ehs),
        0 <= p < 256,
        lh.ve_counts@[p] == 0,
    ensures
        lh.ve_balances@[p] == 0,
{
    lemma_zero_count_all_zero(ehs, p);
}

} // verus!
