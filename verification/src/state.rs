//! The two record shapes of the history store.
//!
//! Both records cover one era: 256 period slots, one balance per slot. The
//! aggregate record additionally counts the participants holding nonzero
//! power in each slot. Records are created zeroed and are mutated only by
//! the reconciliation algorithm.

use vstd::prelude::*;

verus! {

use crate::math::ERA_NUM_PERIODS;

/// A zeroed balance table with one slot per period of an era.
pub(crate) fn zeroed_periods() -> (r: Vec<u64>)
    ensures
        r@.len() == 256,
        forall|p: int| 0 <= p < 256 ==> r@[p] == 0,
{
    let mut r: Vec<u64> = Vec::new();
    let mut i: usize = 0;
    while i < ERA_NUM_PERIODS
        invariant
            i <= 256,
            r@.len() == i,
            forall|p: int| 0 <= p < i ==> r@[p] == 0,
        decreases 256 - i,
    {
        r.push(0);
        i += 1;
    }
    r
}

/// An element-for-element copy of a balance table.
pub(crate) fn copy_periods(src: &Vec<u64>) -> (r: Vec<u64>)
    ensures
        r@ == src@,
{
    let mut r: Vec<u64> = Vec::new();
    let mut i: usize = 0;
    while i < src.len()
        invariant
            i <= src@.len(),
            r@.len() == i,
            forall|q: int| 0 <= q < i ==> r@[q] == src@[q],
        decreases src@.len() - i,
    {
        r.push(src[i]);
        i += 1;
    }
    proof {
        assert(r@ =~= src@);
    }
    r
}

/// Aggregate record: the total voting power and number of participants with
/// nonzero power for each period of one era, across all participants of one
/// locker.
pub struct LockerHistory {
    /// Identity of the locker (the aggregate owner) being tracked.
    pub locker: u64,
    /// The era this record covers.
    pub era: u16,
    /// Per period, the sum of all participants' voting power anchored to
    /// that period's checkpoint.
    pub ve_balances: Vec<u64>,
    /// Per period, the number of participants with nonzero power there.
    pub ve_counts: Vec<u64>,
}

impl LockerHistory {
    /// Well-formedness: one slot for each of the era's periods.
    pub open spec fn wf(self) -> bool {
        self.ve_balances@.len() == 256 && self.ve_counts@.len() == 256
    }

    /// Creates the zeroed aggregate record for `(locker, era)`.
    pub fn new(locker: u64, era: u16) -> (r: Self)
        ensures
            r.wf(),
            r.locker == locker,
            r.era == era,
            forall|p: int| 0 <= p < 256 ==> r.ve_balances@[p] == 0 && r.ve_counts@[p] == 0,
    {
        Self { locker, era, ve_balances: zeroed_periods(), ve_counts: zeroed_periods() }
    }
}

impl Default for LockerHistory {
    /// The zeroed record of an unset locker and era 0.
    fn default() -> (r: Self)
        ensures
            r.wf(),
            r.locker == 0,
            r.era == 0,
            forall|p: int| 0 <= p < 256 ==> r.ve_balances@[p] == 0 && r.ve_counts@[p] == 0,
    {
        Self::new(0, 0)
    }
}

/// Participant record: one participant's voting power anchored to each
/// period checkpoint of one era. Once a period's checkpoint has elapsed,
/// its slot is frozen.
pub struct EscrowHistory {
    /// Identity of the escrow (the participant) being tracked.
    pub escrow: u64,
    /// The era this record covers.
    pub era: u16,
    /// Per period, this participant's voting power anchored to that
    /// period's checkpoint.
    pub ve_balances: Vec<u64>,
}

impl EscrowHistory {
    /// Well-formedness: one slot for each of the era's periods.
    pub open spec fn wf(self) -> bool {
        self.ve_balances@.len() == 256
    }

    /// Creates the zeroed participant record for `(escrow, era)`.
    pub fn new(escrow: u64, era: u16) -> (r: Self)
        ensures
            r.wf(),
            r.escrow == escrow,
            r.era == era,
            forall|p: int| 0 <= p < 256 ==> r.ve_balances@[p] == 0,
    {
        Self { escrow, era, ve_balances: zeroed_periods() }
    }
}

impl Default for EscrowHistory {
    /// The zeroed record of an unset escrow and era 0.
    fn default() -> (r: Self)
        ensures
            r.wf(),
            r.escrow == 0,
            r.era == 0,
            forall|p: int| 0 <= p < 256 ==> r.ve_balances@[p] == 0,
    {
        Self::new(0, 0)
    }
}

} // verus!
