//! Historical snapshots of decaying voting-power balances.
//!
//! Wall-clock time is bucketed into eras of 256 fixed-length periods.
//! A participant's voting power decays linearly to zero as its lockup
//! approaches expiry; for every not-yet-elapsed period checkpoint, a
//! participant record and an aggregate record store the power anchored
//! to that checkpoint.

use vstd::prelude::*;

pub mod laws;
pub mod math;
pub mod power;
pub mod state;
pub mod sync;

pub use math::{
    ERA_NUM_PERIODS, PERIOD_SECONDS, SECONDS_PER_ERA, COMMON_ERA_UNIX_TS,
    calculate_era_start_ts, calculate_period_start_ts, has_period_elapsed,
    calculate_era_and_period_of_ts, calculate_next_era_and_period,
    calculate_next_era_and_period_of_ts,
};
pub use power::calculate_voter_power_simple;
pub use state::{LockerHistory, EscrowHistory};
pub use sync::{Locker, LockerParams, Escrow, sync};

verus! {

/// Reasons a record operation or a reconciliation can fail. Every failure is
/// terminal for its invocation and leaves both records untouched.
#[derive(Clone, Copy, Debug, PartialEq, Eq, Structural)]
pub enum ErrorCode {
    /// A caller-supplied locker or escrow does not match what a record refers to.
    LockerEscrowMismatch,
    /// The two records do not refer to the same era.
    EraMismatch,
    /// A not-yet-elapsed period's recorded balance would decrease.
    EscrowBalanceDecreased,
    /// A checked add, subtract, multiply, divide or narrowing would overflow.
    ArithmeticOverflow,
}

} // verus!

