//! The reasons for which a call is refused.

use vstd::prelude::*;

verus! {

/// Why a contract call returned without changing anything.
#[derive(Clone, Copy, Debug, PartialEq, Eq, Structural)]
pub enum Error {
    /// No readable entry under the given stream id.
    StreamNotFound,
    /// Sender and recipient are the same address.
    SelfStream,
    /// The deposit is not positive.
    InvalidDeposit,
    /// The schedule ends at or before its start.
    InvalidTimeRange,
    /// The cliff lies outside the schedule.
    InvalidCliff,
    /// The deposit is smaller than the schedule is long, in seconds.
    DepositRateTooLow,
    /// An amount, a time or an id does not fit its type.
    Overflow,
    /// The withdrawable balance is zero.
    NothingToWithdraw,
    /// The requested amount exceeds the withdrawable balance.
    InsufficientWithdrawable,
    /// The requested amount is not positive.
    InvalidAmount,
    /// The stream is cancelled or fully paid out.
    StreamTerminated,
    /// The schedule has run to its end.
    StreamMatured,
    /// The stream was created without the cancel right.
    NotCancellable,
    /// The stream was created without the pause right.
    NotPausable,
    /// The stream is paused already.
    AlreadyPaused,
}

} // verus!
