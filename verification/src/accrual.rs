//! What a stream has earned at a given moment.
//!
//! A stream runs on its own clock, which is ledger time without the time spent
//! paused. Between the start and the end of the schedule the deposit accrues in
//! proportion to that clock. The cliff gates the payout and does not delay the
//! accrual: on reaching it the recipient is entitled to everything since the
//! start.

use vstd::prelude::*;

use crate::error::Error;
use crate::types::{Stream, StreamStatus};

verus! {

/// The stream's clock when the ledger reads `now`: the ledger time, held at the
/// moment of a pause, less the seconds of earlier pauses.
pub open spec fn clock(s: Stream, now: int) -> int {
    let wall = match s.paused_at {
        Some(at) => at as int,
        None => now,
    };
    if wall >= s.paused_total {
        wall - s.paused_total
    } else {
        0
    }
}

/// Seconds of the schedule that have run: never negative, never more than the
/// schedule has.
pub open spec fn seconds_run(s: Stream, now: int) -> int {
    let run = clock(s, now) - s.start_time;
    if run < 0 {
        0
    } else if run > s.span() {
        s.span()
    } else {
        run
    }
}

/// The part of the deposit that the schedule has released, rounded down.
pub open spec fn accrued(s: Stream, now: int) -> int {
    if clock(s, now) < s.cliff_time {
        0
    } else {
        (s.deposited * seconds_run(s, now)) / s.span()
    }
}

/// What the recipient has earned, paid out or not. What was paid out stays
/// earned, and a cancelled stream holds exactly what was earned on cancelling.
pub open spec fn earned(s: Stream, now: int) -> int {
    if s.status == StreamStatus::Cancelled {
        s.deposited as int
    } else if accrued(s, now) < s.withdrawn {
        s.withdrawn as int
    } else {
        accrued(s, now)
    }
}

/// What the recipient has not earned: the sender's, on cancelling.
pub open spec fn unearned(s: Stream, now: int) -> int {
    s.deposited - earned(s, now)
}

/// Whether the product that the accrual is computed from leaves `i128`.
pub open spec fn accrual_overflows(s: Stream, now: int) -> bool {
    &&& s.status != StreamStatus::Cancelled
    &&& clock(s, now) >= s.cliff_time
    &&& s.deposited * seconds_run(s, now) > i128::MAX
}

/// The stream's own clock when the ledger reads `now`.
pub fn stream_time(stream: &Stream, now: u64) -> (r: u64)
    ensures
        r == clock(*stream, now as int),
{
    let wall: u64 = match stream.paused_at {
        Some(at) => at,
        None => now,
    };
    wall.saturating_sub(stream.paused_total)
}

/// Length of the schedule in seconds.
pub fn duration(stream: &Stream) -> (r: u64)
    requires
        stream.start_time <= stream.end_time,
    ensures
        r == stream.span(),
        stream.start_time + r == stream.end_time,
{
    stream.end_time - stream.start_time
}

/// Seconds of the schedule that have run.
pub fn elapsed(stream: &Stream, now: u64) -> (r: u64)
    requires
        stream.start_time <= stream.end_time,
    ensures
        r == seconds_run(*stream, now as int),
        r <= stream.span(),
{
    let run: u64 = stream_time(stream, now).saturating_sub(stream.start_time);
    let total: u64 = duration(stream);
    if run < total {
        run
    } else {
        total
    }
}

/// Whether the payout gate is open.
pub fn cliff_reached(stream: &Stream, now: u64) -> (r: bool)
    ensures
        r == (clock(*stream, now as int) >= stream.cliff_time),
{
    stream_time(stream, now) >= stream.cliff_time
}

/// The accrued amount lies between nothing and the whole deposit.
pub proof fn lemma_accrued_bounds(s: Stream, now: int)
    requires
        s.start_time < s.end_time,
        0 <= s.deposited,
    ensures
        0 <= accrued(s, now) <= s.deposited,
        0 <= s.deposited * seconds_run(s, now),
{
    let e = seconds_run(s, now);
    let d = s.deposited as int;
    let t = s.span();
    assert(0 <= d * e) by (nonlinear_arith)
        requires
            0 <= d,
            0 <= e,
    ;
    assert(0 <= (d * e) / t <= d) by (nonlinear_arith)
        requires
            0 <= d,
            0 <= e <= t,
            0 < t,
    ;
}

/// The amounts of a valid stream stay in range at every moment: nothing is
/// earned beyond the deposit, and the accrual does not overflow.
pub proof fn lemma_accrual_fits(s: Stream, now: int)
    requires
        s.valid(),
    ensures
        !accrual_overflows(s, now),
        s.withdrawn <= earned(s, now) <= s.deposited,
{
    lemma_accrued_bounds(s, now);
    let e = seconds_run(s, now);
    let d = s.deposited as int;
    let t = s.span();
    assert(d * e <= d * t) by (nonlinear_arith)
        requires
            0 <= d,
            e <= t,
    ;
}

/// Total earned by the recipient since the start, withdrawn or not.
pub fn vested(stream: &Stream, now: u64) -> (r: Result<i128, Error>)
    requires
        stream.start_time < stream.end_time,
        0 <= stream.deposited,
    ensures
        match r {
            Ok(amount) => !accrual_overflows(*stream, now as int) && amount == earned(
                *stream,
                now as int,
            ),
            Err(e) => e == Error::Overflow && accrual_overflows(*stream, now as int),
        },
{
    proof {
        lemma_accrued_bounds(*stream, now as int);
    }
    if stream.status == StreamStatus::Cancelled {
        return Ok(stream.deposited);
    }
    let released: i128 = if cliff_reached(stream, now) {
        match stream.deposited.checked_mul(elapsed(stream, now) as i128) {
            Some(product) => product / duration(stream) as i128,
            None => return Err(Error::Overflow),
        }
    } else {
        0
    };
    if released < stream.withdrawn {
        Ok(stream.withdrawn)
    } else {
        Ok(released)
    }
}

/// Earned and not yet paid out.
pub fn withdrawable(stream: &Stream, now: u64) -> (r: Result<i128, Error>)
    requires
        stream.well_formed(),
    ensures
        match r {
            Ok(amount) => !accrual_overflows(*stream, now as int) && amount == earned(
                *stream,
                now as int,
            ) - stream.withdrawn && 0 <= amount,
            Err(e) => e == Error::Overflow && accrual_overflows(*stream, now as int),
        },
{
    match vested(stream, now) {
        Ok(amount) => {
            Ok(amount - stream.withdrawn)
        },
        Err(e) => Err(e),
    }
}

/// Not yet earned: what the sender gets back on cancelling at `now`.
pub fn refundable(stream: &Stream, now: u64) -> (r: Result<i128, Error>)
    requires
        stream.well_formed(),
    ensures
        match r {
            Ok(amount) => !accrual_overflows(*stream, now as int) && amount == unearned(
                *stream,
                now as int,
            ) && 0 <= amount,
            Err(e) => e == Error::Overflow && accrual_overflows(*stream, now as int),
        },
{
    proof {
        lemma_accrued_bounds(*stream, now as int);
    }
    match vested(stream, now) {
        Ok(amount) => Ok(stream.deposited - amount),
        Err(e) => Err(e),
    }
}

/// What the contract still holds for the stream.
pub fn liability(stream: &Stream) -> (r: i128)
    requires
        i128::MIN <= stream.deposited - stream.withdrawn <= i128::MAX,
    ensures
        r == stream.deposited - stream.withdrawn,
{
    stream.deposited - stream.withdrawn
}

} // verus!
