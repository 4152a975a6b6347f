//! The calls that the contract answers.
//!
//! Each call that changes something reads the ledger, decides, and either
//! returns an error with no entry changed, or performs one transition: entries
//! are written first, tokens move after that, and one event is published last.

use vstd::prelude::*;

use crate::accrual;
use crate::accrual::{clock, earned, unearned};
use crate::env::{Action, Env, Ledger};
use crate::error::Error;
use crate::events;
use crate::events::{cancelled_event, created_event, paused_event, topped_up_event, withdrawn_event};
use crate::promises::{buys, is_vested, law_vested_is_one_amount};
use crate::storage;
use crate::storage::rent;
use crate::types::{Address, Stream, StreamStatus};

verus! {

/// Continuous payment streaming: lock tokens once, have them accrue to a
/// recipient, who draws what has accrued whenever they like.
pub struct FluxoraStream;

// ---------------------------------------------------------------------------
// Transitions
// ---------------------------------------------------------------------------

/// The rent action for a stream entry at the ledger's time.
pub open spec fn rent_action(l: Ledger, stream_id: u64, stream: Stream) -> Action {
    Action::ExtendStream { stream_id, ledgers: rent(stream, l.now as int, l.max_ttl) as u32 }
}

/// The ledger after the entry of a stream was looked up for a change and the
/// authorization of `who` was asked.
pub open spec fn consulted(l: Ledger, stream_id: u64, who: Address) -> Ledger {
    l.extend(
        seq![
            rent_action(l, stream_id, l.streams[stream_id]),
            Action::RequireAuth { address: who },
        ],
    )
}

/// Why a new stream is refused, if it is.
pub open spec fn create_refusal(
    l: Ledger,
    sender: Address,
    recipient: Address,
    deposit: i128,
    start_time: u64,
    end_time: u64,
    cliff_time: u64,
) -> Option<Error> {
    if sender == recipient {
        Some(Error::SelfStream)
    } else if deposit <= 0 {
        Some(Error::InvalidDeposit)
    } else if end_time <= start_time {
        Some(Error::InvalidTimeRange)
    } else if cliff_time < start_time || cliff_time > end_time {
        Some(Error::InvalidCliff)
    } else if deposit < end_time - start_time {
        Some(Error::DepositRateTooLow)
    } else if deposit * (end_time - start_time) > i128::MAX || l.count == u64::MAX {
        Some(Error::Overflow)
    } else {
        None
    }
}

/// A new stream: active, with nothing paid out.
pub open spec fn opened(
    sender: Address,
    recipient: Address,
    token: Address,
    deposit: i128,
    start_time: u64,
    end_time: u64,
    cliff_time: u64,
    cancellable: bool,
    pausable: bool,
    transferable: bool,
) -> Stream {
    Stream {
        sender,
        recipient,
        token,
        deposited: deposit,
        withdrawn: 0,
        start_time,
        end_time,
        cliff_time,
        cancellable,
        pausable,
        transferable,
        paused_at: None,
        paused_total: 0,
        status: StreamStatus::Active,
    }
}

/// The ledger after `stream` was created.
pub open spec fn after_create(l: Ledger, stream: Stream) -> Ledger {
    let id = l.count;
    let count = (id + 1) as u64;
    Ledger { count, ..l.with_stream(id, stream) }.extend(
        seq![
            Action::RequireAuth { address: stream.sender },
            Action::SetStreamCount { count },
            Action::SaveStream { stream_id: id, stream },
            rent_action(l, id, stream),
            Action::ExtendInstance { ledgers: l.max_ttl },
            Action::Transfer {
                token: stream.token,
                from: stream.sender,
                to: l.contract,
                amount: stream.deposited,
            },
            Action::Publish { event: created_event(id, stream) },
        ],
    )
}

/// What the recipient of a stream could draw now.
pub open spec fn drawable(l: Ledger, stream_id: u64) -> int {
    earned(l.streams[stream_id], l.now as int) - l.streams[stream_id].withdrawn
}

/// Why a withdrawal is refused, if it is.
pub open spec fn withdraw_refusal(l: Ledger, stream_id: u64, amount: Option<i128>) -> Option<
    Error,
> {
    if !l.streams.contains_key(stream_id) {
        Some(Error::StreamNotFound)
    } else if drawable(l, stream_id) == 0 {
        Some(Error::NothingToWithdraw)
    } else {
        match amount {
            None => None,
            Some(requested) => if requested <= 0 {
                Some(Error::InvalidAmount)
            } else if requested > drawable(l, stream_id) {
                Some(Error::InsufficientWithdrawable)
            } else {
                None
            },
        }
    }
}

/// The amount that an accepted withdrawal pays.
pub open spec fn payout_of(l: Ledger, stream_id: u64, amount: Option<i128>) -> i128 {
    match amount {
        None => drawable(l, stream_id) as i128,
        Some(requested) => requested,
    }
}

/// The stream after `payout` was paid from it. A stream that has paid
/// everything is depleted, unless it was cancelled: that it stays.
pub open spec fn paid(stream: Stream, payout: i128) -> Stream {
    Stream {
        withdrawn: (stream.withdrawn + payout) as i128,
        status: if stream.withdrawn + payout >= stream.deposited && stream.status
            != StreamStatus::Cancelled {
            StreamStatus::Depleted
        } else {
            stream.status
        },
        ..stream
    }
}

/// The ledger after a payout left the stream as given.
pub open spec fn after_payout(l: Ledger, stream_id: u64, stream: Stream, payout: i128) -> Ledger {
    l.with_stream(stream_id, stream).extend(
        seq![
            Action::SaveStream { stream_id, stream },
            rent_action(l, stream_id, stream),
            Action::Transfer {
                token: stream.token,
                from: l.contract,
                to: stream.recipient,
                amount: payout,
            },
            Action::Publish { event: withdrawn_event(stream_id, stream, payout) },
        ],
    )
}

/// The ledger after a withdrawal of `payout`.
pub open spec fn after_withdraw(l: Ledger, stream_id: u64, payout: i128) -> Ledger {
    let before = l.streams[stream_id];
    after_payout(
        consulted(l, stream_id, before.recipient),
        stream_id,
        paid(before, payout),
        payout,
    )
}

/// Seconds by which a top-up lengthens the schedule: as many as `amount` buys
/// at the stream's rate, rounded up, so that the rate never rises.
pub open spec fn extension(stream: Stream, amount: i128) -> int {
    (amount * stream.span() + stream.deposited - 1) / (stream.deposited as int)
}

/// Whether a top-up would take an amount, the end of the schedule, or a later
/// accrual out of range.
pub open spec fn top_up_overflows(stream: Stream, amount: i128) -> bool {
    ||| amount * stream.span() > i128::MAX
    ||| stream.end_time + extension(stream, amount) > u64::MAX
    ||| stream.deposited + amount > i128::MAX
    ||| (stream.deposited + amount) * (stream.span() + extension(stream, amount)) > i128::MAX
}

/// Why a top-up is refused, if it is.
pub open spec fn top_up_refusal(l: Ledger, stream_id: u64, amount: i128) -> Option<Error> {
    if !l.streams.contains_key(stream_id) {
        Some(Error::StreamNotFound)
    } else if amount <= 0 {
        Some(Error::InvalidAmount)
    } else if !l.streams[stream_id].is_open() {
        Some(Error::StreamTerminated)
    } else if clock(l.streams[stream_id], l.now as int) >= l.streams[stream_id].end_time {
        Some(Error::StreamMatured)
    } else if top_up_overflows(l.streams[stream_id], amount) {
        Some(Error::Overflow)
    } else {
        None
    }
}

/// The stream after `amount` was added to it.
pub open spec fn grown(stream: Stream, amount: i128) -> Stream {
    Stream {
        deposited: (stream.deposited + amount) as i128,
        end_time: (stream.end_time + extension(stream, amount)) as u64,
        ..stream
    }
}

/// The ledger after a top-up.
pub open spec fn after_top_up(l: Ledger, stream_id: u64, amount: i128) -> Ledger {
    let stream = grown(l.streams[stream_id], amount);
    consulted(l, stream_id, stream.sender).with_stream(stream_id, stream).extend(
        seq![
            Action::SaveStream { stream_id, stream },
            rent_action(l, stream_id, stream),
            Action::Transfer {
                token: stream.token,
                from: stream.sender,
                to: l.contract,
                amount,
            },
            Action::Publish { event: topped_up_event(stream_id, stream, amount) },
        ],
    )
}

/// Why a pause is refused, if it is.
pub open spec fn pause_refusal(l: Ledger, stream_id: u64) -> Option<Error> {
    if !l.streams.contains_key(stream_id) {
        Some(Error::StreamNotFound)
    } else if !l.streams[stream_id].pausable {
        Some(Error::NotPausable)
    } else if !l.streams[stream_id].is_open() {
        Some(Error::StreamTerminated)
    } else if l.streams[stream_id].status == StreamStatus::Paused {
        Some(Error::AlreadyPaused)
    } else {
        None
    }
}

/// The stream after its accrual was stopped at `now`.
pub open spec fn frozen(stream: Stream, now: u64) -> Stream {
    Stream { paused_at: Some(now), status: StreamStatus::Paused, ..stream }
}

/// The ledger after a pause.
pub open spec fn after_pause(l: Ledger, stream_id: u64) -> Ledger {
    let stream = frozen(l.streams[stream_id], l.now);
    consulted(l, stream_id, stream.sender).with_stream(stream_id, stream).extend(
        seq![
            Action::SaveStream { stream_id, stream },
            rent_action(l, stream_id, stream),
            Action::Publish { event: paused_event(stream_id, stream, l.now) },
        ],
    )
}

/// Why a cancellation is refused, if it is.
pub open spec fn cancel_refusal(l: Ledger, stream_id: u64) -> Option<Error> {
    if !l.streams.contains_key(stream_id) {
        Some(Error::StreamNotFound)
    } else if !l.streams[stream_id].cancellable {
        Some(Error::NotCancellable)
    } else if !l.streams[stream_id].is_open() {
        Some(Error::StreamTerminated)
    } else {
        None
    }
}

/// What a cancellation at the ledger's time gives back to the sender.
pub open spec fn refund_of(l: Ledger, stream_id: u64) -> i128 {
    unearned(l.streams[stream_id], l.now as int) as i128
}

/// The stream after it was cancelled at `now`: only what was earned remains.
pub open spec fn ended(stream: Stream, now: u64) -> Stream {
    Stream {
        deposited: earned(stream, now as int) as i128,
        status: StreamStatus::Cancelled,
        ..stream
    }
}

/// The ledger after a cancellation. Tokens move only where there is something
/// to give back.
pub open spec fn after_cancel(l: Ledger, stream_id: u64) -> Ledger {
    let stream = ended(l.streams[stream_id], l.now);
    let refund = refund_of(l, stream_id);
    let written = seq![
        Action::SaveStream { stream_id, stream },
        rent_action(l, stream_id, stream),
    ];
    let moved = if refund > 0 {
        seq![
            Action::Transfer {
                token: stream.token,
                from: l.contract,
                to: stream.sender,
                amount: refund,
            },
        ]
    } else {
        seq![]
    };
    let announced = seq![Action::Publish { event: cancelled_event(stream_id, stream, refund) }];
    consulted(l, stream_id, stream.sender).with_stream(stream_id, stream).extend(
        written + moved + announced,
    )
}

/// Rounding up loses less than one part: the quotient covers the dividend, and
/// one less would not.
pub proof fn lemma_round_up(n: int, d: int)
    requires
        0 <= n,
        0 < d,
    ensures
        0 <= (n + d - 1) / d,
        n <= d * ((n + d - 1) / d) < n + d,
        (n + d - 1) / d == if n % d == 0 {
            n / d
        } else {
            n / d + 1
        },
{
    let q = (n + d - 1) / d;
    vstd::arithmetic::div_mod::lemma_fundamental_div_mod(n + d - 1, d);
    vstd::arithmetic::div_mod::lemma_fundamental_div_mod(n, d);
    let k = n / d;
    let r = n % d;
    assert(0 <= q) by (nonlinear_arith)
        requires
            0 <= n,
            0 < d,
            q == (n + d - 1) / d,
    ;
    if r == 0 {
        assert(k * d == d * k) by (nonlinear_arith);
        vstd::arithmetic::div_mod::lemma_fundamental_div_mod_converse(n + d - 1, d, k, d - 1);
    } else {
        assert((k + 1) * d == d * k + d) by (nonlinear_arith);
        vstd::arithmetic::div_mod::lemma_fundamental_div_mod_converse(n + d - 1, d, k + 1, r - 1);
    }
}

/// A top-up that fits leaves a valid stream.
pub proof fn lemma_grown_valid(stream: Stream, amount: i128)
    requires
        stream.valid(),
        stream.is_open(),
        0 < amount,
        !top_up_overflows(stream, amount),
    ensures
        grown(stream, amount).valid(),
        0 <= extension(stream, amount) <= amount,
{
    let d = stream.deposited as int;
    let t = stream.span();
    let a = amount as int;
    let x = extension(stream, amount);
    assert(0 <= a * t <= a * d) by (nonlinear_arith)
        requires
            0 <= a,
            0 <= t <= d,
    ;
    lemma_round_up(a * t, d);
    assert(x <= a) by (nonlinear_arith)
        requires
            d * x < a * t + d,
            a * t <= a * d,
            0 < d,
    ;
}

/// A cancelled stream is valid.
pub proof fn lemma_ended_valid(stream: Stream, now: u64)
    requires
        stream.valid(),
    ensures
        ended(stream, now).valid(),
{
    accrual::lemma_accrual_fits(stream, now as int);
    let d = stream.deposited as int;
    let v = earned(stream, now as int);
    let t = stream.span();
    assert(v * t <= d * t) by (nonlinear_arith)
        requires
            v <= d,
            0 <= t,
    ;
}

impl FluxoraStream {
    // -----------------------------------------------------------------------
    // Lifecycle
    // -----------------------------------------------------------------------

    /// Create a stream and move `deposit` from `sender` into the contract's
    /// pooled balance. Returns the new stream id.
    ///
    /// Tokens accrue linearly from `start_time`, which may be in the past, to
    /// `end_time`. `cliff_time` gates the payout and does not delay accrual;
    /// pass `cliff_time == start_time` for no cliff.
    #[allow(clippy::too_many_arguments)]
    pub fn create_stream(
        env: &mut Env,
        sender: Address,
        recipient: Address,
        token: Address,
        deposit: i128,
        start_time: u64,
        end_time: u64,
        cliff_time: u64,
        cancellable: bool,
        pausable: bool,
        transferable: bool,
    ) -> (r: Result<u64, Error>)
        ensures
            old(env)@.wf() ==> final(env)@.wf(),
            match create_refusal(
                old(env)@,
                sender,
                recipient,
                deposit,
                start_time,
                end_time,
                cliff_time,
            ) {
                Some(e) => {
                    &&& r == Err::<u64, Error>(e)
                    &&& final(env)@ == old(env)@.push(Action::RequireAuth { address: sender })
                },
                None => {
                    &&& r == Ok::<u64, Error>(old(env)@.count)
                    &&& final(env)@ == after_create(
                        old(env)@,
                        opened(
                            sender,
                            recipient,
                            token,
                            deposit,
                            start_time,
                            end_time,
                            cliff_time,
                            cancellable,
                            pausable,
                            transferable,
                        ),
                    )
                },
            },
            match r {
                Ok(id) => {
                    &&& id == old(env)@.count
                    &&& final(env)@.count == id + 1
                    &&& final(env)@.streams == old(env)@.streams.insert(
                        id,
                        (Stream {
                            sender,
                            recipient,
                            token,
                            deposited: deposit,
                            withdrawn: 0,
                            start_time,
                            end_time,
                            cliff_time,
                            cancellable,
                            pausable,
                            transferable,
                            paused_at: None,
                            paused_total: 0,
                            status: StreamStatus::Active,
                        }),
                    )
                },
                Err(_) => final(env)@.count == old(env)@.count && final(env)@.streams
                    == old(env)@.streams,
            },
    {
        env.require_auth(sender);

        if sender == recipient {
            return Err(Error::SelfStream);
        }
        if deposit <= 0 {
            return Err(Error::InvalidDeposit);
        }
        if end_time <= start_time {
            return Err(Error::InvalidTimeRange);
        }
        if cliff_time < start_time || cliff_time > end_time {
            return Err(Error::InvalidCliff);
        }
        let total_duration: u64 = end_time - start_time;

        // Below one unit per second the recipient would accrue nothing until
        // late in the schedule.
        if deposit < total_duration as i128 {
            return Err(Error::DepositRateTooLow);
        }
        // No later accrual multiplies the deposit by more than this.
        proof {
            assert(deposit * total_duration >= 0) by (nonlinear_arith)
                requires
                    deposit >= 0,
            ;
        }
        if deposit.checked_mul(total_duration as i128).is_none() {
            return Err(Error::Overflow);
        }
        let stream_id: u64 = match storage::next_stream_id(env) {
            Ok(id) => id,
            Err(e) => return Err(e),
        };
        let stream = Stream {
            sender,
            recipient,
            token,
            deposited: deposit,
            withdrawn: 0,
            start_time,
            end_time,
            cliff_time,
            cancellable,
            pausable,
            transferable,
            paused_at: None,
            paused_total: 0,
            status: StreamStatus::Active,
        };

        storage::save_stream(env, stream_id, &stream);
        storage::extend_instance(env);

        let contract = env.current_contract_address();
        env.transfer(token, sender, contract, deposit);

        events::stream_created(env, stream_id, &stream);
        proof {
            assert(env@ =~= after_create(old(env)@, stream));
        }
        Ok(stream_id)
    }

    /// Withdraw accrued tokens to the recipient. `amount == None` withdraws the
    /// full withdrawable balance. Returns the amount transferred.
    ///
    /// Works while the stream is paused: pausing stops the accrual and does not
    /// freeze what was earned.
    pub fn withdraw(env: &mut Env, stream_id: u64, amount: Option<i128>) -> (r: Result<i128, Error>)
        requires
            old(env)@.sound_at(stream_id),
        ensures
            final(env)@.sound_at(stream_id),
            old(env)@.wf() ==> final(env)@.wf(),
            match withdraw_refusal(old(env)@, stream_id, amount) {
                Some(e) => {
                    &&& r == Err::<i128, Error>(e)
                    &&& final(env)@ == if e == Error::StreamNotFound {
                        old(env)@
                    } else {
                        consulted(old(env)@, stream_id, old(env)@.streams[stream_id].recipient)
                    }
                },
                None => {
                    &&& r == Ok::<i128, Error>(payout_of(old(env)@, stream_id, amount))
                    &&& final(env)@ == after_withdraw(
                        old(env)@,
                        stream_id,
                        payout_of(old(env)@, stream_id, amount),
                    )
                },
            },
            match r {
                Ok(payout) => {
                    let before = old(env)@.streams[stream_id];
                    let after = final(env)@.streams[stream_id];
                    &&& amount is Some ==> payout == amount->0
                    &&& amount is None ==> is_vested(
                        before,
                        old(env)@.now as int,
                        before.withdrawn + payout,
                    )
                    &&& after == (Stream {
                        withdrawn: after.withdrawn,
                        status: after.status,
                        ..before
                    })
                    &&& after.withdrawn == before.withdrawn + payout
                },
                Err(_) => final(env)@.streams == old(env)@.streams,
            },
    {
        let mut stream = match storage::load_stream(env, stream_id) {
            Ok(stream) => stream,
            Err(e) => return Err(e),
        };
        env.require_auth(stream.recipient);

        let now: u64 = env.timestamp();
        proof {
            accrual::lemma_accrual_fits(stream, now as int);
            law_vested_is_one_amount(stream, now as int, earned(stream, now as int));
            assert(env@ =~= consulted(old(env)@, stream_id, stream.recipient));
        }
        let available: i128 = match accrual::withdrawable(&stream, now) {
            Ok(available) => available,
            Err(e) => return Err(e),
        };
        if available == 0 {
            return Err(Error::NothingToWithdraw);
        }
        let payout: i128 = match amount {
            None => available,
            Some(requested) => {
                if requested <= 0 {
                    return Err(Error::InvalidAmount);
                }
                if requested > available {
                    return Err(Error::InsufficientWithdrawable);
                }
                requested
            },
        };

        match Self::apply_withdrawal(env, stream_id, &mut stream, payout) {
            Ok(()) => Ok(payout),
            Err(e) => Err(e),
        }
    }

    /// Add `amount` to an open stream that has not run to its end. The rate
    /// that the recipient agreed to stays and the end of the schedule moves.
    pub fn top_up(env: &mut Env, stream_id: u64, amount: i128) -> (r: Result<(), Error>)
        requires
            old(env)@.sound_at(stream_id),
        ensures
            final(env)@.sound_at(stream_id),
            old(env)@.wf() ==> final(env)@.wf(),
            match top_up_refusal(old(env)@, stream_id, amount) {
                Some(e) => {
                    &&& r == Err::<(), Error>(e)
                    &&& final(env)@ == if e == Error::StreamNotFound {
                        old(env)@
                    } else {
                        consulted(old(env)@, stream_id, old(env)@.streams[stream_id].sender)
                    }
                },
                None => {
                    &&& r == Ok::<(), Error>(())
                    &&& final(env)@ == after_top_up(old(env)@, stream_id, amount)
                },
            },
            match r {
                Ok(()) => {
                    let before = old(env)@.streams[stream_id];
                    let after = final(env)@.streams[stream_id];
                    &&& after == (Stream {
                        deposited: after.deposited,
                        end_time: after.end_time,
                        ..before
                    })
                    &&& after.deposited == before.deposited + amount
                    &&& buys(before, amount as int, after.end_time - before.end_time)
                },
                Err(_) => final(env)@.streams == old(env)@.streams,
            },
    {
        let mut stream = match storage::load_stream(env, stream_id) {
            Ok(stream) => stream,
            Err(e) => return Err(e),
        };
        env.require_auth(stream.sender);
        proof {
            assert(env@ =~= consulted(old(env)@, stream_id, stream.sender));
        }
        let ghost before = stream;

        if amount <= 0 {
            return Err(Error::InvalidAmount);
        }
        match stream.status {
            StreamStatus::Cancelled | StreamStatus::Depleted => {
                return Err(Error::StreamTerminated);
            },
            StreamStatus::Active | StreamStatus::Paused => {},
        }
        // New funds would be withdrawable at once.
        if accrual::stream_time(&stream, env.timestamp()) >= stream.end_time {
            return Err(Error::StreamMatured);
        }
        let total_duration: u64 = accrual::duration(&stream);
        proof {
            assert(amount * total_duration >= 0) by (nonlinear_arith)
                requires
                    amount >= 0,
            ;
            lemma_round_up(amount * total_duration, before.deposited as int);
        }
        let scaled: i128 = match amount.checked_mul(total_duration as i128) {
            Some(scaled) => scaled,
            None => return Err(Error::Overflow),
        };
        let whole: i128 = scaled / stream.deposited;
        let longer: i128 = if scaled % stream.deposited == 0 {
            whole
        } else {
            proof {
                assert(whole < i128::MAX) by (nonlinear_arith)
                    requires
                        whole == scaled / before.deposited,
                        scaled % before.deposited != 0,
                        0 <= scaled <= i128::MAX,
                        0 < before.deposited,
                ;
            }
            whole + 1
        };
        if longer > u64::MAX as i128 {
            return Err(Error::Overflow);
        }
        stream.end_time = match stream.end_time.checked_add(longer as u64) {
            Some(end_time) => end_time,
            None => return Err(Error::Overflow),
        };
        stream.deposited = match stream.deposited.checked_add(amount) {
            Some(deposited) => deposited,
            None => return Err(Error::Overflow),
        };
        let new_duration: u64 = stream.end_time - stream.start_time;
        proof {
            assert(stream.deposited * new_duration >= 0) by (nonlinear_arith)
                requires
                    stream.deposited >= 0,
            ;
        }
        if stream.deposited.checked_mul(new_duration as i128).is_none() {
            return Err(Error::Overflow);
        }
        proof {
            lemma_grown_valid(before, amount);
            let d = before.deposited as int;
            let x = extension(before, amount);
            assert(d * (x - 1) == d * x - d) by (nonlinear_arith);
        }
        storage::save_stream(env, stream_id, &stream);

        let contract = env.current_contract_address();
        env.transfer(stream.token, stream.sender, contract, amount);

        events::topped_up(env, stream_id, &stream, amount);
        proof {
            assert(env@ =~= after_top_up(old(env)@, stream_id, amount));
        }
        Ok(())
    }

    /// Stop the accrual. What was earned can still be withdrawn.
    pub fn pause(env: &mut Env, stream_id: u64) -> (r: Result<(), Error>)
        ensures
            old(env)@.wf() ==> final(env)@.wf(),
            match pause_refusal(old(env)@, stream_id) {
                Some(e) => {
                    &&& r == Err::<(), Error>(e)
                    &&& final(env)@ == if e == Error::StreamNotFound {
                        old(env)@
                    } else {
                        consulted(old(env)@, stream_id, old(env)@.streams[stream_id].sender)
                    }
                },
                None => {
                    &&& r == Ok::<(), Error>(())
                    &&& final(env)@ == after_pause(old(env)@, stream_id)
                },
            },
            match r {
                Ok(()) => final(env)@.streams[stream_id] == (Stream {
                    paused_at: Some(old(env)@.now),
                    status: StreamStatus::Paused,
                    ..old(env)@.streams[stream_id]
                }),
                Err(_) => final(env)@.streams == old(env)@.streams,
            },
    {
        let mut stream = match storage::load_stream(env, stream_id) {
            Ok(stream) => stream,
            Err(e) => return Err(e),
        };
        env.require_auth(stream.sender);
        proof {
            assert(env@ =~= consulted(old(env)@, stream_id, stream.sender));
        }

        if !stream.pausable {
            return Err(Error::NotPausable);
        }
        match stream.status {
            StreamStatus::Cancelled | StreamStatus::Depleted => {
                return Err(Error::StreamTerminated);
            },
            StreamStatus::Paused => {
                return Err(Error::AlreadyPaused);
            },
            StreamStatus::Active => {},
        }
        let now: u64 = env.timestamp();
        stream.paused_at = Some(now);
        stream.status = StreamStatus::Paused;
        storage::save_stream(env, stream_id, &stream);

        events::stream_paused(env, stream_id, &stream, now);
        proof {
            assert(env@ =~= after_pause(old(env)@, stream_id));
        }
        Ok(())
    }

    /// End the stream. What was not earned goes back to the sender; what was
    /// earned stays withdrawable. Returns the amount given back.
    pub fn cancel(env: &mut Env, stream_id: u64) -> (r: Result<i128, Error>)
        requires
            old(env)@.sound_at(stream_id),
        ensures
            final(env)@.sound_at(stream_id),
            old(env)@.wf() ==> final(env)@.wf(),
            match cancel_refusal(old(env)@, stream_id) {
                Some(e) => {
                    &&& r == Err::<i128, Error>(e)
                    &&& final(env)@ == if e == Error::StreamNotFound {
                        old(env)@
                    } else {
                        consulted(old(env)@, stream_id, old(env)@.streams[stream_id].sender)
                    }
                },
                None => {
                    &&& r == Ok::<i128, Error>(refund_of(old(env)@, stream_id))
                    &&& final(env)@ == after_cancel(old(env)@, stream_id)
                },
            },
            match r {
                Ok(refund) => {
                    let before = old(env)@.streams[stream_id];
                    let after = final(env)@.streams[stream_id];
                    &&& is_vested(before, old(env)@.now as int, before.deposited - refund)
                    &&& after == (Stream {
                        deposited: after.deposited,
                        status: StreamStatus::Cancelled,
                        ..before
                    })
                    &&& after.deposited == before.deposited - refund
                },
                Err(_) => final(env)@.streams == old(env)@.streams,
            },
    {
        let mut stream = match storage::load_stream(env, stream_id) {
            Ok(stream) => stream,
            Err(e) => return Err(e),
        };
        env.require_auth(stream.sender);
        proof {
            assert(env@ =~= consulted(old(env)@, stream_id, stream.sender));
        }

        if !stream.cancellable {
            return Err(Error::NotCancellable);
        }
        match stream.status {
            StreamStatus::Cancelled | StreamStatus::Depleted => {
                return Err(Error::StreamTerminated);
            },
            StreamStatus::Active | StreamStatus::Paused => {},
        }
        let now: u64 = env.timestamp();
        proof {
            accrual::lemma_accrual_fits(stream, now as int);
            law_vested_is_one_amount(stream, now as int, earned(stream, now as int));
            lemma_ended_valid(stream, now);
        }
        let refund: i128 = match accrual::refundable(&stream, now) {
            Ok(refund) => refund,
            Err(e) => return Err(e),
        };
        stream.deposited = stream.deposited - refund;
        stream.status = StreamStatus::Cancelled;
        storage::save_stream(env, stream_id, &stream);

        if refund > 0 {
            let contract = env.current_contract_address();
            env.transfer(stream.token, contract, stream.sender, refund);
        }
        events::stream_cancelled(env, stream_id, &stream, refund);
        proof {
            assert(env@ =~= after_cancel(old(env)@, stream_id));
        }
        Ok(refund)
    }

    // -----------------------------------------------------------------------
    // Views
    // -----------------------------------------------------------------------

    /// Full stream state. Views buy no rent.
    pub fn get_stream(env: &Env, stream_id: u64) -> (r: Result<Stream, Error>)
        ensures
            match r {
                Ok(stream) => env@.streams.contains_key(stream_id) && stream
                    == env@.streams[stream_id],
                Err(e) => !env@.streams.contains_key(stream_id) && e == Error::StreamNotFound,
            },
    {
        storage::peek_stream(env, stream_id)
    }

    /// Amount the recipient could withdraw right now.
    pub fn withdrawable_of(env: &Env, stream_id: u64) -> (r: Result<i128, Error>)
        requires
            env@.sound_at(stream_id),
        ensures
            match r {
                Ok(amount) => {
                    &&& env@.streams.contains_key(stream_id)
                    &&& amount == drawable(env@, stream_id)
                    &&& is_vested(
                        env@.streams[stream_id],
                        env@.now as int,
                        env@.streams[stream_id].withdrawn + amount,
                    )
                },
                Err(e) => !env@.streams.contains_key(stream_id) && e == Error::StreamNotFound,
            },
    {
        match storage::peek_stream(env, stream_id) {
            Ok(stream) => {
                proof {
                    accrual::lemma_accrual_fits(stream, env@.now as int);
                    law_vested_is_one_amount(
                        stream,
                        env@.now as int,
                        earned(stream, env@.now as int),
                    );
                }
                accrual::withdrawable(&stream, env.timestamp())
            },
            Err(e) => Err(e),
        }
    }

    /// Total earned by the recipient since the start, withdrawn or not.
    pub fn vested_of(env: &Env, stream_id: u64) -> (r: Result<i128, Error>)
        requires
            env@.sound_at(stream_id),
        ensures
            match r {
                Ok(amount) => {
                    &&& env@.streams.contains_key(stream_id)
                    &&& amount == earned(env@.streams[stream_id], env@.now as int)
                    &&& is_vested(env@.streams[stream_id], env@.now as int, amount as int)
                },
                Err(e) => !env@.streams.contains_key(stream_id) && e == Error::StreamNotFound,
            },
    {
        match storage::peek_stream(env, stream_id) {
            Ok(stream) => {
                proof {
                    accrual::lemma_accrual_fits(stream, env@.now as int);
                    law_vested_is_one_amount(
                        stream,
                        env@.now as int,
                        earned(stream, env@.now as int),
                    );
                }
                accrual::vested(&stream, env.timestamp())
            },
            Err(e) => Err(e),
        }
    }

    /// Amount that would be refunded to the sender on cancelling right now.
    pub fn refundable_of(env: &Env, stream_id: u64) -> (r: Result<i128, Error>)
        requires
            env@.sound_at(stream_id),
        ensures
            match r {
                Ok(amount) => {
                    &&& env@.streams.contains_key(stream_id)
                    &&& amount == unearned(env@.streams[stream_id], env@.now as int)
                    &&& is_vested(
                        env@.streams[stream_id],
                        env@.now as int,
                        env@.streams[stream_id].deposited - amount,
                    )
                },
                Err(e) => !env@.streams.contains_key(stream_id) && e == Error::StreamNotFound,
            },
    {
        match storage::peek_stream(env, stream_id) {
            Ok(stream) => {
                proof {
                    accrual::lemma_accrual_fits(stream, env@.now as int);
                    law_vested_is_one_amount(
                        stream,
                        env@.now as int,
                        earned(stream, env@.now as int),
                    );
                }
                accrual::refundable(&stream, env.timestamp())
            },
            Err(e) => Err(e),
        }
    }

    /// Number of streams ever created. Ids run `0..stream_count()`.
    pub fn stream_count(env: &Env) -> (count: u64)
        ensures
            count == env@.count,
    {
        storage::stream_count(env)
    }

    /// Whether a stream entry can be read now. An id below the count without an
    /// entry belongs to a stream that was archived and needs restoring.
    pub fn stream_exists(env: &Env, stream_id: u64) -> (r: bool)
        ensures
            r == env@.streams.contains_key(stream_id),
    {
        storage::stream_exists(env, stream_id)
    }

    // -----------------------------------------------------------------------
    // Internal
    // -----------------------------------------------------------------------

    /// The tail of a withdrawal: update the accounting, store it, pay out,
    /// announce. The entry is written before the tokens move.
    fn apply_withdrawal(env: &mut Env, stream_id: u64, stream: &mut Stream, payout: i128) -> (r:
        Result<(), Error>)
        ensures
            match r {
                Ok(()) => {
                    &&& i128::MIN <= old(stream).withdrawn + payout <= i128::MAX
                    &&& *final(stream) == paid(*old(stream), payout)
                    &&& final(env)@ == after_payout(old(env)@, stream_id, *final(stream), payout)
                },
                Err(e) => {
                    &&& !(i128::MIN <= old(stream).withdrawn + payout <= i128::MAX)
                    &&& e == Error::Overflow
                    &&& *final(stream) == *old(stream)
                    &&& final(env)@ == old(env)@
                },
            },
    {
        stream.withdrawn = match stream.withdrawn.checked_add(payout) {
            Some(total) => total,
            None => return Err(Error::Overflow),
        };

        // A cancelled stream that is drained stays visibly cancelled.
        if stream.withdrawn >= stream.deposited && stream.status != StreamStatus::Cancelled {
            stream.status = StreamStatus::Depleted;
        }
        let token = stream.token;
        let recipient = stream.recipient;
        storage::save_stream(env, stream_id, stream);

        let contract = env.current_contract_address();
        env.transfer(token, contract, recipient, payout);

        events::withdrawn(env, stream_id, stream, payout);
        proof {
            assert(env@ =~= after_payout(old(env)@, stream_id, *stream, payout));
        }
        Ok(())
    }
}

} // verus!
