//! What each call does, in plain figures.
//!
//! The laws here say what comes out of a call in terms of what went into it: the
//! arguments, the fields of the stream, the ledger time. They name no
//! intermediate quantity of the computation, and where a result is rounded they
//! say which whole number it is by what it must satisfy.

use vstd::prelude::*;

use crate::accrual::{
    accrual_overflows, accrued, clock, earned, lemma_accrual_fits, seconds_run, unearned,
};
use crate::contract::{
    after_cancel, after_create, after_pause, after_top_up, after_withdraw, cancel_refusal,
    consulted, create_refusal, drawable, extension, lemma_grown_valid, lemma_round_up, opened,
    pause_refusal, payout_of, refund_of, top_up_refusal, withdraw_refusal,
};
use crate::delegation::{delegation_refusal, ContractError};
use crate::env::{nonce_of, Action, Ledger};
use crate::error::Error;
use crate::events::{
    cancelled_event, created_event, paused_event, topped_up_event, withdrawn_event, Event,
    StreamCancelled, StreamCreated, StreamPaused, ToppedUp, Withdrawn,
};
use crate::laws::{asked, lemma_pool_concat, lemma_pool_of_one, outcome, pool, target, Call};
use crate::storage::{rent, renewed, saved};
use crate::types::{Address, Stream, StreamStatus};

verus! {

// ---------------------------------------------------------------------------
// Time
// ---------------------------------------------------------------------------

/// The stream's clock is ledger time: it stands still from the moment of a
/// pause, it is behind by the seconds of earlier pauses, and by nothing else.
pub proof fn law_the_clock_is_ledger_time(s: Stream, now: int)
    ensures
        s.paused_at is None && now >= s.paused_total ==> clock(s, now) + s.paused_total == now,
        s.paused_at is None && now < s.paused_total ==> clock(s, now) == 0,
        s.paused_at is Some && s.paused_at->0 >= s.paused_total ==> clock(s, now) + s.paused_total
            == s.paused_at->0,
        s.paused_at is Some && s.paused_at->0 < s.paused_total ==> clock(s, now) == 0,
{
}

/// The ledger time up to which a stream has accrued: the present, or the moment
/// of the pause that it is in.
pub open spec fn accrued_until(s: Stream, now: int) -> int {
    match s.paused_at {
        Some(at) => at as int,
        None => now,
    }
}

/// Of a schedule, nothing has run before its start, all of it from its end on,
/// and in between every second since the start that was not spent paused.
pub proof fn law_every_second_of_the_schedule_counts(s: Stream, now: int)
    requires
        s.start_time <= s.end_time,
    ensures
        s.span() == s.end_time - s.start_time,
        ({
            let wall = accrued_until(s, now);
            let ran = seconds_run(s, now);
            &&& wall - s.paused_total <= s.start_time ==> ran == 0
            &&& wall - s.paused_total >= s.end_time ==> ran == s.end_time - s.start_time
            &&& s.start_time <= wall - s.paused_total <= s.end_time ==> s.start_time + ran
                + s.paused_total == wall
        }),
{
}

/// A stream that was never paused accrues in proportion to ledger time:
/// nothing before the cliff, everything from the end on, and in between the
/// largest whole amount that is not above the deposit's share for the seconds
/// since the start. What was paid out counts as earned.
pub proof fn law_accrual_follows_ledger_time(s: Stream, now: int)
    requires
        s.start_time < s.end_time,
        0 <= s.deposited,
        s.paused_at is None,
        s.paused_total == 0,
    ensures
        now < s.cliff_time || now <= s.start_time ==> accrued(s, now) == 0,
        now >= s.cliff_time && now >= s.end_time ==> accrued(s, now) == s.deposited,
        now >= s.cliff_time && s.start_time <= now <= s.end_time ==> accrued(s, now) * (s.end_time
            - s.start_time) <= s.deposited * (now - s.start_time) < (accrued(s, now) + 1) * (
        s.end_time - s.start_time),
        s.status != StreamStatus::Cancelled ==> {
            &&& earned(s, now) >= s.withdrawn && earned(s, now) >= accrued(s, now)
            &&& earned(s, now) == s.withdrawn || earned(s, now) == accrued(s, now)
        },
        s.status == StreamStatus::Cancelled ==> earned(s, now) == s.deposited,
{
    let d = s.deposited as int;
    let t = s.end_time - s.start_time;
    let e = seconds_run(s, now);
    let n = d * e;
    vstd::arithmetic::div_mod::lemma_fundamental_div_mod(n, t);
    let q = n / t;
    assert(q * t == t * q && (q + 1) * t == t * q + t) by (nonlinear_arith);
    vstd::arithmetic::div_mod::lemma_div_multiples_vanish(d, t);
    assert(d * t == t * d) by (nonlinear_arith);
    assert(d * 0 == 0) by (nonlinear_arith);
    vstd::arithmetic::div_mod::lemma_div_of0(t);
    crate::accrual::lemma_accrued_bounds(s, now);
}

/// Pauses shift the schedule and change nothing else: after pauses of `total`
/// seconds a running stream has earned what it would have earned that much
/// earlier without them, and a paused stream what it had earned on pausing.
pub proof fn law_pauses_shift_the_schedule(s: Stream, total: u64, now: u64)
    requires
        s.paused_at is None,
    ensures
        earned(Stream { paused_total: total, ..s }, now + total) == earned(
            Stream { paused_total: 0, ..s },
            now as int,
        ),
        forall|later: int| #[trigger]
            earned(Stream { paused_at: Some(now), ..s }, later) == earned(s, now as int),
{
}

/// `v` is what the recipient has earned at ledger time `now`, told by what it
/// must satisfy: of a cancelled stream all that it holds, otherwise the larger
/// of what was paid out and the share of the deposit for the part of the
/// schedule that has run, rounded down, of which nothing counts before the
/// cliff.
pub open spec fn is_vested(s: Stream, now: int, v: int) -> bool {
    let time = accrued_until(s, now) - s.paused_total;
    let length = s.end_time - s.start_time;
    let ran = if time < s.cliff_time || time < s.start_time {
        0
    } else if time >= s.end_time {
        length
    } else {
        time - s.start_time
    };
    if s.status == StreamStatus::Cancelled {
        v == s.deposited
    } else {
        &&& s.withdrawn <= v
        &&& v == s.withdrawn || v * length <= s.deposited * ran
        &&& s.deposited * ran < (v + 1) * length
    }
}

/// What the recipient has earned is the one amount that satisfies `is_vested`,
/// and what the sender would get back is the rest of the deposit.
pub proof fn law_vested_is_one_amount(s: Stream, now: int, v: int)
    requires
        s.start_time < s.end_time,
        0 <= s.deposited,
    ensures
        is_vested(s, now, earned(s, now)),
        is_vested(s, now, v) ==> v == earned(s, now),
        is_vested(s, now, v) ==> s.deposited - v == unearned(s, now),
{
    let d = s.deposited as int;
    let t = s.end_time - s.start_time;
    let e = seconds_run(s, now);
    let n = d * e;
    let q = n / t;
    let w = earned(s, now);
    vstd::arithmetic::div_mod::lemma_fundamental_div_mod(n, t);
    assert(q * t == t * q && (q + 1) * t == t * q + t) by (nonlinear_arith);
    assert(d * 0 == 0 && 0 * t == 0) by (nonlinear_arith);
    vstd::arithmetic::div_mod::lemma_div_of0(t);
    assert(q <= w ==> (q + 1) * t <= (w + 1) * t) by (nonlinear_arith)
        requires
            0 < t,
    ;
    crate::accrual::lemma_accrued_bounds(s, now);
    assert(0 <= w ==> 0 < (w + 1) * t) by (nonlinear_arith)
        requires
            0 < t,
    ;
    if v < w {
        assert((v + 1) * t <= w * t) by (nonlinear_arith)
            requires
                v + 1 <= w,
                0 < t,
        ;
    } else if w < v {
        assert((w + 1) * t <= v * t) by (nonlinear_arith)
            requires
                w + 1 <= v,
                0 < t,
        ;
    }
}

/// Accrual overflows exactly where the deposit times the seconds run of the
/// schedule, past the cliff, leaves the range of an amount; so never where the
/// deposit times the whole schedule stays in it.
pub proof fn law_when_accrual_overflows(s: Stream, now: int)
    requires
        s.start_time < s.end_time,
        0 <= s.deposited,
    ensures
        ({
            let time = accrued_until(s, now) - s.paused_total;
            accrual_overflows(s, now) <==> {
                &&& s.status != StreamStatus::Cancelled
                &&& time >= s.cliff_time
                &&& time > s.start_time
                &&& if time >= s.end_time {
                    s.deposited * (s.end_time - s.start_time) > i128::MAX
                } else {
                    s.deposited * (time - s.start_time) > i128::MAX
                }
            }
        }),
        s.deposited * (s.end_time - s.start_time) <= i128::MAX ==> !accrual_overflows(s, now),
{
    let d = s.deposited as int;
    let t = s.end_time - s.start_time;
    let e = seconds_run(s, now);
    assert(d * 0 == 0) by (nonlinear_arith);
    assert(d * e <= d * t) by (nonlinear_arith)
        requires
            0 <= d,
            e <= t,
    ;
}

/// Which streams the contract may hold, in their fields.
pub proof fn law_which_streams_are_valid(s: Stream)
    ensures
        s.is_open() <==> s.status == StreamStatus::Active || s.status == StreamStatus::Paused,
        s.well_formed() <==> s.start_time < s.end_time && 0 <= s.withdrawn <= s.deposited,
        s.valid() <==> {
            &&& s.start_time < s.end_time
            &&& s.start_time <= s.cliff_time <= s.end_time
            &&& 0 <= s.withdrawn <= s.deposited
            &&& s.deposited * (s.end_time - s.start_time) <= i128::MAX
            &&& match s.status {
                StreamStatus::Active => s.end_time - s.start_time <= s.deposited && s.withdrawn
                    < s.deposited && s.paused_at is None,
                StreamStatus::Paused => s.end_time - s.start_time <= s.deposited && s.withdrawn
                    < s.deposited && s.paused_at is Some,
                StreamStatus::Depleted => s.end_time - s.start_time <= s.deposited && s.withdrawn
                    == s.deposited,
                StreamStatus::Cancelled => true,
            }
        },
{
}

// ---------------------------------------------------------------------------
// The ledger
// ---------------------------------------------------------------------------

/// A logged action changes the log alone; a written entry changes that entry
/// alone.
pub proof fn law_ledger_edits_are_local(
    l: Ledger,
    action: Action,
    actions: Seq<Action>,
    stream_id: u64,
    stream: Stream,
)
    ensures
        l.push(action) == (Ledger { log: l.log.push(action), ..l }),
        l.extend(actions) == (Ledger { log: l.log + actions, ..l }),
        l.with_stream(stream_id, stream) == (Ledger {
            streams: l.streams.insert(stream_id, stream),
            ..l
        }),
{
}

/// A call about a stream can be made on every ledger where that stream, if it is
/// there at all, is valid; and on a ledger in order it can be made about any
/// stream.
pub proof fn law_where_calls_can_be_made(l: Ledger, stream_id: u64)
    ensures
        l.sound_at(stream_id) <==> (l.streams.contains_key(stream_id)
            ==> l.streams[stream_id].valid()),
        l.wf() <==> forall|id: u64| #[trigger]
            l.streams.contains_key(id) ==> l.streams[id].valid() && id < l.count,
        l.wf() ==> l.sound_at(stream_id),
{
}

/// The nonce of an owner is the one last loaded for it, whatever was loaded for
/// others, and 0 until one is.
pub proof fn law_the_last_nonce_counts(
    nonces: Seq<(Address, u64)>,
    owner: Address,
    other: Address,
    nonce: u64,
)
    ensures
        nonce_of(Seq::empty(), owner) == 0,
        nonce_of(nonces.push((owner, nonce)), owner) == nonce,
        other != owner ==> nonce_of(nonces.push((other, nonce)), owner) == nonce_of(nonces, owner),
{
    assert(nonces.push((owner, nonce)).drop_last() =~= nonces);
    assert(nonces.push((other, nonce)).drop_last() =~= nonces);
}

/// Rent is bought for the seconds until the end of the schedule and thirty days
/// more, at five seconds a ledger, rounded up and not further, and never for
/// more ledgers than can be bought.
pub proof fn law_rent_is_for_the_schedule_and_thirty_days(s: Stream, now: int, max_ttl: u32)
    ensures
        ({
            let wall = accrued_until(s, now);
            let time = if wall < s.paused_total {
                0
            } else {
                wall - s.paused_total
            };
            let left = if time < s.end_time {
                s.end_time - time
            } else {
                0
            };
            let ledgers = rent(s, now, max_ttl);
            &&& 0 <= ledgers <= max_ttl
            &&& ledgers == max_ttl || 5 * ledgers >= left + 30 * 24 * 60 * 60
            &&& 5 * (ledgers - 1) < left + 30 * 24 * 60 * 60
        }),
{
}

/// Looking up an entry for a change asks for its rent; storing an entry writes
/// it and asks for the rent of what was written; a call that goes no further
/// than the authorization has asked for the two and changed nothing.
pub proof fn law_entries_are_kept_alive(l: Ledger, stream_id: u64, stream: Stream, who: Address)
    ensures
        renewed(l, stream_id, stream) == (Ledger {
            log: l.log.push(
                Action::ExtendStream {
                    stream_id,
                    ledgers: rent(stream, l.now as int, l.max_ttl) as u32,
                },
            ),
            ..l
        }),
        saved(l, stream_id, stream) == (Ledger {
            streams: l.streams.insert(stream_id, stream),
            log: l.log + seq![
                Action::SaveStream { stream_id, stream },
                Action::ExtendStream {
                    stream_id,
                    ledgers: rent(stream, l.now as int, l.max_ttl) as u32,
                },
            ],
            ..l
        }),
        consulted(l, stream_id, who) == (Ledger {
            log: l.log + seq![
                Action::ExtendStream {
                    stream_id,
                    ledgers: rent(l.streams[stream_id], l.now as int, l.max_ttl) as u32,
                },
                Action::RequireAuth { address: who },
            ],
            ..l
        }),
{
    assert(saved(l, stream_id, stream).log =~= l.log + seq![
        Action::SaveStream { stream_id, stream },
        Action::ExtendStream {
            stream_id,
            ledgers: rent(stream, l.now as int, l.max_ttl) as u32,
        },
    ]);
}

/// Each announcement carries the stream's figures under their own names, of any
/// stream, and the amount or the moment that it is about.
pub proof fn law_announcements_carry_the_figures(
    stream_id: u64,
    s: Stream,
    amount: i128,
    moment: u64,
)
    ensures
        created_event(stream_id, s) == Event::StreamCreated(
            StreamCreated {
                stream_id,
                sender: s.sender,
                recipient: s.recipient,
                token: s.token,
                deposited: s.deposited,
                start_time: s.start_time,
                end_time: s.end_time,
                cliff_time: s.cliff_time,
                cancellable: s.cancellable,
                pausable: s.pausable,
                transferable: s.transferable,
            },
        ),
        withdrawn_event(stream_id, s, amount) == Event::Withdrawn(
            Withdrawn {
                stream_id,
                recipient: s.recipient,
                amount,
                withdrawn: s.withdrawn,
                deposited: s.deposited,
                status: s.status,
            },
        ),
        topped_up_event(stream_id, s, amount) == Event::ToppedUp(
            ToppedUp {
                stream_id,
                sender: s.sender,
                amount,
                deposited: s.deposited,
                end_time: s.end_time,
            },
        ),
        paused_event(stream_id, s, moment) == Event::StreamPaused(
            StreamPaused { stream_id, sender: s.sender, paused_at: moment },
        ),
        cancelled_event(stream_id, s, amount) == Event::StreamCancelled(
            StreamCancelled {
                stream_id,
                sender: s.sender,
                refunded: amount,
                deposited: s.deposited,
                withdrawn: s.withdrawn,
            },
        ),
{
}

// ---------------------------------------------------------------------------
// Creation
// ---------------------------------------------------------------------------

/// When a new stream is accepted, and with which error it is refused otherwise:
/// the first that applies.
pub proof fn law_when_a_stream_is_created(
    l: Ledger,
    sender: Address,
    recipient: Address,
    deposit: i128,
    start_time: u64,
    end_time: u64,
    cliff_time: u64,
)
    ensures
        ({
            let r = create_refusal(
                l,
                sender,
                recipient,
                deposit,
                start_time,
                end_time,
                cliff_time,
            );
            let two_parties = sender != recipient;
            let funded = two_parties && deposit > 0;
            let ordered = funded && start_time < end_time;
            let gated = ordered && start_time <= cliff_time <= end_time;
            let rated = gated && deposit >= end_time - start_time;
            let fits = deposit * (end_time - start_time) <= i128::MAX && l.count < u64::MAX;
            &&& r is None <==> rated && fits
            &&& r == Some(Error::SelfStream) <==> !two_parties
            &&& r == Some(Error::InvalidDeposit) <==> two_parties && !funded
            &&& r == Some(Error::InvalidTimeRange) <==> funded && !ordered
            &&& r == Some(Error::InvalidCliff) <==> ordered && !gated
            &&& r == Some(Error::DepositRateTooLow) <==> gated && !rated
            &&& r == Some(Error::Overflow) <==> rated && !fits
        }),
{
}

/// A new stream is what the caller asked for: every argument stands in the
/// field of its name, in the entry and in the announcement alike; nothing is
/// paid out or paused. It gets the next id, and the sender pays the deposit to
/// the contract.
pub proof fn law_a_new_stream_is_as_asked(
    l: Ledger,
    sender: Address,
    recipient: Address,
    token: Address,
    deposit: i128,
    start_time: u64,
    end_time: u64,
    cliff_time: u64,
    cancellable: bool,
    pausable: bool,
    transferable: bool,
)
    requires
        create_refusal(l, sender, recipient, deposit, start_time, end_time, cliff_time) is None,
    ensures
        ({
            let after = after_create(
                l,
                opened(
                    sender,
                    recipient,
                    token,
                    deposit,
                    start_time,
                    end_time,
                    cliff_time,
                    cancellable,
                    pausable,
                    transferable,
                ),
            );
            let s = after.streams[l.count];
            &&& s.sender == sender
            &&& s.recipient == recipient
            &&& s.token == token
            &&& s.deposited == deposit
            &&& s.withdrawn == 0
            &&& s.start_time == start_time
            &&& s.end_time == end_time
            &&& s.cliff_time == cliff_time
            &&& s.cancellable == cancellable
            &&& s.pausable == pausable
            &&& s.transferable == transferable
            &&& s.paused_at is None
            &&& s.paused_total == 0
            &&& s.status == StreamStatus::Active
            &&& after.count == l.count + 1
            &&& after == (Ledger {
                count: after.count,
                streams: l.streams.insert(l.count, s),
                log: l.log + seq![
                    Action::RequireAuth { address: sender },
                    Action::SetStreamCount { count: after.count },
                    Action::SaveStream { stream_id: l.count, stream: s },
                    Action::ExtendStream {
                        stream_id: l.count,
                        ledgers: rent(s, l.now as int, l.max_ttl) as u32,
                    },
                    Action::ExtendInstance { ledgers: l.max_ttl },
                    Action::Transfer { token, from: sender, to: l.contract, amount: deposit },
                    Action::Publish {
                        event: Event::StreamCreated(
                            StreamCreated {
                                stream_id: l.count,
                                sender,
                                recipient,
                                token,
                                deposited: deposit,
                                start_time,
                                end_time,
                                cliff_time,
                                cancellable,
                                pausable,
                                transferable,
                            },
                        ),
                    },
                ],
                ..l
            })
        }),
{
}

/// A new stream pays by the schedule that it was created with: of an accepted
/// creation, and as long as nothing else is done to the stream, the recipient
/// can draw nothing before the cliff, the whole deposit from the end on, and in
/// between the deposit's share for the time since the start, rounded down.
pub proof fn law_a_new_stream_pays_by_its_schedule(
    l: Ledger,
    sender: Address,
    recipient: Address,
    token: Address,
    deposit: i128,
    start_time: u64,
    end_time: u64,
    cliff_time: u64,
    cancellable: bool,
    pausable: bool,
    transferable: bool,
    now: u64,
)
    requires
        create_refusal(l, sender, recipient, deposit, start_time, end_time, cliff_time) is None,
    ensures
        ({
            let after = after_create(
                l,
                opened(
                    sender,
                    recipient,
                    token,
                    deposit,
                    start_time,
                    end_time,
                    cliff_time,
                    cancellable,
                    pausable,
                    transferable,
                ),
            );
            let then = Ledger { now, ..after };
            let balance = drawable(then, l.count);
            let length = end_time - start_time;
            &&& earned(then.streams[l.count], now as int) == balance
            &&& unearned(then.streams[l.count], now as int) == deposit - balance
            &&& now < cliff_time ==> balance == 0
            &&& now >= end_time ==> balance == deposit
            &&& cliff_time <= now <= end_time ==> balance * length <= deposit * (now - start_time)
                < (balance + 1) * length
            &&& balance > 0 ==> withdraw_refusal(then, l.count, None) is None && payout_of(
                then,
                l.count,
                None,
            ) == balance
        }),
{
    let s = opened(
        sender,
        recipient,
        token,
        deposit,
        start_time,
        end_time,
        cliff_time,
        cancellable,
        pausable,
        transferable,
    );
    law_accrual_follows_ledger_time(s, now as int);
    crate::accrual::lemma_accrued_bounds(s, now as int);
    lemma_accrual_fits(s, now as int);
}

// ---------------------------------------------------------------------------
// Withdrawal
// ---------------------------------------------------------------------------

/// When a withdrawal is accepted, what it pays, and with which error it is
/// refused otherwise, where `v` is what the recipient has earned: an amount that
/// is asked for is paid exactly, without one everything left is paid.
pub proof fn law_a_withdrawal_pays_what_is_asked(
    l: Ledger,
    stream_id: u64,
    requested: Option<i128>,
    v: int,
)
    requires
        l.sound_at(stream_id),
        l.streams.contains_key(stream_id) ==> is_vested(l.streams[stream_id], l.now as int, v),
    ensures
        ({
            let s = l.streams[stream_id];
            let there = l.streams.contains_key(stream_id);
            let left = there && v > s.withdrawn;
            let r = withdraw_refusal(l, stream_id, requested);
            &&& there ==> drawable(l, stream_id) == v - s.withdrawn
            &&& r == Some(Error::StreamNotFound) <==> !there
            &&& r == Some(Error::NothingToWithdraw) <==> there && !left
            &&& match requested {
                None => {
                    &&& left ==> r is None
                    &&& left ==> payout_of(l, stream_id, None) == v - s.withdrawn
                },
                Some(a) => {
                    &&& r == Some(Error::InvalidAmount) <==> left && a <= 0
                    &&& r == Some(Error::InsufficientWithdrawable) <==> left && a > v - s.withdrawn
                    &&& r is None <==> left && 0 < a <= v - s.withdrawn
                    &&& r is None ==> payout_of(l, stream_id, requested) == a
                },
            }
        }),
{
    if l.streams.contains_key(stream_id) {
        law_vested_is_one_amount(l.streams[stream_id], l.now as int, v);
        lemma_accrual_fits(l.streams[stream_id], l.now as int);
    }
}

/// What an accepted withdrawal of `payout` does: the stream has paid that much
/// more, and is marked as paid out where that was all of it and it was not
/// cancelled; nothing else about any stream changes. The contract pays the
/// recipient once, in the stream's token.
pub proof fn law_a_withdrawal_pays_the_recipient(
    l: Ledger,
    stream_id: u64,
    requested: Option<i128>,
    payout: i128,
)
    requires
        l.sound_at(stream_id),
        withdraw_refusal(l, stream_id, requested) is None,
        payout == payout_of(l, stream_id, requested),
    ensures
        0 < payout <= l.streams[stream_id].deposited - l.streams[stream_id].withdrawn,
        ({
            let s = l.streams[stream_id];
            let total = (s.withdrawn + payout) as i128;
            let status = if total == s.deposited && s.status != StreamStatus::Cancelled {
                StreamStatus::Depleted
            } else {
                s.status
            };
            let paid_out = Stream { withdrawn: total, status, ..s };
            &&& total == s.withdrawn + payout
            &&& after_withdraw(l, stream_id, payout) == (Ledger {
                streams: l.streams.insert(stream_id, paid_out),
                log: l.log + seq![
                    Action::ExtendStream {
                        stream_id,
                        ledgers: rent(s, l.now as int, l.max_ttl) as u32,
                    },
                    Action::RequireAuth { address: s.recipient },
                    Action::SaveStream { stream_id, stream: paid_out },
                    Action::ExtendStream {
                        stream_id,
                        ledgers: rent(paid_out, l.now as int, l.max_ttl) as u32,
                    },
                    Action::Transfer {
                        token: s.token,
                        from: l.contract,
                        to: s.recipient,
                        amount: payout,
                    },
                    Action::Publish {
                        event: Event::Withdrawn(
                            Withdrawn {
                                stream_id,
                                recipient: s.recipient,
                                amount: payout,
                                withdrawn: total,
                                deposited: s.deposited,
                                status,
                            },
                        ),
                    },
                ],
                ..l
            })
        }),
{
    lemma_accrual_fits(l.streams[stream_id], l.now as int);
}

/// Drawing in two parts comes to the same as drawing the sum at once: whenever
/// both parts fit the balance, the second is accepted after the first, and the
/// streams end up the same.
pub proof fn law_drawing_in_parts_is_drawing_the_sum(
    l: Ledger,
    stream_id: u64,
    first: i128,
    second: i128,
)
    requires
        l.sound_at(stream_id),
        l.streams.contains_key(stream_id),
        0 < first,
        0 < second,
        first + second <= drawable(l, stream_id),
    ensures
        ({
            let sum = (first + second) as i128;
            let between = after_withdraw(l, stream_id, payout_of(l, stream_id, Some(first)));
            &&& withdraw_refusal(l, stream_id, Some(first)) is None
            &&& withdraw_refusal(between, stream_id, Some(second)) is None
            &&& withdraw_refusal(l, stream_id, Some(sum)) is None
            &&& drawable(between, stream_id) == drawable(l, stream_id) - first
            &&& after_withdraw(
                between,
                stream_id,
                payout_of(between, stream_id, Some(second)),
            ).streams == after_withdraw(l, stream_id, payout_of(l, stream_id, Some(sum))).streams
        }),
{
    lemma_accrual_fits(l.streams[stream_id], l.now as int);
    let sum = (first + second) as i128;
    let between = after_withdraw(l, stream_id, first);
    assert(between.now == l.now);
    assert(after_withdraw(between, stream_id, second).streams =~= after_withdraw(
        l,
        stream_id,
        sum,
    ).streams);
}

// ---------------------------------------------------------------------------
// Top-up
// ---------------------------------------------------------------------------

/// `x` is the least number of seconds whose accrual, at the stream's rate, comes
/// to `amount`.
pub open spec fn buys(s: Stream, amount: int, x: int) -> bool {
    &&& s.deposited * x >= amount * (s.end_time - s.start_time)
    &&& s.deposited * (x - 1) < amount * (s.end_time - s.start_time)
}

/// Every amount buys some number of seconds, and one only.
pub proof fn law_every_amount_buys_its_time(s: Stream, amount: int, x: int, y: int)
    requires
        s.start_time < s.end_time,
        0 < s.deposited,
        0 < amount,
    ensures
        exists|z: int| buys(s, amount, z),
        buys(s, amount, x) && buys(s, amount, y) ==> x == y,
{
    let d = s.deposited as int;
    let n = amount * (s.end_time - s.start_time);
    let t = s.end_time - s.start_time;
    assert(0 <= amount * t) by (nonlinear_arith)
        requires
            0 < amount,
            0 < t,
    ;
    lemma_round_up(n, d);
    let z = (n + d - 1) / d;
    assert(d * (z - 1) == d * z - d) by (nonlinear_arith);
    assert(buys(s, amount, z));
    if x < y {
        assert(d * x <= d * (y - 1)) by (nonlinear_arith)
            requires
                x <= y - 1,
                0 < d,
        ;
    } else if y < x {
        assert(d * y <= d * (x - 1)) by (nonlinear_arith)
            requires
                y <= x - 1,
                0 < d,
        ;
    }
}

/// The extension is the one number of seconds that the amount buys, and a
/// top-up overflows only where the new end or the new deposit times the new
/// length does not fit.
proof fn lemma_extension_is_what_is_bought(s: Stream, amount: i128, x: int)
    requires
        s.start_time < s.end_time,
        0 < s.deposited,
        0 < amount,
        buys(s, amount as int, x),
    ensures
        x == extension(s, amount),
        0 < x,
        crate::contract::top_up_overflows(s, amount) <==> {
            ||| s.end_time + x > u64::MAX
            ||| (s.deposited + amount) * (s.end_time + x - s.start_time) > i128::MAX
        },
{
    let d = s.deposited as int;
    let t = s.end_time - s.start_time;
    let a = amount as int;
    let y = extension(s, amount);
    assert(0 < a * t) by (nonlinear_arith)
        requires
            0 < a,
            0 < t,
    ;
    lemma_round_up(a * t, d);
    assert(x == y) by (nonlinear_arith)
        requires
            0 < d,
            d * x >= a * t,
            d * (x - 1) < a * t,
            a * t <= d * y < a * t + d,
    ;
    assert(0 < x) by (nonlinear_arith)
        requires
            0 < d,
            0 < a * t,
            a * t <= d * x,
    ;
    assert(a * t <= (d + a) * (t + x) && d + a <= (d + a) * (t + x)) by (nonlinear_arith)
        requires
            0 < d,
            0 < a,
            0 < t,
            0 < x,
    ;
    assert(s.span() + y == s.end_time + x - s.start_time);
}

/// When a top-up is accepted, and with which error it is refused otherwise,
/// where `x` is the number of seconds that the amount buys: any positive amount
/// is taken for an open stream that has not run to its end, unless the new end
/// or the new deposit times the new length does not fit its type.
pub proof fn law_when_a_top_up_is_accepted(l: Ledger, stream_id: u64, amount: i128, x: int)
    requires
        l.sound_at(stream_id),
        l.streams.contains_key(stream_id) && 0 < amount && 0 < l.streams[stream_id].deposited
            ==> buys(l.streams[stream_id], amount as int, x),
    ensures
        ({
            let s = l.streams[stream_id];
            let wall = accrued_until(s, l.now as int);
            let there = l.streams.contains_key(stream_id);
            let some = there && amount > 0;
            let open = some && (s.status == StreamStatus::Active || s.status
                == StreamStatus::Paused);
            let running = open && wall < s.end_time + s.paused_total;
            let fits = s.end_time + x <= u64::MAX && (s.deposited + amount) * (s.end_time + x
                - s.start_time) <= i128::MAX;
            let r = top_up_refusal(l, stream_id, amount);
            &&& r is None <==> running && fits
            &&& r == Some(Error::StreamNotFound) <==> !there
            &&& r == Some(Error::InvalidAmount) <==> there && !some
            &&& r == Some(Error::StreamTerminated) <==> some && !open
            &&& r == Some(Error::StreamMatured) <==> open && !running
            &&& r == Some(Error::Overflow) <==> running && !fits
        }),
{
    let s = l.streams[stream_id];
    if l.streams.contains_key(stream_id) && amount > 0 && s.deposited > 0 {
        lemma_extension_is_what_is_bought(s, amount, x);
    }
}

/// What an accepted top-up does: the deposit grows by the amount and the end
/// moves by the seconds that it buys; nothing else about any stream changes. The
/// sender pays the amount to the contract once, in the stream's token.
pub proof fn law_a_top_up_buys_time(l: Ledger, stream_id: u64, amount: i128, x: int)
    requires
        l.sound_at(stream_id),
        top_up_refusal(l, stream_id, amount) is None,
        buys(l.streams[stream_id], amount as int, x),
    ensures
        ({
            let s = l.streams[stream_id];
            let deposited = (s.deposited + amount) as i128;
            let end_time = (s.end_time + x) as u64;
            let longer = Stream { deposited, end_time, ..s };
            &&& deposited == s.deposited + amount
            &&& end_time == s.end_time + x
            &&& after_top_up(l, stream_id, amount) == (Ledger {
                streams: l.streams.insert(stream_id, longer),
                log: l.log + seq![
                    Action::ExtendStream {
                        stream_id,
                        ledgers: rent(s, l.now as int, l.max_ttl) as u32,
                    },
                    Action::RequireAuth { address: s.sender },
                    Action::SaveStream { stream_id, stream: longer },
                    Action::ExtendStream {
                        stream_id,
                        ledgers: rent(longer, l.now as int, l.max_ttl) as u32,
                    },
                    Action::Transfer { token: s.token, from: s.sender, to: l.contract, amount },
                    Action::Publish {
                        event: Event::ToppedUp(
                            ToppedUp { stream_id, sender: s.sender, amount, deposited, end_time },
                        ),
                    },
                ],
                ..l
            })
        }),
{
    let s = l.streams[stream_id];
    lemma_extension_is_what_is_bought(s, amount, x);
    lemma_grown_valid(s, amount);
}

// ---------------------------------------------------------------------------
// Pause
// ---------------------------------------------------------------------------

/// When a pause is accepted, and with which error it is refused otherwise.
pub proof fn law_when_a_pause_is_accepted(l: Ledger, stream_id: u64)
    ensures
        ({
            let s = l.streams[stream_id];
            let there = l.streams.contains_key(stream_id);
            let allowed = there && s.pausable;
            let r = pause_refusal(l, stream_id);
            &&& r is None <==> allowed && s.status == StreamStatus::Active
            &&& r == Some(Error::StreamNotFound) <==> !there
            &&& r == Some(Error::NotPausable) <==> there && !allowed
            &&& r == Some(Error::StreamTerminated) <==> allowed && (s.status
                == StreamStatus::Cancelled || s.status == StreamStatus::Depleted)
            &&& r == Some(Error::AlreadyPaused) <==> allowed && s.status == StreamStatus::Paused
        }),
{
}

/// What an accepted pause does: the stream is marked as paused at the ledger's
/// time; nothing else about any stream changes, and no tokens move.
pub proof fn law_a_pause_marks_the_moment(l: Ledger, stream_id: u64)
    requires
        pause_refusal(l, stream_id) is None,
    ensures
        ({
            let s = l.streams[stream_id];
            let stopped = Stream {
                paused_at: Some(l.now),
                status: StreamStatus::Paused,
                ..s
            };
            after_pause(l, stream_id) == (Ledger {
                streams: l.streams.insert(stream_id, stopped),
                log: l.log + seq![
                    Action::ExtendStream {
                        stream_id,
                        ledgers: rent(s, l.now as int, l.max_ttl) as u32,
                    },
                    Action::RequireAuth { address: s.sender },
                    Action::SaveStream { stream_id, stream: stopped },
                    Action::ExtendStream {
                        stream_id,
                        ledgers: rent(stopped, l.now as int, l.max_ttl) as u32,
                    },
                    Action::Publish {
                        event: Event::StreamPaused(
                            StreamPaused { stream_id, sender: s.sender, paused_at: l.now },
                        ),
                    },
                ],
                ..l
            })
        }),
{
}

// ---------------------------------------------------------------------------
// Cancellation
// ---------------------------------------------------------------------------

/// When a cancellation is accepted, and with which error it is refused
/// otherwise.
pub proof fn law_when_a_cancellation_is_accepted(l: Ledger, stream_id: u64)
    ensures
        ({
            let s = l.streams[stream_id];
            let there = l.streams.contains_key(stream_id);
            let allowed = there && s.cancellable;
            let open = s.status == StreamStatus::Active || s.status == StreamStatus::Paused;
            let r = cancel_refusal(l, stream_id);
            &&& r is None <==> allowed && open
            &&& r == Some(Error::StreamNotFound) <==> !there
            &&& r == Some(Error::NotCancellable) <==> there && !allowed
            &&& r == Some(Error::StreamTerminated) <==> allowed && !open
        }),
{
}

/// What an accepted cancellation does, where `v` is what the recipient has
/// earned: that much stays in the stream, which is marked as cancelled, and the
/// contract pays the rest of the deposit back to the sender, once, in the
/// stream's token, or pays nobody where there is no rest. Nothing else about any
/// stream changes.
pub proof fn law_a_cancellation_refunds_the_sender(l: Ledger, stream_id: u64, v: int)
    requires
        l.sound_at(stream_id),
        cancel_refusal(l, stream_id) is None,
        is_vested(l.streams[stream_id], l.now as int, v),
    ensures
        ({
            let s = l.streams[stream_id];
            let refund = refund_of(l, stream_id);
            let kept = Stream { deposited: v as i128, status: StreamStatus::Cancelled, ..s };
            let written = seq![
                Action::ExtendStream {
                    stream_id,
                    ledgers: rent(s, l.now as int, l.max_ttl) as u32,
                },
                Action::RequireAuth { address: s.sender },
                Action::SaveStream { stream_id, stream: kept },
                Action::ExtendStream {
                    stream_id,
                    ledgers: rent(kept, l.now as int, l.max_ttl) as u32,
                },
            ];
            let moved = Action::Transfer {
                token: s.token,
                from: l.contract,
                to: s.sender,
                amount: refund,
            };
            let told = Action::Publish {
                event: Event::StreamCancelled(
                    StreamCancelled {
                        stream_id,
                        sender: s.sender,
                        refunded: refund,
                        deposited: v as i128,
                        withdrawn: s.withdrawn,
                    },
                ),
            };
            let after = after_cancel(l, stream_id);
            &&& 0 <= s.withdrawn <= v <= s.deposited
            &&& refund == s.deposited - v
            &&& after.streams == l.streams.insert(stream_id, kept)
            &&& after.log == l.log + (if v < s.deposited {
                written.push(moved).push(told)
            } else {
                written.push(told)
            })
            &&& after == (Ledger { streams: after.streams, log: after.log, ..l })
        }),
{
    law_vested_is_one_amount(l.streams[stream_id], l.now as int, v);
    lemma_accrual_fits(l.streams[stream_id], l.now as int);
}

// ---------------------------------------------------------------------------
// Delegation
// ---------------------------------------------------------------------------

/// When a delegated call is accepted, and with which error it is refused
/// otherwise: the first that applies.
pub proof fn law_when_a_delegation_is_accepted(
    l: Ledger,
    stream_id: u64,
    nonce: u64,
    deadline: u64,
    relayer_fee: i128,
)
    ensures
        ({
            let r = delegation_refusal(l, stream_id, nonce, deadline, relayer_fee);
            let fair = relayer_fee >= 0;
            let timely = fair && l.now <= deadline;
            let there = timely && l.streams.contains_key(stream_id);
            let current = there && nonce == nonce_of(l.nonces, l.streams[stream_id].recipient);
            &&& r is None <==> current
            &&& r == Some(ContractError::InvalidParams) <==> !fair
            &&& r == Some(ContractError::SignatureDeadlineExpired) <==> fair && !timely
            &&& r == Some(ContractError::StreamNotFound) <==> timely && !there
            &&& r == Some(ContractError::InvalidSignature) <==> there && !current
        }),
{
}

/// A delegation is good once: when the recipient's nonce has moved on, the same
/// parameters are refused as a replay, and nonces of other parties have no
/// bearing on it.
pub proof fn law_a_delegation_cannot_be_replayed(
    l: Ledger,
    stream_id: u64,
    nonce: u64,
    deadline: u64,
    relayer_fee: i128,
    next: u64,
    other: Address,
)
    requires
        delegation_refusal(l, stream_id, nonce, deadline, relayer_fee) is None,
        next != nonce,
        other != l.streams[stream_id].recipient,
    ensures
        delegation_refusal(
            Ledger { nonces: l.nonces.push((l.streams[stream_id].recipient, next)), ..l },
            stream_id,
            nonce,
            deadline,
            relayer_fee,
        ) == Some(ContractError::InvalidSignature),
        delegation_refusal(
            Ledger { nonces: l.nonces.push((other, next)), ..l },
            stream_id,
            nonce,
            deadline,
            relayer_fee,
        ) is None,
{
    law_the_last_nonce_counts(l.nonces, l.streams[stream_id].recipient, other, next);
}

// ---------------------------------------------------------------------------
// Balances
// ---------------------------------------------------------------------------

/// Tokens move as the books say, whatever the call and whether it is accepted:
/// in the token of the stream that the call is about, the recipient receives by
/// how much the amount paid out grows, the sender pays by how much the deposit
/// grows and receives by how much it falls, and the contract holds the
/// difference. In any other token, and for any other party, nothing moves.
pub proof fn law_tokens_move_as_the_books_say(l: Ledger, call: Call, token: Address, who: Address)
    requires
        l.wf(),
    ensures
        ({
            let id = target(l, call);
            let after = outcome(l, call);
            let s = after.streams[id];
            let change = pool(after.log, token, who) - pool(l.log, token, who);
            let paid_in = if !after.streams.contains_key(id) {
                0
            } else if l.streams.contains_key(id) {
                s.deposited - l.streams[id].deposited
            } else {
                s.deposited as int
            };
            let paid_out = if !after.streams.contains_key(id) {
                0
            } else if l.streams.contains_key(id) {
                s.withdrawn - l.streams[id].withdrawn
            } else {
                s.withdrawn as int
            };
            change == if token != s.token {
                0
            } else {
                (if who == s.recipient {
                    paid_out
                } else {
                    0
                }) - (if who == s.sender {
                    paid_in
                } else {
                    0
                }) + (if who == l.contract {
                    paid_in - paid_out
                } else {
                    0
                })
            }
        }),
{
    let more = asked(l, call);
    let next = outcome(l, call);
    let id = target(l, call);
    assert(next.log =~= l.log + more);
    lemma_pool_concat(l.log, more, token, who);
    lemma_pool_of_one(
        more,
        if call is Create {
            5
        } else {
            4
        },
        token,
        who,
    );
    if l.streams.contains_key(id) {
        lemma_accrual_fits(l.streams[id], l.now as int);
    }
}

} // verus!
