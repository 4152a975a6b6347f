//! What holds of the contract as a whole.
//!
//! The laws speak of the same transitions that the calls' own contracts speak
//! of. The first group is about one stream and time, the second about one call,
//! the third about any number of calls.

use vstd::prelude::*;

use crate::accrual::{
    accrual_overflows, accrued, clock, earned, lemma_accrual_fits, seconds_run, unearned,
};
use crate::contract::{
    after_cancel, after_create, after_pause, after_top_up, after_withdraw, cancel_refusal,
    consulted, create_refusal, drawable, ended, extension, frozen, grown, lemma_ended_valid,
    lemma_grown_valid, lemma_round_up, opened, paid, pause_refusal, payout_of, top_up_overflows,
    top_up_refusal, withdraw_refusal,
};
use crate::env::{Action, Ledger};
use crate::error::Error;
use crate::events::{Event, StreamCreated};
use crate::storage::{rent, seconds_left, SECONDS_PER_LEDGER, TTL_BUFFER_SECONDS};
use crate::types::{Address, Stream, StreamStatus};

verus! {

// ---------------------------------------------------------------------------
// One stream and time
// ---------------------------------------------------------------------------

/// At every instant the vested and the refundable amount add up to the deposit
/// exactly; neither they nor what is left to draw of the vested is negative.
pub proof fn law_conservation(s: Stream, now: int)
    requires
        s.valid(),
    ensures
        0 <= s.withdrawn,
        0 <= earned(s, now) - s.withdrawn,
        0 <= unearned(s, now),
        earned(s, now) + unearned(s, now) == s.deposited,
{
    lemma_accrual_fits(s, now);
}

/// The guard at creation is enough for life: the accrual of a valid stream
/// never overflows.
pub proof fn law_accrual_never_overflows(s: Stream, now: int)
    requires
        s.valid(),
    ensures
        !accrual_overflows(s, now),
{
    lemma_accrual_fits(s, now);
}

/// What was earned stays earned: the earned amount never falls as time passes.
pub proof fn law_earned_never_falls(s: Stream, earlier: int, later: int)
    requires
        s.well_formed(),
        earlier <= later,
    ensures
        accrued(s, earlier) <= accrued(s, later),
        earned(s, earlier) <= earned(s, later),
{
    let d = s.deposited as int;
    let t = s.span();
    let e1 = seconds_run(s, earlier);
    let e2 = seconds_run(s, later);
    assert(0 <= d * e1 <= d * e2) by (nonlinear_arith)
        requires
            0 <= d,
            0 <= e1 <= e2,
    ;
    vstd::arithmetic::div_mod::lemma_div_is_ordered(d * e1, d * e2, t);
    vstd::arithmetic::div_mod::lemma_div_pos_is_pos(d * e2, t);
}

/// Accrual is linear: past the cliff the accrued amount is the deposit's share
/// for the seconds run, rounded down.
pub proof fn law_accrual_is_linear(s: Stream, now: int)
    requires
        s.well_formed(),
        clock(s, now) >= s.cliff_time,
    ensures
        accrued(s, now) * s.span() <= s.deposited * seconds_run(s, now),
        s.deposited * seconds_run(s, now) < (accrued(s, now) + 1) * s.span(),
{
    let n = s.deposited * seconds_run(s, now);
    let t = s.span();
    let q = n / t;
    vstd::arithmetic::div_mod::lemma_fundamental_div_mod(n, t);
    assert(q * t == t * q && (q + 1) * t == t * q + t) by (nonlinear_arith);
}

/// The cliff gates the payout and does not delay the accrual: before it nothing
/// accrues, from it on exactly as much as without a cliff.
pub proof fn law_cliff_gates(s: Stream, now: int)
    requires
        s.well_formed(),
    ensures
        clock(s, now) < s.cliff_time ==> accrued(s, now) == 0,
        clock(s, now) >= s.cliff_time ==> accrued(s, now) == accrued(
            Stream { cliff_time: s.start_time, ..s },
            now,
        ),
{
}

/// A stream that has run to its end has earned its whole deposit.
pub proof fn law_everything_is_earned_at_the_end(s: Stream, now: int)
    requires
        s.valid(),
        clock(s, now) >= s.end_time,
    ensures
        earned(s, now) == s.deposited,
{
    let d = s.deposited as int;
    let t = s.span();
    vstd::arithmetic::div_mod::lemma_div_multiples_vanish(d, t);
    assert(d * t == t * d) by (nonlinear_arith);
}

/// No stream accrues slower than one unit per second.
pub proof fn law_no_dust_rate(s: Stream, now: int)
    requires
        s.valid(),
        s.status != StreamStatus::Cancelled,
        clock(s, now) >= s.cliff_time,
    ensures
        accrued(s, now) >= seconds_run(s, now),
{
    let d = s.deposited as int;
    let t = s.span();
    let e = seconds_run(s, now);
    assert(t * e <= d * e) by (nonlinear_arith)
        requires
            t <= d,
            0 <= e,
    ;
    vstd::arithmetic::div_mod::lemma_div_is_ordered(t * e, d * e, t);
    vstd::arithmetic::div_mod::lemma_div_multiples_vanish(e, t);
}

/// A paused stream earns nothing more and loses nothing of what was earned.
pub proof fn law_pause_freezes(s: Stream, paused_at: u64, now: int)
    requires
        s.valid(),
        s.status == StreamStatus::Active,
    ensures
        earned(frozen(s, paused_at), now) == earned(s, paused_at as int),
{
}

/// Cancelling neither adds to nor takes from what the recipient has earned, and
/// time adds nothing to it.
pub proof fn law_cancel_keeps_what_was_earned(s: Stream, cancelled_at: u64, now: int)
    requires
        s.valid(),
    ensures
        earned(ended(s, cancelled_at), now) == earned(s, cancelled_at as int),
        ended(s, cancelled_at).withdrawn == s.withdrawn,
{
    lemma_accrual_fits(s, cancelled_at as int);
}

/// Two rates compared over the seconds run: a deposit that is not larger in
/// proportion to its schedule has not released more.
proof fn lemma_slower_rate(d: int, t: int, d2: int, t2: int, e: int)
    requires
        0 < t,
        0 < t2,
        0 <= e,
        0 <= d,
        0 <= d2,
        d2 * t <= d * t2,
    ensures
        (d2 * e) / t2 <= (d * e) / t,
{
    let a = (d * e) / t;
    let b = (d2 * e) / t2;
    vstd::arithmetic::div_mod::lemma_fundamental_div_mod(d * e, t);
    vstd::arithmetic::div_mod::lemma_fundamental_div_mod(d2 * e, t2);
    if b > a {
        assert(t2 * b * t <= d2 * e * t) by (nonlinear_arith)
            requires
                t2 * b <= d2 * e,
                0 < t,
        ;
        assert(d2 * e * t == (d2 * t) * e) by (nonlinear_arith);
        assert((d2 * t) * e <= (d * t2) * e) by (nonlinear_arith)
            requires
                d2 * t <= d * t2,
                0 <= e,
        ;
        assert((d * t2) * e == (d * e) * t2) by (nonlinear_arith);
        assert(t * (a + 1) == t * a + t) by (nonlinear_arith);
        assert((d * e) * t2 < (t * (a + 1)) * t2) by (nonlinear_arith)
            requires
                d * e < t * (a + 1),
                0 < t2,
        ;
        assert((t * (a + 1)) * t2 <= t2 * b * t) by (nonlinear_arith)
            requires
                a + 1 <= b,
                0 < t,
                0 < t2,
        ;
    }
}

/// Up to the old end of the schedule, what `grown` accrues compared with what
/// the stream accrued before.
proof fn lemma_grown_rate(s: Stream, amount: i128)
    requires
        s.valid(),
        s.is_open(),
        0 < amount,
        !top_up_overflows(s, amount),
    ensures
        grown(s, amount).deposited == s.deposited + amount,
        grown(s, amount).span() == s.span() + extension(s, amount),
        0 <= extension(s, amount),
        (s.deposited + amount) * s.span() <= s.deposited * (s.span() + extension(s, amount)),
        s.deposited * (s.span() + extension(s, amount)) < (s.deposited + amount) * s.span()
            + s.deposited,
        (amount * s.span()) % (s.deposited as int) == 0 ==> (s.deposited + amount) * s.span()
            == s.deposited * (s.span() + extension(s, amount)),
{
    lemma_grown_valid(s, amount);
    let d = s.deposited as int;
    let t = s.span();
    let a = amount as int;
    let x = extension(s, amount);
    assert(0 <= a * t) by (nonlinear_arith)
        requires
            0 <= a,
            0 <= t,
    ;
    lemma_round_up(a * t, d);
    vstd::arithmetic::div_mod::lemma_fundamental_div_mod(a * t, d);
    assert((d + a) * t == d * t + a * t) by (nonlinear_arith);
    assert(d * (t + x) == d * t + d * x) by (nonlinear_arith);
}

/// A top-up never raises the rate: the deposit grows by no more, in proportion,
/// than the schedule does, and the schedule by less than one second more than
/// the deposit pays for.
pub proof fn law_top_up_never_raises_the_rate(s: Stream, amount: i128)
    requires
        s.valid(),
        s.is_open(),
        0 < amount,
        !top_up_overflows(s, amount),
    ensures
        grown(s, amount).deposited * s.span() <= s.deposited * grown(s, amount).span(),
        s.deposited * (grown(s, amount).span() - 1) < grown(s, amount).deposited * s.span(),
{
    lemma_grown_rate(s, amount);
    let d = s.deposited as int;
    let t2 = grown(s, amount).span();
    assert(d * (t2 - 1) == d * t2 - d) by (nonlinear_arith);
}

/// A top-up vests nothing retroactively: up to the old end of the schedule no
/// more has been earned with it than without it.
pub proof fn law_top_up_vests_nothing_retroactively(s: Stream, amount: i128, now: int)
    requires
        s.valid(),
        s.is_open(),
        0 < amount,
        !top_up_overflows(s, amount),
        clock(s, now) <= s.end_time,
    ensures
        earned(grown(s, amount), now) <= earned(s, now),
{
    lemma_grown_rate(s, amount);
    lemma_slower_rate(
        s.deposited as int,
        s.span(),
        grown(s, amount).deposited as int,
        grown(s, amount).span(),
        seconds_run(s, now),
    );
}

/// When a top-up leaves what was earned, up to the old end of the schedule,
/// exactly as it was: if and only if nothing has accrued beyond the payout, or
/// the new schedule has released as many whole units as the old one. A top-up
/// that buys whole seconds always does.
pub proof fn law_when_a_top_up_moves_nothing(s: Stream, amount: i128, now: int)
    requires
        s.valid(),
        s.is_open(),
        0 < amount,
        !top_up_overflows(s, amount),
        clock(s, now) <= s.end_time,
    ensures
        earned(grown(s, amount), now) == earned(s, now) <==> {
            ||| accrued(s, now) <= s.withdrawn
            ||| grown(s, amount).deposited * seconds_run(s, now) >= accrued(s, now) * grown(
                s,
                amount,
            ).span()
        },
        (amount * s.span()) % (s.deposited as int) == 0 ==> earned(grown(s, amount), now) == earned(
            s,
            now,
        ),
{
    lemma_grown_rate(s, amount);
    lemma_grown_valid(s, amount);
    let g = grown(s, amount);
    let d = s.deposited as int;
    let t = s.span();
    let d2 = g.deposited as int;
    let t2 = g.span();
    let e = seconds_run(s, now);
    let a = accrued(s, now);
    let b = accrued(g, now);
    lemma_slower_rate(d, t, d2, t2, e);
    if (amount * s.span()) % (s.deposited as int) == 0 {
        lemma_slower_rate(d2, t2, d, t, e);
    }
    if clock(s, now) >= s.cliff_time {
        vstd::arithmetic::div_mod::lemma_fundamental_div_mod(d2 * e, t2);
        assert(t2 * (b + 1) == t2 * b + t2 && t2 * b == b * t2 && t2 * (b + 1) == (b + 1) * t2)
            by (nonlinear_arith);
        if b < a {
            assert((b + 1) * t2 <= a * t2) by (nonlinear_arith)
                requires
                    b + 1 <= a,
                    0 < t2,
            ;
        }
    }
}

/// At most a top-up takes back, by rounding, less than one second's accrual and
/// one unit of what had accrued, and nothing of what was paid out.
pub proof fn law_top_up_rounding_is_bounded(s: Stream, amount: i128, now: int)
    requires
        s.valid(),
        s.is_open(),
        0 < amount,
        !top_up_overflows(s, amount),
        clock(s, now) <= s.end_time,
    ensures
        (earned(s, now) - earned(grown(s, amount), now) - 1) * grown(s, amount).span()
            < s.deposited,
        s.withdrawn <= earned(grown(s, amount), now),
{
    lemma_grown_rate(s, amount);
    lemma_grown_valid(s, amount);
    let g = grown(s, amount);
    let d = s.deposited as int;
    let t = s.span();
    let d2 = g.deposited as int;
    let t2 = g.span();
    let e = seconds_run(s, now);
    let a = (d * e) / t;
    let b = (d2 * e) / t2;
    vstd::arithmetic::div_mod::lemma_fundamental_div_mod(d * e, t);
    vstd::arithmetic::div_mod::lemma_fundamental_div_mod(d2 * e, t2);
    assert(t * a <= d * e);
    assert(d2 * e < t2 * b + t2);
    // Both quotients over the common denominator `t * t2`.
    assert((t * a) * t2 <= (d * e) * t2) by (nonlinear_arith)
        requires
            t * a <= d * e,
            0 < t2,
    ;
    assert((d2 * e) * t < (t2 * b + t2) * t) by (nonlinear_arith)
        requires
            d2 * e < t2 * b + t2,
            0 < t,
    ;
    assert((d * e) * t2 - (d2 * e) * t == (d * t2 - d2 * t) * e) by (nonlinear_arith);
    assert((d * t2 - d2 * t) * e <= d * t) by (nonlinear_arith)
        requires
            0 <= d * t2 - d2 * t < d,
            0 <= e <= t,
            0 < d,
    ;
    assert((t * a) * t2 - (t2 * b + t2) * t == t * ((a - b - 1) * t2)) by (nonlinear_arith);
    assert(t * ((a - b - 1) * t2) < t * d);
    assert((a - b - 1) * t2 < d) by (nonlinear_arith)
        requires
            t * ((a - b - 1) * t2) < t * d,
            0 < t,
    ;
    let loss = earned(s, now) - earned(g, now);
    if clock(s, now) >= s.cliff_time {
        if a >= b {
            assert(loss <= a - b);
            assert((loss - 1) * t2 <= (a - b - 1) * t2) by (nonlinear_arith)
                requires
                    loss <= a - b,
                    0 < t2,
            ;
        } else {
            assert((loss - 1) * t2 < d) by (nonlinear_arith)
                requires
                    loss <= 0,
                    0 < t2,
                    0 < d,
            ;
        }
    } else {
        assert((loss - 1) * t2 < d) by (nonlinear_arith)
            requires
                loss == 0,
                0 < t2,
                0 < d,
        ;
    }
}

/// Rent covers the rest of the schedule and the buffer, unless that much cannot
/// be bought; then as much is bought as can be.
pub proof fn law_rent_covers_the_schedule(s: Stream, now: int, max_ttl: u32)
    ensures
        rent(s, now, max_ttl) <= max_ttl,
        rent(s, now, max_ttl) == max_ttl || rent(s, now, max_ttl) * SECONDS_PER_LEDGER
            >= seconds_left(s, now) + TTL_BUFFER_SECONDS,
{
}

// ---------------------------------------------------------------------------
// One call
// ---------------------------------------------------------------------------

/// A call that can change the ledger, with its arguments.
pub enum Call {
    Create {
        sender: Address,
        recipient: Address,
        token: Address,
        deposit: i128,
        start_time: u64,
        end_time: u64,
        cliff_time: u64,
        cancellable: bool,
        pausable: bool,
        transferable: bool,
    },
    Withdraw { stream_id: u64, requested: Option<i128> },
    TopUp { stream_id: u64, amount: i128 },
    Pause { stream_id: u64 },
    Cancel { stream_id: u64 },
}

/// Why the call is refused, if it is.
pub open spec fn refusal(l: Ledger, call: Call) -> Option<Error> {
    match call {
        Call::Create {
            sender,
            recipient,
            deposit,
            start_time,
            end_time,
            cliff_time,
            ..
        } => create_refusal(l, sender, recipient, deposit, start_time, end_time, cliff_time),
        Call::Withdraw { stream_id, requested } => withdraw_refusal(l, stream_id, requested),
        Call::TopUp { stream_id, amount } => top_up_refusal(l, stream_id, amount),
        Call::Pause { stream_id } => pause_refusal(l, stream_id),
        Call::Cancel { stream_id } => cancel_refusal(l, stream_id),
    }
}

/// The stream that the call is about: the one it names, or the next to come.
pub open spec fn target(l: Ledger, call: Call) -> u64 {
    match call {
        Call::Create { .. } => l.count,
        Call::Withdraw { stream_id, .. } => stream_id,
        Call::TopUp { stream_id, .. } => stream_id,
        Call::Pause { stream_id } => stream_id,
        Call::Cancel { stream_id } => stream_id,
    }
}

/// Whose authorization the call asks.
pub open spec fn signer(l: Ledger, call: Call) -> Address {
    match call {
        Call::Create { sender, .. } => sender,
        Call::Withdraw { stream_id, .. } => l.streams[stream_id].recipient,
        Call::TopUp { stream_id, .. } => l.streams[stream_id].sender,
        Call::Pause { stream_id } => l.streams[stream_id].sender,
        Call::Cancel { stream_id } => l.streams[stream_id].sender,
    }
}

/// The ledger after the call, accepted or refused.
pub open spec fn outcome(l: Ledger, call: Call) -> Ledger {
    match refusal(l, call) {
        Some(e) => if call is Create {
            l.push(Action::RequireAuth { address: signer(l, call) })
        } else if e == Error::StreamNotFound {
            l
        } else {
            consulted(l, target(l, call), signer(l, call))
        },
        None => match call {
            Call::Create {
                sender,
                recipient,
                token,
                deposit,
                start_time,
                end_time,
                cliff_time,
                cancellable,
                pausable,
                transferable,
            } => after_create(
                l,
                opened(
                    sender,
                    recipient,
                    token,
                    deposit,
                    start_time,
                    end_time,
                    cliff_time,
                    cancellable,
                    pausable,
                    transferable,
                ),
            ),
            Call::Withdraw { stream_id, requested } => after_withdraw(
                l,
                stream_id,
                payout_of(l, stream_id, requested),
            ),
            Call::TopUp { stream_id, amount } => after_top_up(l, stream_id, amount),
            Call::Pause { stream_id } => after_pause(l, stream_id),
            Call::Cancel { stream_id } => after_cancel(l, stream_id),
        },
    }
}

/// What the call asked of the ledger.
pub open spec fn asked(l: Ledger, call: Call) -> Seq<Action> {
    outcome(l, call).log.skip(l.log.len() as int)
}

/// Every call leaves a ledger on which every entry is valid.
pub proof fn law_validity_is_kept(l: Ledger, call: Call)
    requires
        l.wf(),
    ensures
        outcome(l, call).wf(),
{
    if refusal(l, call) is None {
        let id = target(l, call);
        if l.streams.contains_key(id) {
            lemma_accrual_fits(l.streams[id], l.now as int);
        }
        match call {
            Call::TopUp { stream_id, amount } => {
                lemma_grown_valid(l.streams[stream_id], amount);
            },
            Call::Cancel { stream_id } => {
                lemma_ended_valid(l.streams[stream_id], l.now);
            },
            _ => {},
        }
    }
}

/// A refused call changes no entry and issues no id, moves no tokens and
/// announces nothing: at most it has asked for rent and an authorization.
pub proof fn law_a_refused_call_changes_nothing(l: Ledger, call: Call)
    requires
        refusal(l, call) is Some,
    ensures
        outcome(l, call).streams == l.streams,
        outcome(l, call).count == l.count,
        forall|i: int|
            0 <= i < asked(l, call).len() ==> (#[trigger] asked(l, call)[i] is ExtendStream
                || asked(l, call)[i] is RequireAuth),
{
}

/// An accepted call touches one stream and no other.
pub proof fn law_a_call_touches_one_stream(l: Ledger, call: Call, other: u64)
    requires
        other != target(l, call),
    ensures
        outcome(l, call).streams.contains_key(other) == l.streams.contains_key(other),
        l.streams.contains_key(other) ==> outcome(l, call).streams[other] == l.streams[other],
{
}

/// The id of a new stream is one that no stream had before; the count of ids
/// grows by one for a new stream and stays for any other call.
pub proof fn law_a_new_id_is_unused(l: Ledger, call: Call)
    requires
        l.wf(),
    ensures
        call is Create && refusal(l, call) is None ==> {
            &&& !l.streams.contains_key(target(l, call))
            &&& outcome(l, call).streams.contains_key(target(l, call))
            &&& outcome(l, call).count == l.count + 1
        },
        !(call is Create && refusal(l, call) is None) ==> outcome(l, call).count == l.count,
{
}

/// An id from the count on was never issued and has no entry.
pub proof fn law_unissued_ids_have_no_entry(l: Ledger, stream_id: u64)
    requires
        l.wf(),
        stream_id >= l.count,
    ensures
        !l.streams.contains_key(stream_id),
{
}

/// What a recipient can rely on: the parties, the token, the start, the cliff
/// and the three rights.
pub open spec fn same_terms(a: Stream, b: Stream) -> bool {
    &&& a.sender == b.sender
    &&& a.recipient == b.recipient
    &&& a.token == b.token
    &&& a.start_time == b.start_time
    &&& a.cliff_time == b.cliff_time
    &&& a.cancellable == b.cancellable
    &&& a.pausable == b.pausable
    &&& a.transferable == b.transferable
}

/// A call that claws back or freezes a stream is accepted only where the stream
/// allows it.
pub proof fn law_rights_are_asked_for(l: Ledger, call: Call)
    requires
        refusal(l, call) is None,
    ensures
        call is Cancel ==> l.streams[target(l, call)].cancellable,
        call is Pause ==> l.streams[target(l, call)].pausable,
{
}

/// A backdated stream pays the backdated portion at once: what a new stream has
/// accrued on its schedule can be drawn in the instant of its creation.
pub proof fn law_backdated_portion_is_drawable_at_once(l: Ledger, call: Call)
    requires
        call is Create,
        refusal(l, call) is None,
    ensures
        drawable(outcome(l, call), l.count) == accrued(
            outcome(l, call).streams[l.count],
            l.now as int,
        ),
{
    law_validity_of_a_new_stream(l, call);
    lemma_accrual_fits(outcome(l, call).streams[l.count], l.now as int);
    crate::accrual::lemma_accrued_bounds(outcome(l, call).streams[l.count], l.now as int);
}

/// A new stream is valid, whatever else the ledger holds.
pub proof fn law_validity_of_a_new_stream(l: Ledger, call: Call)
    requires
        call is Create,
        refusal(l, call) is None,
    ensures
        outcome(l, call).streams.contains_key(l.count),
        outcome(l, call).streams[l.count].valid(),
{
}

/// No call takes away from what the recipient has earned and not drawn, except
/// the draw itself, by what it pays, and a top-up, by its rounding.
pub proof fn law_only_a_draw_lowers_the_balance(l: Ledger, call: Call, stream_id: u64)
    requires
        l.wf(),
        l.streams.contains_key(stream_id),
        !(call is TopUp && target(l, call) == stream_id),
    ensures
        drawable(outcome(l, call), stream_id) == drawable(l, stream_id) - (if refusal(l, call)
            is None && call is Withdraw && target(l, call) == stream_id {
            payout_of(l, stream_id, call->requested) as int
        } else {
            0
        }),
{
    lemma_accrual_fits(l.streams[stream_id], l.now as int);
    if refusal(l, call) is None && target(l, call) == stream_id {
        match call {
            Call::Pause { .. } => {
                law_pause_freezes(l.streams[stream_id], l.now, l.now as int);
            },
            Call::Cancel { .. } => {
                law_cancel_keeps_what_was_earned(l.streams[stream_id], l.now, l.now as int);
            },
            _ => {},
        }
    }
}

/// A draw stays within the schedule: what has been paid after it, from a stream
/// that was not cancelled, is no more than the schedule has released.
pub proof fn law_a_draw_stays_within_the_schedule(
    l: Ledger,
    stream_id: u64,
    requested: Option<i128>,
)
    requires
        l.sound_at(stream_id),
        withdraw_refusal(l, stream_id, requested) is None,
        l.streams[stream_id].status != StreamStatus::Cancelled,
    ensures
        ({
            let after = outcome(l, Call::Withdraw { stream_id, requested }).streams[stream_id];
            &&& after.withdrawn == l.streams[stream_id].withdrawn + payout_of(
                l,
                stream_id,
                requested,
            )
            &&& after.withdrawn <= accrued(l.streams[stream_id], l.now as int)
            &&& accrued(after, l.now as int) == accrued(l.streams[stream_id], l.now as int)
        }),
{
    lemma_accrual_fits(l.streams[stream_id], l.now as int);
}

/// The stream after payouts, one after the other.
pub open spec fn paid_each(stream: Stream, payouts: Seq<i128>) -> Stream
    decreases payouts.len(),
{
    if payouts.len() == 0 {
        stream
    } else {
        paid(paid_each(stream, payouts.drop_last()), payouts.last())
    }
}

/// A cancelled stream stays cancelled through any payouts, also when they drain
/// it: it is never relabelled as paid out.
pub proof fn law_cancelled_survives_any_payouts(stream: Stream, payouts: Seq<i128>)
    requires
        stream.status == StreamStatus::Cancelled,
    ensures
        paid_each(stream, payouts).status == StreamStatus::Cancelled,
        paid_each(stream, payouts).deposited == stream.deposited,
    decreases payouts.len(),
{
    if payouts.len() > 0 {
        law_cancelled_survives_any_payouts(stream, payouts.drop_last());
    }
}

/// Drawing everything leaves nothing to draw at that instant.
pub proof fn law_a_full_draw_empties_the_balance(l: Ledger, stream_id: u64, again: Option<i128>)
    requires
        l.wf(),
        withdraw_refusal(l, stream_id, None) is None,
    ensures
        withdraw_refusal(
            outcome(l, Call::Withdraw { stream_id, requested: None }),
            stream_id,
            again,
        ) == Some(Error::NothingToWithdraw),
{
    law_only_a_draw_lowers_the_balance(
        l,
        Call::Withdraw { stream_id, requested: None },
        stream_id,
    );
    lemma_accrual_fits(l.streams[stream_id], l.now as int);
}

/// A draw at or after the end of the schedule pays all that is left and ends
/// the stream: nothing stays behind.
pub proof fn law_everything_is_delivered(l: Ledger, stream_id: u64)
    requires
        l.wf(),
        l.streams.contains_key(stream_id),
        l.streams[stream_id].is_open(),
        clock(l.streams[stream_id], l.now as int) >= l.streams[stream_id].end_time,
    ensures
        withdraw_refusal(l, stream_id, None) is None,
        payout_of(l, stream_id, None) == l.streams[stream_id].deposited
            - l.streams[stream_id].withdrawn,
        ({
            let s = outcome(l, Call::Withdraw { stream_id, requested: None }).streams[stream_id];
            s.withdrawn == s.deposited && s.status == StreamStatus::Depleted
        }),
{
    law_everything_is_earned_at_the_end(l.streams[stream_id], l.now as int);
}

/// No call reopens a stream that was cancelled or paid out.
pub proof fn law_no_call_reopens_a_stream(l: Ledger, call: Call, stream_id: u64)
    requires
        l.wf(),
        l.streams.contains_key(stream_id),
        !l.streams[stream_id].is_open(),
    ensures
        outcome(l, call).streams.contains_key(stream_id),
        outcome(l, call).streams[stream_id].status == l.streams[stream_id].status,
        outcome(l, call).streams[stream_id].deposited == l.streams[stream_id].deposited,
{
}

/// Only a cancellation lowers what a stream holds in total.
pub proof fn law_a_deposit_falls_only_by_cancelling(l: Ledger, call: Call, stream_id: u64)
    requires
        l.wf(),
        l.streams.contains_key(stream_id),
        !(call is Cancel && target(l, call) == stream_id && refusal(l, call) is None),
    ensures
        outcome(l, call).streams.contains_key(stream_id),
        l.streams[stream_id].deposited <= outcome(l, call).streams[stream_id].deposited,
        outcome(l, call).streams[stream_id].status == StreamStatus::Cancelled
            ==> l.streams[stream_id].status == StreamStatus::Cancelled,
{
}

/// A stream is marked as paid out exactly when all of it was paid and it was
/// not cancelled.
pub proof fn law_depleted_means_paid_out(l: Ledger, stream_id: u64)
    requires
        l.wf(),
        l.streams.contains_key(stream_id),
    ensures
        (l.streams[stream_id].status == StreamStatus::Depleted) == (
        l.streams[stream_id].withdrawn == l.streams[stream_id].deposited
            && l.streams[stream_id].status != StreamStatus::Cancelled),
{
}

// --- The log ---------------------------------------------------------------

/// The ledger after one action of the log was performed on it.
pub open spec fn performed(l: Ledger, action: Action) -> Ledger {
    match action {
        Action::SetStreamCount { count } => Ledger { count, ..l }.push(action),
        Action::SaveStream { stream_id, stream } => l.with_stream(stream_id, stream).push(action),
        _ => l.push(action),
    }
}

/// The ledger after the actions were performed on it in order.
pub open spec fn replayed(l: Ledger, actions: Seq<Action>) -> Ledger
    decreases actions.len(),
{
    if actions.len() == 0 {
        l
    } else {
        performed(replayed(l, actions.drop_last()), actions.last())
    }
}

/// Performing actions adds them to the log and leaves time and parties alone.
proof fn lemma_replay_frame(l: Ledger, actions: Seq<Action>)
    ensures
        replayed(l, actions) == (Ledger {
            count: replayed(l, actions).count,
            streams: replayed(l, actions).streams,
            ..l.extend(actions)
        }),
    decreases actions.len(),
{
    if actions.len() > 0 {
        lemma_replay_frame(l, actions.drop_last());
        assert(l.log + actions =~= (l.log + actions.drop_last()).push(actions.last()));
    } else {
        assert(l.log + actions =~= l.log);
    }
}

/// Actions of which only that at `k` stores a stream, if there is such a `k`,
/// leave the entries with that stream stored.
proof fn lemma_replay_streams(l: Ledger, actions: Seq<Action>, k: int)
    requires
        forall|i: int| 0 <= i < actions.len() && i != k ==> !(#[trigger] actions[i] is SaveStream),
    ensures
        replayed(l, actions).streams == if 0 <= k < actions.len() && actions[k] is SaveStream {
            l.streams.insert(actions[k]->SaveStream_stream_id, actions[k]->stream)
        } else {
            l.streams
        },
    decreases actions.len(),
{
    if actions.len() > 0 {
        let earlier = actions.drop_last();
        assert forall|i: int| 0 <= i < earlier.len() && i != k implies !(
        #[trigger] earlier[i] is SaveStream) by {
            assert(earlier[i] == actions[i]);
        }
        lemma_replay_streams(l, earlier, k);
    }
}

/// Actions of which only that at `k` stores a count, if there is such a `k`,
/// leave that count.
proof fn lemma_replay_count(l: Ledger, actions: Seq<Action>, k: int)
    requires
        forall|i: int|
            0 <= i < actions.len() && i != k ==> !(#[trigger] actions[i] is SetStreamCount),
    ensures
        replayed(l, actions).count == if 0 <= k < actions.len() && actions[k] is SetStreamCount {
            actions[k]->count
        } else {
            l.count
        },
    decreases actions.len(),
{
    if actions.len() > 0 {
        let earlier = actions.drop_last();
        assert forall|i: int| 0 <= i < earlier.len() && i != k implies !(
        #[trigger] earlier[i] is SetStreamCount) by {
            assert(earlier[i] == actions[i]);
        }
        lemma_replay_count(l, earlier, k);
    }
}

/// Whoever performs the logged actions in order, and nothing else, brings about
/// the ledger that the call describes.
pub proof fn law_the_log_tells_everything(l: Ledger, call: Call)
    ensures
        replayed(l, asked(l, call)) == outcome(l, call),
{
    let actions = asked(l, call);
    lemma_replay_frame(l, actions);
    lemma_replay_streams(l, actions, 2);
    lemma_replay_count(l, actions, 1);
    assert(replayed(l, actions) =~= outcome(l, call));
}

/// An accepted call publishes exactly one event, as the last thing it does.
pub proof fn law_every_change_is_announced_once(l: Ledger, call: Call)
    requires
        refusal(l, call) is None,
    ensures
        asked(l, call).len() > 0,
        asked(l, call).last() is Publish,
        forall|i: int|
            0 <= i < asked(l, call).len() - 1 ==> !(#[trigger] asked(l, call)[i] is Publish),
{
}

/// Entries are written before tokens move: nothing but the event follows a
/// transfer.
pub proof fn law_writes_precede_transfers(l: Ledger, call: Call)
    ensures
        forall|i: int, j: int|
            0 <= i < j < asked(l, call).len() && #[trigger] asked(l, call)[i] is Transfer ==> (
            #[trigger] asked(l, call)[j] is Publish),
{
}

/// A call that finds its stream asks for the authorization of the one party
/// that may make it, and asks nothing before that but rent.
pub proof fn law_every_change_is_authorized(l: Ledger, call: Call)
    requires
        refusal(l, call) != Some(Error::StreamNotFound),
    ensures
        ({
            let k: int = if call is Create {
                0
            } else {
                1
            };
            &&& k < asked(l, call).len()
            &&& asked(l, call)[k] == (Action::RequireAuth { address: signer(l, call) })
            &&& forall|i: int| 0 <= i < k ==> #[trigger] asked(l, call)[i] is ExtendStream
            &&& forall|i: int|
                k < i < asked(l, call).len() ==> !(#[trigger] asked(l, call)[i] is RequireAuth)
        }),
{
}

/// Every accepted call buys rent for the stream that it leaves behind.
pub proof fn law_every_change_buys_rent(l: Ledger, call: Call)
    requires
        refusal(l, call) is None,
    ensures
        exists|i: int|
            0 <= i < asked(l, call).len() && #[trigger] asked(l, call)[i] == (
            Action::ExtendStream {
                stream_id: target(l, call),
                ledgers: rent(
                    outcome(l, call).streams[target(l, call)],
                    l.now as int,
                    l.max_ttl,
                ) as u32,
            }),
{
    let bought = asked(l, call)[3];
    assert(bought == (Action::ExtendStream {
        stream_id: target(l, call),
        ledgers: rent(
            outcome(l, call).streams[target(l, call)],
            l.now as int,
            l.max_ttl,
        ) as u32,
    }));
}

// --- The events ------------------------------------------------------------

/// The stream that the announcement of its creation describes.
pub open spec fn announced(event: StreamCreated) -> Stream {
    Stream {
        sender: event.sender,
        recipient: event.recipient,
        token: event.token,
        deposited: event.deposited,
        withdrawn: 0,
        start_time: event.start_time,
        end_time: event.end_time,
        cliff_time: event.cliff_time,
        cancellable: event.cancellable,
        pausable: event.pausable,
        transferable: event.transferable,
        paused_at: None,
        paused_total: 0,
        status: StreamStatus::Active,
    }
}

/// What an observer who knew `streams` knows after one more event.
pub open spec fn observed(streams: Map<u64, Stream>, event: Event) -> Map<u64, Stream> {
    match event {
        Event::StreamCreated(e) => streams.insert(e.stream_id, announced(e)),
        Event::Withdrawn(e) => streams.insert(
            e.stream_id,
            Stream {
                withdrawn: e.withdrawn,
                deposited: e.deposited,
                status: e.status,
                ..streams[e.stream_id]
            },
        ),
        Event::ToppedUp(e) => streams.insert(
            e.stream_id,
            Stream { deposited: e.deposited, end_time: e.end_time, ..streams[e.stream_id] },
        ),
        Event::StreamPaused(e) => streams.insert(
            e.stream_id,
            Stream {
                paused_at: Some(e.paused_at),
                status: StreamStatus::Paused,
                ..streams[e.stream_id]
            },
        ),
        Event::StreamCancelled(e) => streams.insert(
            e.stream_id,
            Stream {
                deposited: e.deposited,
                withdrawn: e.withdrawn,
                status: StreamStatus::Cancelled,
                ..streams[e.stream_id]
            },
        ),
    }
}

/// The event that a logged action publishes, if it publishes one, told to an
/// observer.
pub open spec fn overheard(streams: Map<u64, Stream>, action: Action) -> Map<u64, Stream> {
    match action {
        Action::Publish { event } => observed(streams, event),
        _ => streams,
    }
}

/// Events carry enough: an observer who only hears them knows every stream in
/// full after every call.
pub proof fn law_events_tell_everything(l: Ledger, call: Call)
    requires
        refusal(l, call) is None,
    ensures
        overheard(l.streams, asked(l, call).last()) == outcome(l, call).streams,
{
    let heard = overheard(l.streams, asked(l, call).last());
    assert(heard =~= outcome(l, call).streams);
}

/// What an observer who knew `streams` knows after hearing the actions.
pub open spec fn followed(streams: Map<u64, Stream>, actions: Seq<Action>) -> Map<u64, Stream>
    decreases actions.len(),
{
    if actions.len() == 0 {
        streams
    } else {
        overheard(followed(streams, actions.drop_last()), actions.last())
    }
}

/// Actions that publish nothing tell an observer nothing.
proof fn lemma_followed_silence(streams: Map<u64, Stream>, actions: Seq<Action>)
    requires
        forall|i: int| 0 <= i < actions.len() ==> !(#[trigger] actions[i] is Publish),
    ensures
        followed(streams, actions) == streams,
    decreases actions.len(),
{
    if actions.len() > 0 {
        let earlier = actions.drop_last();
        assert forall|i: int| 0 <= i < earlier.len() implies !(#[trigger] earlier[i] is Publish) by {
            assert(earlier[i] == actions[i]);
        }
        lemma_followed_silence(streams, earlier);
    }
}

/// An observer can stop and go on.
proof fn lemma_followed_concat(streams: Map<u64, Stream>, log: Seq<Action>, more: Seq<Action>)
    ensures
        followed(streams, log + more) == followed(followed(streams, log), more),
    decreases more.len(),
{
    if more.len() > 0 {
        assert((log + more).drop_last() =~= log + more.drop_last());
        lemma_followed_concat(streams, log, more.drop_last());
    } else {
        assert(log + more =~= log);
    }
}

/// An observer who hears all actions of one call knows every stream after it,
/// also where the call was refused.
proof fn lemma_followed_call(l: Ledger, call: Call)
    ensures
        followed(l.streams, asked(l, call)) == outcome(l, call).streams,
{
    let actions = asked(l, call);
    if refusal(l, call) is None {
        law_every_change_is_announced_once(l, call);
        law_events_tell_everything(l, call);
        let earlier = actions.drop_last();
        assert forall|i: int| 0 <= i < earlier.len() implies !(#[trigger] earlier[i] is Publish) by {
            assert(earlier[i] == actions[i]);
        }
        lemma_followed_silence(l.streams, earlier);
    } else {
        law_a_refused_call_changes_nothing(l, call);
        lemma_followed_silence(l.streams, actions);
    }
}

// --- The pool --------------------------------------------------------------

/// By how much an action changes the balance that `contract` has in `token`.
pub open spec fn inflow(action: Action, token: Address, contract: Address) -> int {
    match action {
        Action::Transfer { token: moved, from, to, amount } => if moved == token {
            (if to == contract {
                amount as int
            } else {
                0
            }) - (if from == contract {
                amount as int
            } else {
                0
            })
        } else {
            0
        },
        _ => 0,
    }
}

/// By how much the actions change the balance that `contract` has in `token`.
pub open spec fn pool(log: Seq<Action>, token: Address, contract: Address) -> int
    decreases log.len(),
{
    if log.len() == 0 {
        0
    } else {
        pool(log.drop_last(), token, contract) + inflow(log.last(), token, contract)
    }
}

/// What the contract holds in `token` for one stream.
pub open spec fn held(streams: Map<u64, Stream>, token: Address, stream_id: u64) -> int {
    if streams.contains_key(stream_id) && streams[stream_id].token == token {
        streams[stream_id].deposited - streams[stream_id].withdrawn
    } else {
        0
    }
}

/// What the contract holds in `token` for the streams with an id below `n`.
pub open spec fn owed(streams: Map<u64, Stream>, token: Address, n: nat) -> int
    decreases n,
{
    if n == 0 {
        0
    } else {
        owed(streams, token, (n - 1) as nat) + held(streams, token, (n - 1) as u64)
    }
}

/// By how much the pooled balance exceeds what is owed.
pub open spec fn surplus(l: Ledger, token: Address) -> int {
    pool(l.log, token, l.contract) - owed(l.streams, token, l.count as nat)
}

/// Appended actions add their flows.
pub proof fn lemma_pool_concat(log: Seq<Action>, more: Seq<Action>, token: Address, contract: Address)
    ensures
        pool(log + more, token, contract) == pool(log, token, contract) + pool(
            more,
            token,
            contract,
        ),
    decreases more.len(),
{
    if more.len() > 0 {
        assert((log + more).drop_last() =~= log + more.drop_last());
        lemma_pool_concat(log, more.drop_last(), token, contract);
    } else {
        assert(log + more =~= log);
    }
}

/// Actions of which only that at `k` moves tokens, if there is such a `k`, have
/// the flow of that one.
pub proof fn lemma_pool_of_one(actions: Seq<Action>, k: int, token: Address, contract: Address)
    requires
        forall|i: int| 0 <= i < actions.len() && i != k ==> !(#[trigger] actions[i] is Transfer),
    ensures
        pool(actions, token, contract) == if 0 <= k < actions.len() {
            inflow(actions[k], token, contract)
        } else {
            0
        },
    decreases actions.len(),
{
    if actions.len() > 0 {
        let earlier = actions.drop_last();
        assert forall|i: int| 0 <= i < earlier.len() && i != k implies !(
        #[trigger] earlier[i] is Transfer) by {
            assert(earlier[i] == actions[i]);
        }
        lemma_pool_of_one(earlier, k, token, contract);
    }
}

/// Writing one entry moves what is owed by the difference.
proof fn lemma_owed_insert(
    streams: Map<u64, Stream>,
    token: Address,
    n: nat,
    stream_id: u64,
    stream: Stream,
)
    requires
        n <= u64::MAX,
    ensures
        owed(streams.insert(stream_id, stream), token, n) == owed(streams, token, n) + (if stream_id
            < n {
            held(streams.insert(stream_id, stream), token, stream_id) - held(
                streams,
                token,
                stream_id,
            )
        } else {
            0
        }),
    decreases n,
{
    if n > 0 {
        lemma_owed_insert(streams, token, (n - 1) as nat, stream_id, stream);
    }
}

/// The party that pays or is paid, where the call moves tokens, is not the
/// contract itself.
pub open spec fn pays_outside(l: Ledger, call: Call) -> bool {
    refusal(l, call) is None && !(call is Pause) ==> signer(l, call) != l.contract
}

/// Every call moves the pooled balance of each token by exactly as much as what
/// is owed in it.
pub proof fn law_a_call_keeps_the_pool_exact(l: Ledger, call: Call, token: Address)
    requires
        l.wf(),
        pays_outside(l, call),
    ensures
        surplus(outcome(l, call), token) == surplus(l, token),
{
    let more = asked(l, call);
    let next = outcome(l, call);
    assert(next.log =~= l.log + more);
    lemma_pool_concat(l.log, more, token, l.contract);
    lemma_pool_of_one(
        more,
        if call is Create {
            5
        } else {
            4
        },
        token,
        l.contract,
    );
    if refusal(l, call) is None {
        let id = target(l, call);
        lemma_owed_insert(l.streams, token, l.count as nat, id, next.streams[id]);
        assert(next.streams =~= l.streams.insert(id, next.streams[id]));
        if l.streams.contains_key(id) {
            lemma_accrual_fits(l.streams[id], l.now as int);
        }
    }
}

/// The entries below `n` owe nothing negative, and each at most the whole.
proof fn lemma_owed_covers(streams: Map<u64, Stream>, token: Address, n: nat, stream_id: u64)
    requires
        n <= u64::MAX,
        forall|id: u64| #[trigger] streams.contains_key(id) ==> streams[id].valid(),
    ensures
        0 <= owed(streams, token, n),
        stream_id < n ==> held(streams, token, stream_id) <= owed(streams, token, n),
    decreases n,
{
    if n > 0 {
        lemma_owed_covers(streams, token, (n - 1) as nat, stream_id);
    }
}

/// A pool that is exact backs every stream in full: the balance covers what is
/// still owed on any one of them, and so what its recipient could draw and its
/// sender could get back.
pub proof fn law_an_exact_pool_backs_every_stream(l: Ledger, stream_id: u64)
    requires
        l.wf(),
        l.streams.contains_key(stream_id),
        surplus(l, l.streams[stream_id].token) == 0,
    ensures
        l.streams[stream_id].deposited - l.streams[stream_id].withdrawn <= pool(
            l.log,
            l.streams[stream_id].token,
            l.contract,
        ),
        drawable(l, stream_id) + unearned(l.streams[stream_id], l.now as int) <= pool(
            l.log,
            l.streams[stream_id].token,
            l.contract,
        ),
{
    lemma_owed_covers(l.streams, l.streams[stream_id].token, l.count as nat, stream_id);
}

// ---------------------------------------------------------------------------
// Any number of calls
// ---------------------------------------------------------------------------

/// A call and the ledger time at which it is made.
pub struct Step {
    pub now: u64,
    pub call: Call,
}

/// The same ledger at time `now`.
pub open spec fn at(l: Ledger, now: u64) -> Ledger {
    Ledger { now, ..l }
}

/// The ledger after the steps, one after the other.
pub open spec fn run(l: Ledger, steps: Seq<Step>) -> Ledger
    decreases steps.len(),
{
    if steps.len() == 0 {
        l
    } else {
        outcome(at(run(l, steps.drop_last()), steps.last().now), steps.last().call)
    }
}

/// Whatever calls are made and whenever, every entry stays valid, and no id or
/// entry is lost.
pub proof fn law_validity_lasts(l: Ledger, steps: Seq<Step>)
    requires
        l.wf(),
    ensures
        run(l, steps).wf(),
        run(l, steps).contract == l.contract,
        l.count <= run(l, steps).count,
        l.streams.dom().subset_of(run(l, steps).streams.dom()),
    decreases steps.len(),
{
    if steps.len() > 0 {
        law_validity_lasts(l, steps.drop_last());
        let before = at(run(l, steps.drop_last()), steps.last().now);
        assert(before.wf());
        law_validity_is_kept(before, steps.last().call);
    }
}

/// Ids run from 0 to the count: where every id issued so far has its entry, it
/// is so after any calls.
pub proof fn law_ids_run_up_to_the_count(l: Ledger, steps: Seq<Step>, stream_id: u64)
    requires
        l.wf(),
        forall|id: u64| id < l.count ==> #[trigger] l.streams.contains_key(id),
    ensures
        run(l, steps).streams.contains_key(stream_id) == (stream_id < run(l, steps).count),
    decreases steps.len(),
{
    if steps.len() > 0 {
        law_ids_run_up_to_the_count(l, steps.drop_last(), stream_id);
    }
}

/// The terms of a stream never change, whatever calls are made: in particular a
/// stream that cannot be cancelled, paused or transferred never becomes one
/// that can.
pub proof fn law_terms_never_change(l: Ledger, steps: Seq<Step>, stream_id: u64)
    requires
        l.wf(),
        l.streams.contains_key(stream_id),
    ensures
        run(l, steps).streams.contains_key(stream_id),
        same_terms(run(l, steps).streams[stream_id], l.streams[stream_id]),
    decreases steps.len(),
{
    if steps.len() > 0 {
        law_terms_never_change(l, steps.drop_last(), stream_id);
        law_validity_lasts(l, steps.drop_last());
    }
}

/// A stream that was cancelled or paid out stays so, with what it holds,
/// whatever calls are made.
pub proof fn law_endings_are_final(l: Ledger, steps: Seq<Step>, stream_id: u64)
    requires
        l.wf(),
        l.streams.contains_key(stream_id),
        !l.streams[stream_id].is_open(),
    ensures
        run(l, steps).streams.contains_key(stream_id),
        run(l, steps).streams[stream_id].status == l.streams[stream_id].status,
        run(l, steps).streams[stream_id].deposited == l.streams[stream_id].deposited,
    decreases steps.len(),
{
    if steps.len() > 0 {
        law_endings_are_final(l, steps.drop_last(), stream_id);
        law_validity_lasts(l, steps.drop_last());
        let before = at(run(l, steps.drop_last()), steps.last().now);
        law_no_call_reopens_a_stream(before, steps.last().call, stream_id);
    }
}

/// The sender can never claw back a stream that does not allow it: whatever
/// calls are made, it is not cancelled and its deposit does not fall.
pub proof fn law_an_uncancellable_stream_is_never_clawed_back(
    l: Ledger,
    steps: Seq<Step>,
    stream_id: u64,
)
    requires
        l.wf(),
        l.streams.contains_key(stream_id),
        !l.streams[stream_id].cancellable,
        l.streams[stream_id].status != StreamStatus::Cancelled,
    ensures
        run(l, steps).streams.contains_key(stream_id),
        run(l, steps).streams[stream_id].status != StreamStatus::Cancelled,
        l.streams[stream_id].deposited <= run(l, steps).streams[stream_id].deposited,
    decreases steps.len(),
{
    if steps.len() > 0 {
        law_an_uncancellable_stream_is_never_clawed_back(l, steps.drop_last(), stream_id);
        law_terms_never_change(l, steps.drop_last(), stream_id);
        law_validity_lasts(l, steps.drop_last());
        let before = at(run(l, steps.drop_last()), steps.last().now);
        law_a_deposit_falls_only_by_cancelling(before, steps.last().call, stream_id);
    }
}

/// The sender can never freeze a stream that does not allow it: whatever calls
/// are made, it is not paused and its clock is not held.
pub proof fn law_an_unpausable_stream_is_never_frozen(
    l: Ledger,
    steps: Seq<Step>,
    stream_id: u64,
)
    requires
        l.wf(),
        l.streams.contains_key(stream_id),
        !l.streams[stream_id].pausable,
        l.streams[stream_id].status != StreamStatus::Paused,
    ensures
        run(l, steps).streams.contains_key(stream_id),
        run(l, steps).streams[stream_id].status != StreamStatus::Paused,
        run(l, steps).streams[stream_id].paused_at == l.streams[stream_id].paused_at,
    decreases steps.len(),
{
    if steps.len() > 0 {
        law_an_unpausable_stream_is_never_frozen(l, steps.drop_last(), stream_id);
        law_terms_never_change(l, steps.drop_last(), stream_id);
        law_validity_lasts(l, steps.drop_last());
    }
}

/// Events are enough to know every stream: an observer who knew the streams at
/// some time and hears the events since knows them in full, whatever calls are
/// made.
pub proof fn law_events_are_enough(l: Ledger, steps: Seq<Step>)
    ensures
        l.log.is_prefix_of(run(l, steps).log),
        followed(l.streams, run(l, steps).log.skip(l.log.len() as int)) == run(l, steps).streams,
    decreases steps.len(),
{
    if steps.len() > 0 {
        law_events_are_enough(l, steps.drop_last());
        let before = at(run(l, steps.drop_last()), steps.last().now);
        let n = l.log.len() as int;
        let more = asked(before, steps.last().call);
        lemma_followed_call(before, steps.last().call);
        lemma_followed_concat(l.streams, before.log.skip(n), more);
        assert(run(l, steps).log =~= before.log + more);
        assert(run(l, steps).log.skip(n) =~= before.log.skip(n) + more);
    } else {
        assert(l.log.skip(l.log.len() as int) =~= Seq::empty());
    }
}

/// How many streams the steps create.
pub open spec fn creations(l: Ledger, steps: Seq<Step>) -> nat
    decreases steps.len(),
{
    if steps.len() == 0 {
        0
    } else {
        let before = at(run(l, steps.drop_last()), steps.last().now);
        creations(l, steps.drop_last()) + (if steps.last().call is Create && refusal(
            before,
            steps.last().call,
        ) is None {
            1nat
        } else {
            0nat
        })
    }
}

/// Ids are never reused: the count of ids grows by exactly one for each stream
/// created, whatever other calls are made, and the stream that one more call
/// would create gets the id that follows all those.
pub proof fn law_ids_are_never_reused(l: Ledger, steps: Seq<Step>, next: Call)
    ensures
        run(l, steps).count == l.count + creations(l, steps),
        next is Create ==> target(run(l, steps), next) == l.count + creations(l, steps),
    decreases steps.len(),
{
    if steps.len() > 0 {
        law_ids_are_never_reused(l, steps.drop_last(), next);
    }
}

/// Ledger time does not run backwards over the steps.
pub open spec fn timely(l: Ledger, steps: Seq<Step>) -> bool
    decreases steps.len(),
{
    steps.len() == 0 || {
        &&& timely(l, steps.drop_last())
        &&& run(l, steps.drop_last()).now <= steps.last().now
    }
}

/// None of the steps adds funds to the stream.
pub open spec fn no_top_up(steps: Seq<Step>, stream_id: u64) -> bool {
    forall|i: int|
        0 <= i < steps.len() ==> !(#[trigger] steps[i].call is TopUp
            && steps[i].call->TopUp_stream_id == stream_id)
}

/// A stream to which nothing is added earns by the schedule alone: where it has
/// paid no more than the schedule has released, as when it is new, that stays
/// so whatever other calls are made, and the earned amount is the accrued
/// amount until it is cancelled.
pub proof fn law_without_top_ups_the_schedule_rules(l: Ledger, steps: Seq<Step>, stream_id: u64)
    requires
        l.wf(),
        l.streams.contains_key(stream_id),
        l.streams[stream_id].status != StreamStatus::Cancelled ==> l.streams[stream_id].withdrawn
            <= accrued(l.streams[stream_id], l.now as int),
        timely(l, steps),
        no_top_up(steps, stream_id),
    ensures
        run(l, steps).streams.contains_key(stream_id),
        ({
            let s = run(l, steps).streams[stream_id];
            let now = run(l, steps).now as int;
            s.status != StreamStatus::Cancelled ==> s.withdrawn <= accrued(s, now) && earned(s, now)
                == accrued(s, now)
        }),
    decreases steps.len(),
{
    if steps.len() > 0 {
        let earlier = steps.drop_last();
        let call = steps.last().call;
        assert(no_top_up(earlier, stream_id)) by {
            assert forall|i: int| 0 <= i < earlier.len() implies !(
            #[trigger] earlier[i].call is TopUp && earlier[i].call->TopUp_stream_id == stream_id) by {
                assert(earlier[i] == steps[i]);
            }
        }
        law_without_top_ups_the_schedule_rules(l, earlier, stream_id);
        law_validity_lasts(l, earlier);
        let before = at(run(l, earlier), steps.last().now);
        let s = before.streams[stream_id];
        law_earned_never_falls(s, run(l, earlier).now as int, before.now as int);
        assert(steps[steps.len() - 1].call == call);
        if refusal(before, call) is None && target(before, call) == stream_id && s.status
            != StreamStatus::Cancelled {
            match call {
                Call::Withdraw { requested, .. } => {
                    law_a_draw_stays_within_the_schedule(before, stream_id, requested);
                },
                _ => {},
            }
        }
    }
}

/// In no step does the contract pay itself.
pub open spec fn all_pay_outside(l: Ledger, steps: Seq<Step>) -> bool
    decreases steps.len(),
{
    steps.len() == 0 || {
        &&& all_pay_outside(l, steps.drop_last())
        &&& pays_outside(at(run(l, steps.drop_last()), steps.last().now), steps.last().call)
    }
}

/// The pooled balance of each token stays exactly what is owed in it, after any
/// calls, successful or not.
pub proof fn law_the_pool_stays_exact(l: Ledger, steps: Seq<Step>, token: Address)
    requires
        l.wf(),
        all_pay_outside(l, steps),
    ensures
        surplus(run(l, steps), token) == surplus(l, token),
    decreases steps.len(),
{
    if steps.len() > 0 {
        let earlier = steps.drop_last();
        law_the_pool_stays_exact(l, earlier, token);
        law_validity_lasts(l, earlier);
        let before = at(run(l, earlier), steps.last().now);
        law_a_call_keeps_the_pool_exact(before, steps.last().call, token);
    }
}

/// A contract that starts with no stream holds at every moment exactly what it
/// owes.
pub proof fn law_the_pool_is_exact_from_the_start(l: Ledger, steps: Seq<Step>, token: Address)
    requires
        l.streams == Map::<u64, Stream>::empty(),
        l.log == Seq::<Action>::empty(),
        all_pay_outside(l, steps),
    ensures
        pool(run(l, steps).log, token, l.contract) == owed(
            run(l, steps).streams,
            token,
            run(l, steps).count as nat,
        ),
{
    law_the_pool_stays_exact(l, steps, token);
    law_validity_lasts(l, steps);
    lemma_owed_nothing(token, l.count as nat);
}

/// Nothing is owed without streams.
proof fn lemma_owed_nothing(token: Address, n: nat)
    ensures
        owed(Map::<u64, Stream>::empty(), token, n) == 0,
    decreases n,
{
    if n > 0 {
        lemma_owed_nothing(token, (n - 1) as nat);
    }
}

} // verus!
