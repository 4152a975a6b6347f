//! What the contract announces.
//!
//! The contract keeps no index of streams, so these events are the only way in
//! which an observer learns that a stream exists or that its state has moved.
//! Every state change publishes exactly one of them.

use vstd::prelude::*;

use crate::env::{Action, Env};
use crate::types::{Address, Stream, StreamStatus};

verus! {

/// A new stream, with its complete initial state.
#[derive(Clone, Copy, Debug, PartialEq, Eq)]
pub struct StreamCreated {
    pub stream_id: u64,
    pub sender: Address,
    pub recipient: Address,
    pub token: Address,
    pub deposited: i128,
    pub start_time: u64,
    pub end_time: u64,
    pub cliff_time: u64,
    pub cancellable: bool,
    pub pausable: bool,
    pub transferable: bool,
}

/// The recipient drew earned funds.
#[derive(Clone, Copy, Debug, PartialEq, Eq)]
pub struct Withdrawn {
    pub stream_id: u64,
    pub recipient: Address,
    /// Amount moved in this call.
    pub amount: i128,
    /// Cumulative withdrawn after this call.
    pub withdrawn: i128,
    pub deposited: i128,
    pub status: StreamStatus,
}

/// The sender added funds; the schedule grew with them.
#[derive(Clone, Copy, Debug, PartialEq, Eq)]
pub struct ToppedUp {
    pub stream_id: u64,
    pub sender: Address,
    /// Amount moved in this call.
    pub amount: i128,
    /// Total deposit after this call.
    pub deposited: i128,
    pub end_time: u64,
}

/// The sender stopped the accrual.
#[derive(Clone, Copy, Debug, PartialEq, Eq)]
pub struct StreamPaused {
    pub stream_id: u64,
    pub sender: Address,
    pub paused_at: u64,
}

/// The sender ended the stream and took back what was not earned.
#[derive(Clone, Copy, Debug, PartialEq, Eq)]
pub struct StreamCancelled {
    pub stream_id: u64,
    pub sender: Address,
    /// Amount given back to the sender.
    pub refunded: i128,
    /// What remains the recipient's, paid out or not.
    pub deposited: i128,
    pub withdrawn: i128,
}

/// Any event of the contract.
#[derive(Clone, Copy, Debug, PartialEq, Eq)]
pub enum Event {
    StreamCreated(StreamCreated),
    Withdrawn(Withdrawn),
    ToppedUp(ToppedUp),
    StreamPaused(StreamPaused),
    StreamCancelled(StreamCancelled),
}

/// The event for a stream that was just created.
pub open spec fn created_event(stream_id: u64, stream: Stream) -> Event {
    Event::StreamCreated(
        StreamCreated {
            stream_id,
            sender: stream.sender,
            recipient: stream.recipient,
            token: stream.token,
            deposited: stream.deposited,
            start_time: stream.start_time,
            end_time: stream.end_time,
            cliff_time: stream.cliff_time,
            cancellable: stream.cancellable,
            pausable: stream.pausable,
            transferable: stream.transferable,
        },
    )
}

/// The event for a payout of `amount` that left the stream as given.
pub open spec fn withdrawn_event(stream_id: u64, stream: Stream, amount: i128) -> Event {
    Event::Withdrawn(
        Withdrawn {
            stream_id,
            recipient: stream.recipient,
            amount,
            withdrawn: stream.withdrawn,
            deposited: stream.deposited,
            status: stream.status,
        },
    )
}

/// The event for an added `amount` that left the stream as given.
pub open spec fn topped_up_event(stream_id: u64, stream: Stream, amount: i128) -> Event {
    Event::ToppedUp(
        ToppedUp {
            stream_id,
            sender: stream.sender,
            amount,
            deposited: stream.deposited,
            end_time: stream.end_time,
        },
    )
}

/// The event for a pause at `paused_at`.
pub open spec fn paused_event(stream_id: u64, stream: Stream, paused_at: u64) -> Event {
    Event::StreamPaused(StreamPaused { stream_id, sender: stream.sender, paused_at })
}

/// The event for a cancellation that gave `refunded` back and left the stream
/// as given.
pub open spec fn cancelled_event(stream_id: u64, stream: Stream, refunded: i128) -> Event {
    Event::StreamCancelled(
        StreamCancelled {
            stream_id,
            sender: stream.sender,
            refunded,
            deposited: stream.deposited,
            withdrawn: stream.withdrawn,
        },
    )
}

/// Announce a new stream.
pub fn stream_created(env: &mut Env, stream_id: u64, stream: &Stream)
    ensures
        final(env)@ == old(env)@.push(
            Action::Publish { event: created_event(stream_id, *stream) },
        ),
{
    env.publish(
        Event::StreamCreated(
            StreamCreated {
                stream_id,
                sender: stream.sender,
                recipient: stream.recipient,
                token: stream.token,
                deposited: stream.deposited,
                start_time: stream.start_time,
                end_time: stream.end_time,
                cliff_time: stream.cliff_time,
                cancellable: stream.cancellable,
                pausable: stream.pausable,
                transferable: stream.transferable,
            },
        ),
    );
}

/// Announce a payout.
pub fn withdrawn(env: &mut Env, stream_id: u64, stream: &Stream, amount: i128)
    ensures
        final(env)@ == old(env)@.push(
            Action::Publish { event: withdrawn_event(stream_id, *stream, amount) },
        ),
{
    env.publish(
        Event::Withdrawn(
            Withdrawn {
                stream_id,
                recipient: stream.recipient,
                amount,
                withdrawn: stream.withdrawn,
                deposited: stream.deposited,
                status: stream.status,
            },
        ),
    );
}

/// Announce added funds.
pub fn topped_up(env: &mut Env, stream_id: u64, stream: &Stream, amount: i128)
    ensures
        final(env)@ == old(env)@.push(
            Action::Publish { event: topped_up_event(stream_id, *stream, amount) },
        ),
{
    env.publish(
        Event::ToppedUp(
            ToppedUp {
                stream_id,
                sender: stream.sender,
                amount,
                deposited: stream.deposited,
                end_time: stream.end_time,
            },
        ),
    );
}

/// Announce a pause.
pub fn stream_paused(env: &mut Env, stream_id: u64, stream: &Stream, paused_at: u64)
    ensures
        final(env)@ == old(env)@.push(
            Action::Publish { event: paused_event(stream_id, *stream, paused_at) },
        ),
{
    env.publish(
        Event::StreamPaused(StreamPaused { stream_id, sender: stream.sender, paused_at }),
    );
}

/// Announce a cancellation.
pub fn stream_cancelled(env: &mut Env, stream_id: u64, stream: &Stream, refunded: i128)
    ensures
        final(env)@ == old(env)@.push(
            Action::Publish { event: cancelled_event(stream_id, *stream, refunded) },
        ),
{
    env.publish(
        Event::StreamCancelled(
            StreamCancelled {
                stream_id,
                sender: stream.sender,
                refunded,
                deposited: stream.deposited,
                withdrawn: stream.withdrawn,
            },
        ),
    );
}

} // verus!
