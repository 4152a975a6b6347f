//! Stream entries, stream ids, and the rent that keeps entries readable.
//!
//! A ledger entry lives for a bought number of ledgers and is archived after
//! that. Every call that may change a stream buys its entry rent for the rest
//! of the schedule and some more; views buy none.

use vstd::prelude::*;

use crate::accrual::{clock, stream_time};
use crate::env::{Action, Env, Ledger};
use crate::error::Error;
use crate::types::Stream;

verus! {

/// Nominal seconds between two ledgers.
pub const SECONDS_PER_LEDGER: u64 = 5;

/// Seconds of rent bought beyond the end of a schedule: thirty days.
pub const TTL_BUFFER_SECONDS: u64 = 2_592_000;

/// Seconds until the schedule ends, on the stream's clock.
pub open spec fn seconds_left(s: Stream, now: int) -> int {
    if s.end_time > clock(s, now) {
        s.end_time - clock(s, now)
    } else {
        0
    }
}

/// Ledgers of rent for a stream: enough for the seconds left and the buffer,
/// rounded up, but no more than can be bought.
pub open spec fn rent(s: Stream, now: int, max_ttl: u32) -> int {
    let seconds = seconds_left(s, now) + TTL_BUFFER_SECONDS;
    let ledgers = (seconds + SECONDS_PER_LEDGER - 1) / (SECONDS_PER_LEDGER as int);
    if ledgers < max_ttl {
        ledgers
    } else {
        max_ttl as int
    }
}

/// The ledger after rent was bought for the entry of `stream`.
pub open spec fn renewed(l: Ledger, stream_id: u64, stream: Stream) -> Ledger {
    l.push(
        Action::ExtendStream {
            stream_id,
            ledgers: rent(stream, l.now as int, l.max_ttl) as u32,
        },
    )
}

/// The ledger after `stream` was stored and rent was bought for it.
pub open spec fn saved(l: Ledger, stream_id: u64, stream: Stream) -> Ledger {
    renewed(
        l.with_stream(stream_id, stream).push(Action::SaveStream { stream_id, stream }),
        stream_id,
        stream,
    )
}

/// Ledgers of rent to buy for a stream at `now`.
pub fn ttl_ledgers(stream: &Stream, now: u64, max_ttl: u32) -> (ledgers: u32)
    ensures
        ledgers == rent(*stream, now as int, max_ttl),
{
    let left: u64 = stream.end_time.saturating_sub(stream_time(stream, now));
    let seconds: u64 = left.saturating_add(TTL_BUFFER_SECONDS);
    let whole: u64 = seconds / SECONDS_PER_LEDGER;
    let needed: u64 = if seconds % SECONDS_PER_LEDGER == 0 {
        whole
    } else {
        whole + 1
    };
    if needed < max_ttl as u64 {
        needed as u32
    } else {
        max_ttl
    }
}

/// Number of stream ids issued.
pub fn stream_count(env: &Env) -> (count: u64)
    ensures
        count == env@.count,
{
    env.count()
}

/// Issue the next stream id. Ids count up from 0 and are never reused.
pub(crate) fn next_stream_id(env: &mut Env) -> (r: Result<u64, Error>)
    ensures
        match r {
            Ok(id) => {
                &&& old(env)@.count < u64::MAX
                &&& id == old(env)@.count
                &&& final(env)@ == (Ledger { count: (id + 1) as u64, ..old(env)@ }).push(
                    Action::SetStreamCount { count: (id + 1) as u64 },
                )
            },
            Err(e) => {
                &&& old(env)@.count == u64::MAX
                &&& e == Error::Overflow
                &&& final(env)@ == old(env)@
            },
        },
{
    let id: u64 = env.count();
    match id.checked_add(1) {
        Some(next) => {
            env.set_count(next);
            Ok(id)
        },
        None => Err(Error::Overflow),
    }
}

/// Whether a stream entry can be read.
pub fn stream_exists(env: &Env, stream_id: u64) -> (r: bool)
    ensures
        r == env@.streams.contains_key(stream_id),
{
    env.entry(stream_id).is_some()
}

/// Read a stream without buying rent for it.
pub fn peek_stream(env: &Env, stream_id: u64) -> (r: Result<Stream, Error>)
    ensures
        match r {
            Ok(stream) => env@.streams.contains_key(stream_id) && stream == env@.streams[stream_id],
            Err(e) => !env@.streams.contains_key(stream_id) && e == Error::StreamNotFound,
        },
{
    match env.entry(stream_id) {
        Some(stream) => Ok(stream),
        None => Err(Error::StreamNotFound),
    }
}

/// Read a stream that is about to be changed, and buy rent for it.
pub(crate) fn load_stream(env: &mut Env, stream_id: u64) -> (r: Result<Stream, Error>)
    ensures
        match r {
            Ok(stream) => {
                &&& old(env)@.streams.contains_key(stream_id)
                &&& stream == old(env)@.streams[stream_id]
                &&& final(env)@ == renewed(old(env)@, stream_id, stream)
            },
            Err(e) => {
                &&& !old(env)@.streams.contains_key(stream_id)
                &&& e == Error::StreamNotFound
                &&& final(env)@ == old(env)@
            },
        },
{
    match peek_stream(env, stream_id) {
        Ok(stream) => {
            let ledgers: u32 = ttl_ledgers(&stream, env.timestamp(), env.max_ttl());
            env.extend_entry(stream_id, ledgers);
            Ok(stream)
        },
        Err(e) => Err(e),
    }
}

/// Store a stream and buy rent for it.
pub(crate) fn save_stream(env: &mut Env, stream_id: u64, stream: &Stream)
    ensures
        final(env)@ == saved(old(env)@, stream_id, *stream),
{
    let ledgers: u32 = ttl_ledgers(stream, env.timestamp(), env.max_ttl());
    env.set_entry(stream_id, *stream);
    env.extend_entry(stream_id, ledgers);
}

/// Buy the contract instance as much rent as can be bought.
pub(crate) fn extend_instance(env: &mut Env)
    ensures
        final(env)@ == old(env)@.push(Action::ExtendInstance { ledgers: old(env)@.max_ttl }),
{
    let ledgers: u32 = env.max_ttl();
    env.extend_instance(ledgers);
}

} // verus!
