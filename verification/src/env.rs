//! The ledger as one contract call sees it.
//!
//! An [`Env`] holds the entries that a call may read and records, in order, the
//! [`Action`]s that the call asks of the ledger: authorizations, entry writes,
//! rent, token transfers, events. Whoever runs the call performs the actions in
//! the order of the log. A call that returns an error takes effect nowhere.

use std::collections::BTreeMap;

use vstd::prelude::*;

use crate::events::Event;
use crate::types::{Address, Stream};

verus! {

/// One thing that a call asks of the ledger.
#[derive(Clone, Copy, Debug, PartialEq, Eq)]
pub enum Action {
    /// Fail the call unless `address` has authorized it.
    RequireAuth { address: Address },
    /// Store the number of stream ids issued.
    SetStreamCount { count: u64 },
    /// Store a stream.
    SaveStream { stream_id: u64, stream: Stream },
    /// Keep a stream entry alive for at least `ledgers` more ledgers.
    ExtendStream { stream_id: u64, ledgers: u32 },
    /// Keep the contract instance alive for at least `ledgers` more ledgers.
    ExtendInstance { ledgers: u32 },
    /// Move tokens.
    Transfer { token: Address, from: Address, to: Address, amount: i128 },
    /// Announce a state change.
    Publish { event: Event },
}

/// What an [`Env`] holds.
#[verifier::ext_equal]
pub struct Ledger {
    /// Ledger time in seconds.
    pub now: u64,
    /// The address of the contract itself.
    pub contract: Address,
    /// The longest life, in ledgers, that can be bought for an entry.
    pub max_ttl: u32,
    /// Number of stream ids issued.
    pub count: u64,
    /// The stream entries that can be read.
    pub streams: Map<u64, Stream>,
    /// Delegation nonces; of several for one owner the last counts.
    pub nonces: Seq<(Address, u64)>,
    /// What was asked of the ledger so far.
    pub log: Seq<Action>,
}

/// The nonce of `owner`: that of its last entry, or 0 where it has none.
pub open spec fn nonce_of(nonces: Seq<(Address, u64)>, owner: Address) -> u64
    decreases nonces.len(),
{
    if nonces.len() == 0 {
        0
    } else if nonces.last().0 == owner {
        nonces.last().1
    } else {
        nonce_of(nonces.drop_last(), owner)
    }
}

impl Ledger {
    /// Every entry is one that the contract may hold, under an id that was issued.
    pub open spec fn wf(self) -> bool {
        forall|id: u64| #[trigger]
            self.streams.contains_key(id) ==> self.streams[id].valid() && id < self.count
    }

    /// The entry under `stream_id`, where there is one, is one that the contract
    /// may hold.
    pub open spec fn sound_at(self, stream_id: u64) -> bool {
        self.streams.contains_key(stream_id) ==> self.streams[stream_id].valid()
    }

    /// The same ledger with one more action in the log.
    pub open spec fn push(self, action: Action) -> Ledger {
        Ledger { log: self.log.push(action), ..self }
    }

    /// The same ledger with `actions` added to the log.
    pub open spec fn extend(self, actions: Seq<Action>) -> Ledger {
        Ledger { log: self.log + actions, ..self }
    }

    /// The same ledger with the stream entry written.
    pub open spec fn with_stream(self, stream_id: u64, stream: Stream) -> Ledger {
        Ledger { streams: self.streams.insert(stream_id, stream), ..self }
    }
}

/// The ledger as one contract call sees it.
pub struct Env {
    now: u64,
    contract: Address,
    max_ttl: u32,
    count: u64,
    streams: BTreeMap<u64, Stream>,
    nonces: Vec<(Address, u64)>,
    log: Vec<Action>,
}

impl View for Env {
    type V = Ledger;

    closed spec fn view(&self) -> Ledger {
        Ledger {
            now: self.now,
            contract: self.contract,
            max_ttl: self.max_ttl,
            count: self.count,
            streams: self.streams@,
            nonces: self.nonces@,
            log: self.log@,
        }
    }
}

impl Env {
    /// A ledger on which `count` stream ids were issued, with no entry loaded
    /// and nothing asked of it yet.
    pub fn new(now: u64, contract: Address, max_ttl: u32, count: u64) -> (env: Env)
        ensures
            env@.wf(),
            env@ == (Ledger {
                now,
                contract,
                max_ttl,
                count,
                streams: Map::empty(),
                nonces: Seq::empty(),
                log: Seq::empty(),
            }),
    {
        Env {
            now,
            contract,
            max_ttl,
            count,
            streams: BTreeMap::new(),
            nonces: Vec::new(),
            log: Vec::new(),
        }
    }

    /// Load a stream entry. Refused, with nothing changed, where the id was
    /// never issued or the contract cannot hold such a stream.
    pub fn load_entry(&mut self, stream_id: u64, stream: Stream) -> (loaded: bool)
        ensures
            loaded == (stream_id < old(self)@.count && stream.valid()),
            final(self)@ == (if loaded {
                old(self)@.with_stream(stream_id, stream)
            } else {
                old(self)@
            }),
            old(self)@.wf() ==> final(self)@.wf(),
    {
        if stream_id < self.count && stream.is_valid() {
            self.streams.insert(stream_id, stream);
            true
        } else {
            false
        }
    }

    /// Load a delegation nonce.
    pub fn load_nonce(&mut self, owner: Address, nonce: u64)
        ensures
            final(self)@ == (Ledger { nonces: old(self)@.nonces.push((owner, nonce)), ..old(self)@ }),
    {
        self.nonces.push((owner, nonce));
    }

    /// Move the ledger clock.
    pub fn set_timestamp(&mut self, now: u64)
        ensures
            final(self)@ == (Ledger { now, ..old(self)@ }),
    {
        self.now = now;
    }

    /// Ledger time in seconds.
    pub fn timestamp(&self) -> (now: u64)
        ensures
            now == self@.now,
    {
        self.now
    }

    /// The address of the contract itself.
    pub fn current_contract_address(&self) -> (address: Address)
        ensures
            address == self@.contract,
    {
        self.contract
    }

    /// The longest life, in ledgers, that can be bought for an entry.
    pub fn max_ttl(&self) -> (ledgers: u32)
        ensures
            ledgers == self@.max_ttl,
    {
        self.max_ttl
    }

    /// Number of stream ids issued.
    pub fn count(&self) -> (count: u64)
        ensures
            count == self@.count,
    {
        self.count
    }

    /// The stream entry under an id.
    pub fn entry(&self, stream_id: u64) -> (stream: Option<Stream>)
        ensures
            stream == (if self@.streams.contains_key(stream_id) {
                Some(self@.streams[stream_id])
            } else {
                None::<Stream>
            }),
    {
        match self.streams.get(&stream_id) {
            Some(stream) => Some(*stream),
            None => None,
        }
    }

    /// The delegation nonce of `owner`.
    pub fn nonce(&self, owner: &Address) -> (nonce: u64)
        ensures
            nonce == nonce_of(self@.nonces, *owner),
    {
        let mut left: usize = self.nonces.len();
        proof {
            assert(self.nonces@.take(left as int) =~= self.nonces@);
        }
        while left > 0
            invariant
                left <= self.nonces.len(),
                nonce_of(self.nonces@, *owner) == nonce_of(self.nonces@.take(left as int), *owner),
            decreases left,
        {
            proof {
                assert(self.nonces@.take(left as int).drop_last() =~= self.nonces@.take(left - 1));
            }
            left -= 1;
            if self.nonces[left].0 == *owner {
                return self.nonces[left].1;
            }
        }
        0
    }

    /// What was asked of the ledger so far.
    pub fn log(&self) -> (log: &Vec<Action>)
        ensures
            log@ == self@.log,
    {
        &self.log
    }

    /// Ask for the authorization of `address`.
    pub(crate) fn require_auth(&mut self, address: Address)
        ensures
            final(self)@ == old(self)@.push(Action::RequireAuth { address }),
    {
        self.log.push(Action::RequireAuth { address });
    }

    /// Store the number of stream ids issued.
    pub(crate) fn set_count(&mut self, count: u64)
        ensures
            final(self)@ == (Ledger { count, ..old(self)@ }).push(Action::SetStreamCount { count }),
    {
        self.count = count;
        self.log.push(Action::SetStreamCount { count });
    }

    /// Store a stream.
    pub(crate) fn set_entry(&mut self, stream_id: u64, stream: Stream)
        ensures
            final(self)@ == old(self)@.with_stream(stream_id, stream).push(
                Action::SaveStream { stream_id, stream },
            ),
    {
        self.streams.insert(stream_id, stream);
        self.log.push(Action::SaveStream { stream_id, stream });
    }

    /// Buy rent for a stream entry.
    pub(crate) fn extend_entry(&mut self, stream_id: u64, ledgers: u32)
        ensures
            final(self)@ == old(self)@.push(Action::ExtendStream { stream_id, ledgers }),
    {
        self.log.push(Action::ExtendStream { stream_id, ledgers });
    }

    /// Buy rent for the contract instance.
    pub(crate) fn extend_instance(&mut self, ledgers: u32)
        ensures
            final(self)@ == old(self)@.push(Action::ExtendInstance { ledgers }),
    {
        self.log.push(Action::ExtendInstance { ledgers });
    }

    /// Move tokens.
    pub(crate) fn transfer(&mut self, token: Address, from: Address, to: Address, amount: i128)
        ensures
            final(self)@ == old(self)@.push(Action::Transfer { token, from, to, amount }),
    {
        self.log.push(Action::Transfer { token, from, to, amount });
    }

    /// Announce a state change.
    pub(crate) fn publish(&mut self, event: Event)
        ensures
            final(self)@ == old(self)@.push(Action::Publish { event }),
    {
        self.log.push(Action::Publish { event });
    }
}

} // verus!
