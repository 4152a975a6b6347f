//! The data that a stream consists of.

use vstd::prelude::*;

verus! {

/// What an address stands for.
#[derive(Clone, Copy, Debug, PartialEq, Eq, Structural)]
pub enum AddressKind {
    /// A Stellar account, identified by its Ed25519 public key.
    Account,
    /// A contract, identified by its contract hash.
    Contract,
}

/// A party on the ledger. Its 32-byte key, read as a big-endian number, is held
/// in two halves.
#[derive(Clone, Copy, Debug, PartialEq, Eq, Structural)]
pub struct Address {
    pub kind: AddressKind,
    pub key_high: u128,
    pub key_low: u128,
}

/// Where a stream is in its life.
#[derive(Clone, Copy, Debug, PartialEq, Eq, Structural)]
pub enum StreamStatus {
    /// Accruing on schedule.
    Active,
    /// Accrual is stopped; what was earned can still be withdrawn.
    Paused,
    /// Ended early by the sender; what was earned can still be withdrawn.
    Cancelled,
    /// Paid out in full.
    Depleted,
}

/// One payment stream.
#[derive(Clone, Copy, Debug, PartialEq, Eq)]
pub struct Stream {
    pub sender: Address,
    pub recipient: Address,
    pub token: Address,
    /// Total put in by the sender and not given back.
    pub deposited: i128,
    /// Total paid out to the recipient.
    pub withdrawn: i128,
    pub start_time: u64,
    pub end_time: u64,
    pub cliff_time: u64,
    pub cancellable: bool,
    pub pausable: bool,
    pub transferable: bool,
    /// The ledger time at which accrual stopped, while it is stopped.
    pub paused_at: Option<u64>,
    /// Seconds spent in earlier pauses.
    pub paused_total: u64,
    pub status: StreamStatus,
}

impl Stream {
    /// The length of the schedule in seconds.
    pub open spec fn span(self) -> int {
        self.end_time - self.start_time
    }

    /// Neither cancelled nor paid out.
    pub open spec fn is_open(self) -> bool {
        self.status == StreamStatus::Active || self.status == StreamStatus::Paused
    }

    /// A schedule of positive length, and a payout that does not exceed the
    /// deposit.
    pub open spec fn well_formed(self) -> bool {
        &&& self.start_time < self.end_time
        &&& 0 <= self.withdrawn <= self.deposited
    }

    /// What holds of every stream that the contract stores:
    /// besides being well formed, it has its cliff inside the schedule, its
    /// accrual can never overflow, it pays at least one unit per second unless
    /// it was cancelled, and its status tells whether something is left to pay
    /// and whether accrual is stopped.
    pub open spec fn valid(self) -> bool {
        &&& self.well_formed()
        &&& self.start_time <= self.cliff_time <= self.end_time
        &&& self.deposited * self.span() <= i128::MAX
        &&& self.status != StreamStatus::Cancelled ==> self.span() <= self.deposited
        &&& self.is_open() ==> self.withdrawn < self.deposited
        &&& self.status == StreamStatus::Depleted ==> self.withdrawn == self.deposited
        &&& self.status == StreamStatus::Active ==> self.paused_at is None
        &&& self.status == StreamStatus::Paused ==> self.paused_at is Some
    }

    /// Whether the stream is one that the contract may hold; for entries that
    /// come from outside.
    pub fn is_valid(&self) -> (r: bool)
        ensures
            r == self.valid(),
    {
        if !(self.start_time < self.end_time && self.start_time <= self.cliff_time
            && self.cliff_time <= self.end_time && 0 <= self.withdrawn && self.withdrawn
            <= self.deposited) {
            return false;
        }
        let length: i128 = (self.end_time - self.start_time) as i128;
        if self.deposited.checked_mul(length).is_none() {
            proof {
                assert(self.deposited * length >= 0) by (nonlinear_arith)
                    requires
                        0 <= self.deposited,
                        0 <= length,
                ;
            }
            return false;
        }
        match self.status {
            StreamStatus::Active => length <= self.deposited && self.withdrawn < self.deposited
                && self.paused_at.is_none(),
            StreamStatus::Paused => length <= self.deposited && self.withdrawn < self.deposited
                && self.paused_at.is_some(),
            StreamStatus::Cancelled => true,
            StreamStatus::Depleted => length <= self.deposited && self.withdrawn == self.deposited,
        }
    }
}

} // verus!
