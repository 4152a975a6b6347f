//! Continuous payment streaming.
//!
//! Lock tokens once; have them accrue continuously to a recipient over time. The
//! recipient pulls the accrued balance whenever they like.
//!
//! The library holds the decisions of the contract: which call is accepted, what
//! it does to the stream, what it asks of the ledger. A call works on an
//! [`Env`], which holds the ledger entries it may read, and leaves in it a log
//! of [`Action`]s to be performed in order. Nothing runs in the background: a
//! ledger has no scheduler, so what has been earned is computed when someone
//! asks.
//!
//! A stream is only ever addressed by its id. `cancellable`, `pausable` and
//! `transferable` are fixed at creation, so that a recipient can check beforehand
//! that the sender cannot claw the stream back, freeze it or reassign it. What
//! holds of the contract as a whole is stated and proved in [`laws`], and what
//! each call does, in plain figures, in [`promises`].

pub mod accrual;
pub mod contract;
pub mod delegation;
pub mod env;
pub mod error;
pub mod events;
pub mod laws;
pub mod promises;
pub mod storage;
pub mod types;

pub use accrual::{
    cliff_reached, duration, elapsed, liability, refundable, stream_time, vested, withdrawable,
};
pub use contract::FluxoraStream;
pub use delegation::{validate_delegation_params, validate_delegation_terms, ContractError};
pub use env::{Action, Env};
pub use error::Error;
pub use events::{Event, StreamCreated, Withdrawn};
pub use storage::{SECONDS_PER_LEDGER, TTL_BUFFER_SECONDS};
pub use types::{Address, AddressKind, Stream, StreamStatus};
