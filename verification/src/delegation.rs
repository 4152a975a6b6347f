//! Parameter checks for withdrawals that a relayer submits for the recipient.

use vstd::prelude::*;

use crate::env::{nonce_of, Env, Ledger};
use crate::storage::{load_stream, renewed};
use crate::types::Address;

verus! {

/// Why a delegated call is refused.
#[derive(Clone, Copy, Debug, PartialEq, Eq, Structural)]
pub enum ContractError {
    /// A parameter is out of range.
    InvalidParams,
    /// The signature is past its deadline.
    SignatureDeadlineExpired,
    /// No readable entry under the given stream id.
    StreamNotFound,
    /// The signature is for another nonce.
    InvalidSignature,
}

/// Why a delegated call is refused, if it is.
pub open spec fn delegation_refusal(
    l: Ledger,
    stream_id: u64,
    nonce: u64,
    deadline: u64,
    relayer_fee: i128,
) -> Option<ContractError> {
    if relayer_fee < 0 {
        Some(ContractError::InvalidParams)
    } else if l.now > deadline {
        Some(ContractError::SignatureDeadlineExpired)
    } else if !l.streams.contains_key(stream_id) {
        Some(ContractError::StreamNotFound)
    } else if nonce != nonce_of(l.nonces, l.streams[stream_id].recipient) {
        Some(ContractError::InvalidSignature)
    } else {
        None
    }
}

/// The nonce that the next delegated call of `owner` must carry.
pub fn load_delegated_nonce(env: &Env, owner: &Address) -> (nonce: u64)
    ensures
        nonce == nonce_of(env@.nonces, *owner),
{
    env.nonce(owner)
}

/// Validate what needs no entry of the ledger: the fee is not negative, and the
/// deadline has not passed.
pub fn validate_delegation_terms(env: &Env, deadline: u64, relayer_fee: i128) -> (r: Result<
    (),
    ContractError,
>)
    ensures
        r == (if relayer_fee < 0 {
            Err(ContractError::InvalidParams)
        } else if env@.now > deadline {
            Err(ContractError::SignatureDeadlineExpired)
        } else {
            Ok::<(), ContractError>(())
        }),
{
    if relayer_fee < 0 {
        return Err(ContractError::InvalidParams);
    }
    if env.timestamp() > deadline {
        return Err(ContractError::SignatureDeadlineExpired);
    }
    Ok(())
}

/// Validate the delegation parameters for a delegated-withdraw call.
///
/// Checks, in order: the fee is not negative, the deadline has not passed, the
/// stream can be read, and the nonce is the recipient's current one, which
/// rejects replays.
pub fn validate_delegation_params(
    env: &mut Env,
    stream_id: u64,
    nonce: u64,
    deadline: u64,
    relayer_fee: i128,
) -> (r: Result<(), ContractError>)
    ensures
        r == match delegation_refusal(old(env)@, stream_id, nonce, deadline, relayer_fee) {
            Some(e) => Err(e),
            None => Ok::<(), ContractError>(()),
        },
        r == (if relayer_fee < 0 {
            Err(ContractError::InvalidParams)
        } else if old(env)@.now > deadline {
            Err(ContractError::SignatureDeadlineExpired)
        } else if !old(env)@.streams.contains_key(stream_id) {
            Err(ContractError::StreamNotFound)
        } else if nonce != nonce_of(old(env)@.nonces, old(env)@.streams[stream_id].recipient) {
            Err(ContractError::InvalidSignature)
        } else {
            Ok::<(), ContractError>(())
        }),
        final(env)@ == (if relayer_fee >= 0 && old(env)@.now <= deadline
            && old(env)@.streams.contains_key(stream_id) {
            renewed(old(env)@, stream_id, old(env)@.streams[stream_id])
        } else {
            old(env)@
        }),
{
    match validate_delegation_terms(env, deadline, relayer_fee) {
        Ok(()) => {},
        Err(e) => return Err(e),
    }
    match load_stream(env, stream_id) {
        Ok(stream) => {
            let current_nonce: u64 = load_delegated_nonce(env, &stream.recipient);
            if nonce != current_nonce {
                return Err(ContractError::InvalidSignature);
            }
            Ok(())
        },
        Err(_) => Err(ContractError::StreamNotFound),
    }
}

} // verus!
