//! Parameter checks of delegated withdrawals.

use fluxora_stream::{
    validate_delegation_params, validate_delegation_terms, Address, AddressKind, ContractError, Env,
    FluxoraStream,
};

fn account(n: u128) -> Address {
    Address {
        kind: AddressKind::Account,
        key_high: 0,
        key_low: n,
    }
}

fn setup() -> (Env, u64, Address) {
    let contract = Address {
        kind: AddressKind::Contract,
        key_high: 0,
        key_low: 1,
    };
    let token = Address {
        kind: AddressKind::Contract,
        key_high: 0,
        key_low: 2,
    };
    let recipient = account(4);
    let mut env = Env::new(0, contract, 100_000, 0);
    let stream_id = FluxoraStream::create_stream(
        &mut env,
        account(3),
        recipient,
        token,
        1000,
        0,
        1000,
        0,
        true,
        true,
        true,
    )
    .unwrap();
    (env, stream_id, recipient)
}

#[test]
fn test_valid_relayer_fee_passes() {
    let (mut env, stream_id, _recipient) = setup();
    env.set_timestamp(100);

    let result = validate_delegation_params(&mut env, stream_id, 0, 100, 10);
    assert_eq!(result, Ok(()));
}

#[test]
fn test_negative_relayer_fee_fails() {
    let (mut env, stream_id, _recipient) = setup();
    env.set_timestamp(100);

    let result = validate_delegation_params(&mut env, stream_id, 0, 100, -1);
    assert_eq!(result, Err(ContractError::InvalidParams));
}

#[test]
fn an_expired_signature_fails() {
    let (mut env, stream_id, _recipient) = setup();
    env.set_timestamp(101);

    assert_eq!(
        validate_delegation_params(&mut env, stream_id, 0, 100, 0),
        Err(ContractError::SignatureDeadlineExpired)
    );
}

#[test]
fn an_unknown_stream_fails() {
    let (mut env, stream_id, _recipient) = setup();
    assert_eq!(
        validate_delegation_params(&mut env, stream_id + 1, 0, 100, 0),
        Err(ContractError::StreamNotFound)
    );
}

#[test]
fn a_replayed_nonce_fails() {
    let (mut env, stream_id, recipient) = setup();
    env.load_nonce(account(9), 5);
    env.load_nonce(recipient, 0);
    assert_eq!(
        validate_delegation_params(&mut env, stream_id, 0, 100, 0),
        Ok(())
    );
    env.load_nonce(recipient, 1);
    assert_eq!(
        validate_delegation_params(&mut env, stream_id, 0, 100, 0),
        Err(ContractError::InvalidSignature)
    );
    assert_eq!(
        validate_delegation_params(&mut env, stream_id, 1, 100, 0),
        Ok(())
    );
}

#[test]
fn checks_come_in_order() {
    let (mut env, stream_id, _recipient) = setup();
    env.set_timestamp(101);
    assert_eq!(
        validate_delegation_params(&mut env, stream_id + 1, 7, 100, -1),
        Err(ContractError::InvalidParams)
    );
    assert_eq!(
        validate_delegation_params(&mut env, stream_id + 1, 7, 100, 1),
        Err(ContractError::SignatureDeadlineExpired)
    );
    assert_eq!(
        validate_delegation_params(&mut env, stream_id + 1, 7, 101, 1),
        Err(ContractError::StreamNotFound)
    );
}

#[test]
fn terms_are_checked_without_an_entry() {
    let (mut env, _stream_id, _recipient) = setup();
    env.set_timestamp(100);
    assert_eq!(validate_delegation_terms(&env, 100, 0), Ok(()));
    assert_eq!(
        validate_delegation_terms(&env, 99, -1),
        Err(ContractError::InvalidParams)
    );
    assert_eq!(
        validate_delegation_terms(&env, 99, 0),
        Err(ContractError::SignatureDeadlineExpired)
    );
}
