//! Creation, withdrawal, pausing, cancelling, views, and what the calls ask of
//! the ledger.

use fluxora_stream::storage::ttl_ledgers;
use fluxora_stream::{
    Action, Address, AddressKind, Env, Error, Event, FluxoraStream, Stream, StreamCreated,
    StreamStatus, Withdrawn,
};

const T0: u64 = 1_000_000;
const MAX_TTL: u32 = 3_110_400;

fn account(n: u128) -> Address {
    Address {
        kind: AddressKind::Account,
        key_high: 7,
        key_low: n,
    }
}

fn contract(n: u128) -> Address {
    Address {
        kind: AddressKind::Contract,
        key_high: 7,
        key_low: n,
    }
}

const SENDER: u128 = 2;
const RECIPIENT: u128 = 3;
const TOKEN: u128 = 4;

fn fresh() -> Env {
    Env::new(T0, contract(1), MAX_TTL, 0)
}

fn create(
    env: &mut Env,
    deposit: i128,
    start: u64,
    end: u64,
    cliff: u64,
) -> Result<u64, Error> {
    FluxoraStream::create_stream(
        env,
        account(SENDER),
        account(RECIPIENT),
        contract(TOKEN),
        deposit,
        start,
        end,
        cliff,
        true,
        true,
        false,
    )
}

/// A stream of 1000 units over 500 seconds from now.
fn simple(env: &mut Env) -> u64 {
    create(env, 1000, T0, T0 + 500, T0).unwrap()
}

fn pool(env: &Env) -> i128 {
    let mut sum = 0;
    for action in env.log() {
        if let Action::Transfer {
            from, to, amount, ..
        } = *action
        {
            if to == contract(1) {
                sum += amount;
            }
            if from == contract(1) {
                sum -= amount;
            }
        }
    }
    sum
}

fn events(actions: &[Action]) -> usize {
    actions
        .iter()
        .filter(|action| matches!(action, Action::Publish { .. }))
        .count()
}

// --- Creation ---------------------------------------------------------------

#[test]
fn a_new_stream_is_stored_funded_and_announced() {
    let mut env = fresh();
    assert_eq!(simple(&mut env), 0);
    let stream = Stream {
        sender: account(SENDER),
        recipient: account(RECIPIENT),
        token: contract(TOKEN),
        deposited: 1000,
        withdrawn: 0,
        start_time: T0,
        end_time: T0 + 500,
        cliff_time: T0,
        cancellable: true,
        pausable: true,
        transferable: false,
        paused_at: None,
        paused_total: 0,
        status: StreamStatus::Active,
    };
    assert_eq!(FluxoraStream::get_stream(&env, 0), Ok(stream));
    assert_eq!(
        env.log(),
        &vec![
            Action::RequireAuth {
                address: account(SENDER)
            },
            Action::SetStreamCount { count: 1 },
            Action::SaveStream {
                stream_id: 0,
                stream
            },
            // 500 s and thirty days at 5 s per ledger.
            Action::ExtendStream {
                stream_id: 0,
                ledgers: 518_500
            },
            Action::ExtendInstance { ledgers: MAX_TTL },
            Action::Transfer {
                token: contract(TOKEN),
                from: account(SENDER),
                to: contract(1),
                amount: 1000
            },
            Action::Publish {
                event: Event::StreamCreated(StreamCreated {
                    stream_id: 0,
                    sender: account(SENDER),
                    recipient: account(RECIPIENT),
                    token: contract(TOKEN),
                    deposited: 1000,
                    start_time: T0,
                    end_time: T0 + 500,
                    cliff_time: T0,
                    cancellable: true,
                    pausable: true,
                    transferable: false,
                })
            },
        ]
    );
}

#[test]
fn bad_parameters_are_refused() {
    let mut env = fresh();
    let same = FluxoraStream::create_stream(
        &mut env,
        account(SENDER),
        account(SENDER),
        contract(TOKEN),
        0,
        5,
        5,
        9,
        true,
        true,
        true,
    );
    assert_eq!(same, Err(Error::SelfStream));
    assert_eq!(create(&mut env, 0, 5, 5, 9), Err(Error::InvalidDeposit));
    assert_eq!(create(&mut env, -1, 5, 9, 5), Err(Error::InvalidDeposit));
    assert_eq!(create(&mut env, 10, 5, 5, 9), Err(Error::InvalidTimeRange));
    assert_eq!(create(&mut env, 10, 6, 5, 5), Err(Error::InvalidTimeRange));
    assert_eq!(create(&mut env, 1, 5, 9, 4), Err(Error::InvalidCliff));
    assert_eq!(create(&mut env, 1, 5, 9, 10), Err(Error::InvalidCliff));
    assert_eq!(create(&mut env, 3, 5, 9, 9), Err(Error::DepositRateTooLow));
    assert_eq!(
        create(&mut env, i128::MAX, 5, 7, 5),
        Err(Error::Overflow)
    );
    assert_eq!(FluxoraStream::stream_count(&env), 0);
    // Each refused call asked for the sender's authorization and nothing else.
    for action in env.log() {
        assert_eq!(
            *action,
            Action::RequireAuth {
                address: account(SENDER)
            }
        );
    }
    assert_eq!(env.log().len(), 9);
}

#[test]
fn boundary_parameters_are_accepted() {
    let mut env = fresh();
    assert_eq!(create(&mut env, 4, 5, 9, 9), Ok(0));
    assert_eq!(create(&mut env, i128::MAX, 5, 6, 5), Ok(1));
    assert_eq!(create(&mut env, i128::MAX / 2, 5, 7, 5), Ok(2));
}

#[test]
fn addresses_differ_by_kind_and_by_key() {
    let mut env = fresh();
    let mut high = account(SENDER);
    high.key_high = 8;
    for other in [contract(SENDER), account(SENDER + 1), high] {
        let r = FluxoraStream::create_stream(
            &mut env,
            account(SENDER),
            other,
            contract(TOKEN),
            1000,
            0,
            10,
            0,
            true,
            true,
            true,
        );
        assert!(r.is_ok());
    }
}

#[test]
fn ids_count_up_and_run_out() {
    let mut env = fresh();
    for id in 0..3 {
        assert_eq!(simple(&mut env), id);
    }
    assert_eq!(FluxoraStream::stream_count(&env), 3);

    let mut full = Env::new(T0, contract(1), MAX_TTL, u64::MAX);
    assert_eq!(
        create(&mut full, 1000, T0, T0 + 500, T0),
        Err(Error::Overflow)
    );
    assert_eq!(FluxoraStream::stream_count(&full), u64::MAX);
}

#[test]
fn a_backdated_portion_is_withdrawable_at_once() {
    let mut env = fresh();
    let id = create(&mut env, 1000, T0 - 300, T0 + 200, T0 - 300).unwrap();
    assert_eq!(FluxoraStream::withdrawable_of(&env, id), Ok(600));
    assert_eq!(FluxoraStream::withdraw(&mut env, id, None), Ok(600));
}

// --- Accrual ----------------------------------------------------------------

#[test]
fn the_cliff_gates_and_does_not_delay() {
    let mut env = fresh();
    let id = create(&mut env, 1000, T0, T0 + 500, T0 + 100).unwrap();
    env.set_timestamp(T0 + 99);
    assert_eq!(FluxoraStream::vested_of(&env, id), Ok(0));
    assert_eq!(
        FluxoraStream::withdraw(&mut env, id, None),
        Err(Error::NothingToWithdraw)
    );
    env.set_timestamp(T0 + 100);
    assert_eq!(FluxoraStream::vested_of(&env, id), Ok(200));
}

#[test]
fn vested_and_refundable_add_up_at_every_instant() {
    let mut env = fresh();
    let id = create(&mut env, 1003, T0, T0 + 500, T0).unwrap();
    let mut last = 0;
    for t in 0..520 {
        env.set_timestamp(T0 + t);
        let vested = FluxoraStream::vested_of(&env, id).unwrap();
        let refundable = FluxoraStream::refundable_of(&env, id).unwrap();
        assert_eq!(vested + refundable, 1003);
        assert!(vested >= last);
        last = vested;
    }
    assert_eq!(last, 1003);
}

#[test]
fn nothing_accrues_before_the_start() {
    let mut env = fresh();
    let id = create(&mut env, 1000, T0 + 100, T0 + 600, T0 + 100).unwrap();
    assert_eq!(FluxoraStream::vested_of(&env, id), Ok(0));
    assert_eq!(FluxoraStream::refundable_of(&env, id), Ok(1000));
}

#[test]
fn accrual_functions_of_a_stream_with_pauses() {
    let stream = Stream {
        sender: account(SENDER),
        recipient: account(RECIPIENT),
        token: contract(TOKEN),
        deposited: 1000,
        withdrawn: 100,
        start_time: 100,
        end_time: 600,
        cliff_time: 200,
        cancellable: true,
        pausable: true,
        transferable: true,
        paused_at: None,
        paused_total: 50,
        status: StreamStatus::Active,
    };
    assert_eq!(fluxora_stream::stream_time(&stream, 400), 350);
    assert_eq!(fluxora_stream::stream_time(&stream, 20), 0);
    assert_eq!(fluxora_stream::duration(&stream), 500);
    assert_eq!(fluxora_stream::elapsed(&stream, 400), 250);
    assert_eq!(fluxora_stream::elapsed(&stream, 120), 0);
    assert_eq!(fluxora_stream::elapsed(&stream, 9_999), 500);
    assert!(!fluxora_stream::cliff_reached(&stream, 249));
    assert!(fluxora_stream::cliff_reached(&stream, 250));
    assert_eq!(fluxora_stream::vested(&stream, 400), Ok(500));
    assert_eq!(fluxora_stream::withdrawable(&stream, 400), Ok(400));
    assert_eq!(fluxora_stream::refundable(&stream, 400), Ok(500));
    assert_eq!(fluxora_stream::liability(&stream), 900);
    // What was paid out stays earned.
    assert_eq!(fluxora_stream::vested(&stream, 0), Ok(100));
    assert_eq!(fluxora_stream::withdrawable(&stream, 0), Ok(0));

    let held = Stream {
        paused_at: Some(300),
        status: StreamStatus::Paused,
        ..stream
    };
    assert_eq!(fluxora_stream::stream_time(&held, 9_999), 250);
    assert_eq!(fluxora_stream::vested(&held, 9_999), Ok(300));

    let huge = Stream {
        deposited: i128::MAX,
        ..stream
    };
    assert_eq!(fluxora_stream::vested(&huge, 400), Err(Error::Overflow));
    assert_eq!(
        fluxora_stream::withdrawable(&huge, 400),
        Err(Error::Overflow)
    );
    assert_eq!(fluxora_stream::refundable(&huge, 400), Err(Error::Overflow));
    assert!(!huge.is_valid());
    assert!(stream.is_valid());
    assert!(held.is_valid());
}

// --- Withdrawal -------------------------------------------------------------

#[test]
fn a_partial_draw_is_stored_paid_and_announced() {
    let mut env = fresh();
    let id = simple(&mut env);
    env.set_timestamp(T0 + 250);
    let before = env.log().len();
    assert_eq!(FluxoraStream::withdraw(&mut env, id, Some(200)), Ok(200));

    let stream = FluxoraStream::get_stream(&env, id).unwrap();
    assert_eq!(stream.withdrawn, 200);
    assert_eq!(stream.status, StreamStatus::Active);
    assert_eq!(FluxoraStream::withdrawable_of(&env, id), Ok(300));
    assert_eq!(
        &env.log()[before..],
        &[
            Action::ExtendStream {
                stream_id: id,
                ledgers: 518_450
            },
            Action::RequireAuth {
                address: account(RECIPIENT)
            },
            Action::SaveStream {
                stream_id: id,
                stream
            },
            Action::ExtendStream {
                stream_id: id,
                ledgers: 518_450
            },
            Action::Transfer {
                token: contract(TOKEN),
                from: contract(1),
                to: account(RECIPIENT),
                amount: 200
            },
            Action::Publish {
                event: Event::Withdrawn(Withdrawn {
                    stream_id: id,
                    recipient: account(RECIPIENT),
                    amount: 200,
                    withdrawn: 200,
                    deposited: 1000,
                    status: StreamStatus::Active,
                })
            },
        ]
    );
}

#[test]
fn bad_draws_are_refused() {
    let mut env = fresh();
    let id = simple(&mut env);
    assert_eq!(
        FluxoraStream::withdraw(&mut env, id + 1, None),
        Err(Error::StreamNotFound)
    );
    assert_eq!(
        FluxoraStream::withdraw(&mut env, id, Some(-5)),
        Err(Error::NothingToWithdraw)
    );
    env.set_timestamp(T0 + 250);
    assert_eq!(
        FluxoraStream::withdraw(&mut env, id, Some(0)),
        Err(Error::InvalidAmount)
    );
    assert_eq!(
        FluxoraStream::withdraw(&mut env, id, Some(501)),
        Err(Error::InsufficientWithdrawable)
    );
    assert_eq!(FluxoraStream::get_stream(&env, id).unwrap().withdrawn, 0);
    assert_eq!(pool(&env), 1000);
    assert_eq!(FluxoraStream::withdraw(&mut env, id, Some(500)), Ok(500));
    assert_eq!(
        FluxoraStream::withdraw(&mut env, id, None),
        Err(Error::NothingToWithdraw)
    );
    assert_eq!(pool(&env), 500);
}

#[test]
fn a_drained_stream_is_depleted() {
    let mut env = fresh();
    let id = simple(&mut env);
    env.set_timestamp(T0 + 400);
    assert_eq!(FluxoraStream::withdraw(&mut env, id, None), Ok(800));
    env.set_timestamp(T0 + 9_999);
    assert_eq!(FluxoraStream::withdraw(&mut env, id, None), Ok(200));
    let stream = FluxoraStream::get_stream(&env, id).unwrap();
    assert_eq!(stream.status, StreamStatus::Depleted);
    assert_eq!(stream.withdrawn, 1000);
    assert_eq!(pool(&env), 0);
    assert_eq!(
        FluxoraStream::pause(&mut env, id),
        Err(Error::StreamTerminated)
    );
    assert_eq!(
        FluxoraStream::cancel(&mut env, id),
        Err(Error::StreamTerminated)
    );
}

// --- Pausing and cancelling -------------------------------------------------

#[test]
fn a_pause_stops_accrual_and_not_withdrawal() {
    let mut env = fresh();
    let id = simple(&mut env);
    env.set_timestamp(T0 + 100);
    assert_eq!(FluxoraStream::pause(&mut env, id), Ok(()));
    env.set_timestamp(T0 + 400);
    assert_eq!(FluxoraStream::vested_of(&env, id), Ok(200));
    assert_eq!(
        FluxoraStream::pause(&mut env, id),
        Err(Error::AlreadyPaused)
    );
    assert_eq!(FluxoraStream::withdraw(&mut env, id, None), Ok(200));
    let stream = FluxoraStream::get_stream(&env, id).unwrap();
    assert_eq!(stream.paused_at, Some(T0 + 100));
    assert_eq!(stream.status, StreamStatus::Paused);
}

#[test]
fn cancelling_splits_the_deposit_and_sticks() {
    let mut env = fresh();
    let id = simple(&mut env);
    env.set_timestamp(T0 + 150);
    assert_eq!(FluxoraStream::withdraw(&mut env, id, Some(100)), Ok(100));
    assert_eq!(FluxoraStream::refundable_of(&env, id), Ok(700));
    assert_eq!(FluxoraStream::cancel(&mut env, id), Ok(700));
    assert_eq!(pool(&env), 200);

    env.set_timestamp(T0 + 450);
    assert_eq!(FluxoraStream::vested_of(&env, id), Ok(300));
    assert_eq!(FluxoraStream::refundable_of(&env, id), Ok(0));
    assert_eq!(FluxoraStream::withdraw(&mut env, id, None), Ok(200));
    assert_eq!(
        FluxoraStream::get_stream(&env, id).unwrap().status,
        StreamStatus::Cancelled
    );
    assert_eq!(
        FluxoraStream::cancel(&mut env, id),
        Err(Error::StreamTerminated)
    );
    assert_eq!(pool(&env), 0);
}

#[test]
fn cancelling_a_matured_stream_refunds_nothing() {
    let mut env = fresh();
    let id = simple(&mut env);
    env.set_timestamp(T0 + 500);
    let before = env.log().len();
    assert_eq!(FluxoraStream::cancel(&mut env, id), Ok(0));
    assert!(!env.log()[before..]
        .iter()
        .any(|action| matches!(action, Action::Transfer { .. })));
    assert_eq!(FluxoraStream::withdrawable_of(&env, id), Ok(1000));
}

#[test]
fn rights_that_were_not_given_are_refused() {
    let mut env = fresh();
    let id = FluxoraStream::create_stream(
        &mut env,
        account(SENDER),
        account(RECIPIENT),
        contract(TOKEN),
        1000,
        T0,
        T0 + 500,
        T0,
        false,
        false,
        false,
    )
    .unwrap();
    assert_eq!(
        FluxoraStream::cancel(&mut env, id),
        Err(Error::NotCancellable)
    );
    assert_eq!(FluxoraStream::pause(&mut env, id), Err(Error::NotPausable));
    FluxoraStream::top_up(&mut env, id, 500).unwrap();
    let stream = FluxoraStream::get_stream(&env, id).unwrap();
    assert!(!stream.cancellable && !stream.pausable && !stream.transferable);
    assert_eq!(
        FluxoraStream::pause(&mut env, id + 1),
        Err(Error::StreamNotFound)
    );
    assert_eq!(
        FluxoraStream::cancel(&mut env, id + 1),
        Err(Error::StreamNotFound)
    );
}

#[test]
fn lengths_and_holdings_ask_little_of_a_stream() {
    let mut env = fresh();
    let id = simple(&mut env);
    let stream = FluxoraStream::get_stream(&env, id).unwrap();
    let instant = Stream {
        end_time: T0,
        cliff_time: T0 + 9,
        deposited: -5,
        withdrawn: 3,
        ..stream
    };
    assert_eq!(fluxora_stream::duration(&instant), 0);
    assert_eq!(fluxora_stream::elapsed(&instant, T0 + 7), 0);
    assert_eq!(fluxora_stream::liability(&instant), -8);
}

#[test]
fn a_cancelled_stream_stays_cancelled_through_any_draws() {
    let mut env = fresh();
    let id = simple(&mut env);
    env.set_timestamp(T0 + 150);
    FluxoraStream::cancel(&mut env, id).unwrap();
    for amount in [1, 99, 200] {
        assert_eq!(
            FluxoraStream::withdraw(&mut env, id, Some(amount)),
            Ok(amount)
        );
        let stream = FluxoraStream::get_stream(&env, id).unwrap();
        assert_eq!(stream.status, StreamStatus::Cancelled);
        assert_eq!(stream.deposited, 300);
    }
    assert_eq!(
        FluxoraStream::withdraw(&mut env, id, None),
        Err(Error::NothingToWithdraw)
    );
    assert_eq!(
        FluxoraStream::top_up(&mut env, id, 100),
        Err(Error::StreamTerminated)
    );
    assert_eq!(
        FluxoraStream::get_stream(&env, id).unwrap().status,
        StreamStatus::Cancelled
    );
}

#[test]
fn a_stream_without_rights_runs_its_course() {
    let mut env = fresh();
    let id = FluxoraStream::create_stream(
        &mut env,
        account(SENDER),
        account(RECIPIENT),
        contract(TOKEN),
        1000,
        T0,
        T0 + 500,
        T0,
        false,
        false,
        false,
    )
    .unwrap();
    for t in [100, 200, 300] {
        env.set_timestamp(T0 + t);
        assert!(FluxoraStream::cancel(&mut env, id).is_err());
        assert!(FluxoraStream::pause(&mut env, id).is_err());
        FluxoraStream::withdraw(&mut env, id, Some(50)).unwrap();
        let stream = FluxoraStream::get_stream(&env, id).unwrap();
        assert_eq!(stream.status, StreamStatus::Active);
        assert_eq!(stream.deposited, 1000);
        assert_eq!(FluxoraStream::vested_of(&env, id), Ok(2 * t as i128));
        assert!(stream.withdrawn <= 2 * t as i128);
    }
    env.set_timestamp(T0 + 500);
    assert_eq!(FluxoraStream::withdraw(&mut env, id, None), Ok(850));
}

#[test]
fn ids_count_accepted_creations_only() {
    let mut env = fresh();
    let first = simple(&mut env);
    assert!(create(&mut env, 0, T0, T0 + 500, T0).is_err());
    env.set_timestamp(T0 + 10);
    FluxoraStream::withdraw(&mut env, first, None).unwrap();
    FluxoraStream::cancel(&mut env, first).unwrap();
    assert_eq!(simple(&mut env), 1);
    assert_eq!(FluxoraStream::stream_count(&env), 2);
}

// --- The ledger -------------------------------------------------------------

#[test]
fn every_change_publishes_one_event_last() {
    let mut env = fresh();
    let id = simple(&mut env);
    env.set_timestamp(T0 + 100);
    let mut marks = vec![0, env.log().len()];
    FluxoraStream::withdraw(&mut env, id, None).unwrap();
    marks.push(env.log().len());
    FluxoraStream::top_up(&mut env, id, 100).unwrap();
    marks.push(env.log().len());
    FluxoraStream::pause(&mut env, id).unwrap();
    marks.push(env.log().len());
    FluxoraStream::cancel(&mut env, id).unwrap();
    marks.push(env.log().len());
    for i in 1..marks.len() {
        let call = &env.log()[marks[i - 1]..marks[i]];
        assert_eq!(events(call), 1);
        assert_eq!(events(&call[call.len() - 1..]), 1);
    }
    let before = env.log().len();
    assert!(FluxoraStream::withdraw(&mut env, id, None).is_err());
    assert_eq!(events(&env.log()[before..]), 0);
}

#[test]
fn performing_the_log_gives_the_same_entries() {
    let mut env = fresh();
    let id = simple(&mut env);
    simple(&mut env);
    env.set_timestamp(T0 + 100);
    FluxoraStream::withdraw(&mut env, id, Some(7)).unwrap();
    FluxoraStream::top_up(&mut env, id, 11).unwrap();
    FluxoraStream::cancel(&mut env, id).unwrap();

    let mut count = 0;
    let mut stored: Vec<Option<Stream>> = vec![None, None];
    for action in env.log() {
        match *action {
            Action::SetStreamCount { count: n } => count = n,
            Action::SaveStream { stream_id, stream } => stored[stream_id as usize] = Some(stream),
            _ => {}
        }
    }
    assert_eq!(count, FluxoraStream::stream_count(&env));
    for i in 0..2u64 {
        assert_eq!(
            stored[i as usize],
            FluxoraStream::get_stream(&env, i).ok()
        );
    }
}

/// An observer rebuilds every stream from the events alone.
#[test]
fn events_are_enough_to_follow_every_stream() {
    let mut env = fresh();
    let id = simple(&mut env);
    let other = simple(&mut env);
    env.set_timestamp(T0 + 100);
    FluxoraStream::withdraw(&mut env, id, Some(7)).unwrap();
    FluxoraStream::top_up(&mut env, id, 11).unwrap();
    FluxoraStream::pause(&mut env, other).unwrap();
    FluxoraStream::cancel(&mut env, id).unwrap();

    let mut known: Vec<Stream> = Vec::new();
    for action in env.log() {
        let event = match *action {
            Action::Publish { event } => event,
            _ => continue,
        };
        match event {
            Event::StreamCreated(e) => {
                assert_eq!(e.stream_id, known.len() as u64);
                known.push(Stream {
                    sender: e.sender,
                    recipient: e.recipient,
                    token: e.token,
                    deposited: e.deposited,
                    withdrawn: 0,
                    start_time: e.start_time,
                    end_time: e.end_time,
                    cliff_time: e.cliff_time,
                    cancellable: e.cancellable,
                    pausable: e.pausable,
                    transferable: e.transferable,
                    paused_at: None,
                    paused_total: 0,
                    status: StreamStatus::Active,
                });
            }
            Event::Withdrawn(e) => {
                let stream = &mut known[e.stream_id as usize];
                stream.withdrawn = e.withdrawn;
                stream.deposited = e.deposited;
                stream.status = e.status;
            }
            Event::ToppedUp(e) => {
                let stream = &mut known[e.stream_id as usize];
                stream.deposited = e.deposited;
                stream.end_time = e.end_time;
            }
            Event::StreamPaused(e) => {
                let stream = &mut known[e.stream_id as usize];
                stream.paused_at = Some(e.paused_at);
                stream.status = StreamStatus::Paused;
            }
            Event::StreamCancelled(e) => {
                let stream = &mut known[e.stream_id as usize];
                stream.deposited = e.deposited;
                stream.withdrawn = e.withdrawn;
                stream.status = StreamStatus::Cancelled;
            }
        }
    }
    for i in 0..2u64 {
        assert_eq!(
            FluxoraStream::get_stream(&env, i),
            Ok(known[i as usize])
        );
    }
}

#[test]
fn archived_and_never_issued_streams_can_be_told_apart() {
    let env = Env::new(T0, contract(1), MAX_TTL, 5);
    assert!(!FluxoraStream::stream_exists(&env, 3));
    assert!(!FluxoraStream::stream_exists(&env, 5));
    assert!(3 < FluxoraStream::stream_count(&env));
    assert_eq!(
        FluxoraStream::get_stream(&env, 3),
        Err(Error::StreamNotFound)
    );
    assert_eq!(
        FluxoraStream::vested_of(&env, 3),
        Err(Error::StreamNotFound)
    );
    assert_eq!(
        FluxoraStream::withdrawable_of(&env, 3),
        Err(Error::StreamNotFound)
    );
    assert_eq!(
        FluxoraStream::refundable_of(&env, 3),
        Err(Error::StreamNotFound)
    );
}

#[test]
fn restored_entries_keep_their_accounting() {
    let mut env = fresh();
    let id = simple(&mut env);
    let stream = FluxoraStream::get_stream(&env, id).unwrap();

    let mut later = Env::new(T0 + 250, contract(1), MAX_TTL, 1);
    assert!(!later.load_entry(1, stream));
    assert!(!later.load_entry(
        0,
        Stream {
            withdrawn: 1001,
            ..stream
        }
    ));
    assert!(!FluxoraStream::stream_exists(&later, 0));
    assert!(later.load_entry(0, stream));
    assert!(FluxoraStream::stream_exists(&later, 0));
    assert_eq!(FluxoraStream::withdraw(&mut later, 0, None), Ok(500));
}

#[test]
fn only_consistent_streams_are_valid() {
    let mut env = fresh();
    let id = simple(&mut env);
    let good = FluxoraStream::get_stream(&env, id).unwrap();
    assert!(good.is_valid());
    let bad = [
        Stream {
            end_time: good.start_time,
            ..good
        },
        Stream {
            cliff_time: good.end_time + 1,
            ..good
        },
        Stream {
            withdrawn: -1,
            ..good
        },
        Stream {
            deposited: 499,
            ..good
        },
        Stream {
            withdrawn: 1000,
            ..good
        },
        Stream {
            status: StreamStatus::Depleted,
            ..good
        },
        Stream {
            status: StreamStatus::Paused,
            ..good
        },
        Stream {
            paused_at: Some(T0),
            ..good
        },
    ];
    for stream in bad {
        assert!(!stream.is_valid());
    }
    assert!(Stream {
        status: StreamStatus::Cancelled,
        deposited: 499,
        ..good
    }
    .is_valid());
}

// --- Rent -------------------------------------------------------------------

#[test]
fn rent_covers_the_schedule_and_the_buffer() {
    let mut env = fresh();
    let id = create(&mut env, 1000, T0, T0 + 501, T0).unwrap();
    let stream = FluxoraStream::get_stream(&env, id).unwrap();
    assert_eq!(fluxora_stream::SECONDS_PER_LEDGER, 5);
    assert_eq!(fluxora_stream::TTL_BUFFER_SECONDS, 30 * 86_400);
    // 501 s round up to 101 ledgers.
    assert_eq!(ttl_ledgers(&stream, T0, MAX_TTL), 518_501);
    assert_eq!(ttl_ledgers(&stream, T0 + 500, MAX_TTL), 518_401);
    assert_eq!(ttl_ledgers(&stream, T0 + 9_999, MAX_TTL), 518_400);
    assert_eq!(ttl_ledgers(&stream, T0, 1000), 1000);
    let long = Stream {
        end_time: u64::MAX,
        ..stream
    };
    assert_eq!(ttl_ledgers(&long, 0, MAX_TTL), MAX_TTL);
}
