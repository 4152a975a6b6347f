//! Top-up: extend the duration, keep the rate. The per-second rate the
//! recipient agreed to at creation never changes; `end_time` moves forward
//! instead.

use fluxora_stream::{
    Action, Address, AddressKind, Env, Error, FluxoraStream, Stream, StreamStatus,
};

const ONE: i128 = 10_000_000;
const DAY: u64 = 86_400;
const YEAR: u64 = 365 * DAY;
const T0: u64 = 1_700_000_000;

fn address(kind: AddressKind, n: u128) -> Address {
    Address {
        kind,
        key_high: 0,
        key_low: n,
    }
}

struct Harness {
    env: Env,
    contract: Address,
    sender: Address,
    recipient: Address,
    token: Address,
}

impl Harness {
    fn new() -> Harness {
        let contract = address(AddressKind::Contract, 1);
        Harness {
            env: Env::new(T0, contract, 3_110_400, 0),
            contract,
            sender: address(AddressKind::Account, 2),
            recipient: address(AddressKind::Account, 3),
            token: address(AddressKind::Contract, 4),
        }
    }

    #[allow(clippy::too_many_arguments)]
    fn create(
        &mut self,
        deposit: i128,
        start: u64,
        end: u64,
        cliff: u64,
        cancellable: bool,
        pausable: bool,
        transferable: bool,
    ) -> u64 {
        FluxoraStream::create_stream(
            &mut self.env,
            self.sender,
            self.recipient,
            self.token,
            deposit,
            start,
            end,
            cliff,
            cancellable,
            pausable,
            transferable,
        )
        .unwrap()
    }

    fn create_simple(&mut self, deposit: i128, duration: u64) -> u64 {
        let start = self.now();
        self.create(deposit, start, start + duration, start, true, true, true)
    }

    fn now(&self) -> u64 {
        self.env.timestamp()
    }

    fn warp_to(&mut self, now: u64) {
        self.env.set_timestamp(now);
    }

    fn advance(&mut self, seconds: u64) {
        let now = self.now();
        self.warp_to(now + seconds);
    }

    fn get(&self, id: u64) -> Stream {
        FluxoraStream::get_stream(&self.env, id).unwrap()
    }

    fn vested_of(&self, id: u64) -> i128 {
        FluxoraStream::vested_of(&self.env, id).unwrap()
    }

    fn withdraw(&mut self, id: u64) -> i128 {
        FluxoraStream::withdraw(&mut self.env, id, None).unwrap()
    }

    fn top_up(&mut self, id: u64, amount: i128) {
        FluxoraStream::top_up(&mut self.env, id, amount).unwrap()
    }

    fn try_top_up(&mut self, id: u64, amount: i128) -> Result<(), Error> {
        FluxoraStream::top_up(&mut self.env, id, amount)
    }

    fn balance(&self, who: Address) -> i128 {
        let mut sum = 0;
        for action in self.env.log() {
            if let Action::Transfer {
                token,
                from,
                to,
                amount,
            } = *action
            {
                assert_eq!(token, self.token);
                if to == who {
                    sum += amount;
                }
                if from == who {
                    sum -= amount;
                }
            }
        }
        sum
    }

    fn pool(&self) -> i128 {
        self.balance(self.contract)
    }

    fn assert_pool_exact(&self) {
        let mut owed = 0;
        for id in 0..FluxoraStream::stream_count(&self.env) {
            owed += fluxora_stream::liability(&self.get(id));
        }
        assert_eq!(self.pool(), owed);
    }
}

#[test]
fn top_up_extends_the_end_date_at_the_same_rate() {
    let mut h = Harness::new();
    // 1000 tokens over 100 days = 10/day.
    let id = h.create_simple(1_000 * ONE, 100 * DAY);
    let original_end = h.get(id).end_time;

    h.top_up(id, 100 * ONE);
    let s = h.get(id);

    assert_eq!(s.deposited, 1_100 * ONE);
    assert_eq!(
        s.end_time,
        original_end + 10 * DAY,
        "100 tokens at 10/day = 10 days"
    );
    assert_eq!(h.pool(), 1_100 * ONE);
    h.assert_pool_exact();
}

/// The defining property: a top-up must not change what is already withdrawable.
#[test]
fn top_up_does_not_retroactively_vest_elapsed_time() {
    let mut h = Harness::new();
    let id = h.create_simple(1_000 * ONE, 100 * DAY);

    h.advance(50 * DAY);
    let before = h.vested_of(id);
    assert_eq!(before, 500 * ONE);

    h.top_up(id, 1_000 * ONE);

    assert_eq!(
        h.vested_of(id),
        before,
        "topping up must not move already-vested funds",
    );
}

#[test]
fn the_per_second_rate_survives_a_top_up() {
    let mut h = Harness::new();
    let id = h.create_simple(1_000 * ONE, 100 * DAY);

    h.advance(50 * DAY);
    h.top_up(id, 500 * ONE);

    // Still 10 tokens/day.
    let before = h.vested_of(id);
    h.advance(10 * DAY);
    assert_eq!(h.vested_of(id) - before, 100 * ONE);
}

#[test]
fn a_topped_up_stream_eventually_delivers_everything() {
    let mut h = Harness::new();
    let id = h.create_simple(1_000 * ONE, 100 * DAY);
    h.advance(50 * DAY);
    h.top_up(id, 500 * ONE);

    let end = h.get(id).end_time;
    h.warp_to(end);

    assert_eq!(h.vested_of(id), 1_500 * ONE);
    assert_eq!(h.withdraw(id), 1_500 * ONE);
    assert_eq!(h.pool(), 0);
    h.assert_pool_exact();
}

#[test]
fn repeated_top_ups_compound_correctly() {
    let mut h = Harness::new();
    let id = h.create_simple(1_000 * ONE, 100 * DAY);

    for _ in 0..5 {
        h.advance(5 * DAY);
        h.top_up(id, 100 * ONE);
    }

    let s = h.get(id);
    assert_eq!(s.deposited, 1_500 * ONE);
    assert_eq!(s.end_time, T0 + 150 * DAY, "5 x 10 days of extension");

    h.warp_to(s.end_time);
    assert_eq!(h.withdraw(id), 1_500 * ONE);
    h.assert_pool_exact();
}

#[test]
fn top_up_works_after_a_partial_withdrawal() {
    let mut h = Harness::new();
    let id = h.create_simple(1_000 * ONE, 100 * DAY);
    h.advance(30 * DAY);
    h.withdraw(id);

    h.top_up(id, 200 * ONE);
    assert_eq!(h.get(id).deposited, 1_200 * ONE);
    assert_eq!(h.pool(), 900 * ONE, "700 unvested + 200 new");
    h.assert_pool_exact();

    let end = h.get(id).end_time;
    h.warp_to(end);
    assert_eq!(h.withdraw(id), 900 * ONE);
    assert_eq!(h.balance(h.recipient), 1_200 * ONE);
    h.assert_pool_exact();
}

#[test]
fn top_up_is_allowed_while_paused_and_does_not_resume() {
    let mut h = Harness::new();
    let id = h.create_simple(1_000 * ONE, 100 * DAY);
    h.advance(30 * DAY);
    FluxoraStream::pause(&mut h.env, id).unwrap();

    h.top_up(id, 100 * ONE);

    let s = h.get(id);
    assert_eq!(s.status, StreamStatus::Paused);
    assert_eq!(s.deposited, 1_100 * ONE);
    assert_eq!(h.vested_of(id), 300 * ONE, "still frozen");
    h.assert_pool_exact();
}

/// The duration extension rounds up, so the effective rate after a top-up is
/// never faster than the original.
#[test]
fn extension_rounds_up_so_the_rate_never_accelerates() {
    let mut h = Harness::new();
    let start = h.now();
    // 1000 stroops over 300 seconds: 3.33 stroops/sec, deliberately inexact.
    let id = h.create(1_000, start, start + 300, start, true, true, true);

    h.top_up(id, 1);
    let s = h.get(id);

    // 1 stroop at 1000/300 per second is 0.3s, rounded up to 1s.
    assert_eq!(s.end_time, start + 301);
    assert_eq!(s.deposited, 1_001);

    // The new rate must not exceed the old one at any sampled point.
    for t in [1u64, 50, 150, 300] {
        h.warp_to(start + t);
        let new_rate_vested = h.vested_of(id);
        let old_rate_vested = 1_000 * t as i128 / 300;
        assert!(
            new_rate_vested <= old_rate_vested,
            "at t+{t}: topped-up stream vested {new_rate_vested} > original {old_rate_vested}",
        );
    }
}

// --- Guards ---------------------------------------------------------------

/// Topping up a matured stream would make the new funds instantly withdrawable,
/// which is never what the sender means.
#[test]
fn topping_up_a_matured_stream_is_rejected() {
    let mut h = Harness::new();
    let id = h.create_simple(1_000 * ONE, 100 * DAY);
    h.warp_to(T0 + 100 * DAY);

    let err = h.try_top_up(id, 100 * ONE).unwrap_err();
    assert_eq!(err, Error::StreamMatured);

    h.advance(YEAR);
    let err = h.try_top_up(id, 100 * ONE).unwrap_err();
    assert_eq!(err, Error::StreamMatured);

    assert_eq!(
        h.pool(),
        1_000 * ONE,
        "no funds pulled by a rejected top-up"
    );
    h.assert_pool_exact();
}

/// One second before maturity is still fine: the boundary is exact.
#[test]
fn topping_up_one_second_before_maturity_is_allowed() {
    let mut h = Harness::new();
    let id = h.create_simple(1_000 * ONE, 100 * DAY);
    h.warp_to(T0 + 100 * DAY - 1);

    h.top_up(id, 100 * ONE);
    assert_eq!(h.get(id).deposited, 1_100 * ONE);
    h.assert_pool_exact();
}

#[test]
fn topping_up_a_cancelled_stream_is_rejected() {
    let mut h = Harness::new();
    let id = h.create_simple(1_000 * ONE, 100 * DAY);
    h.advance(30 * DAY);
    FluxoraStream::cancel(&mut h.env, id).unwrap();

    let err = h.try_top_up(id, 100 * ONE).unwrap_err();
    assert_eq!(err, Error::StreamTerminated);
    h.assert_pool_exact();
}

#[test]
fn topping_up_a_depleted_stream_is_rejected() {
    let mut h = Harness::new();
    let id = h.create_simple(1_000 * ONE, 10 * DAY);
    h.advance(10 * DAY);
    h.withdraw(id);

    let err = h.try_top_up(id, 100 * ONE).unwrap_err();
    assert_eq!(err, Error::StreamTerminated);
}

#[test]
fn non_positive_top_up_is_rejected() {
    let mut h = Harness::new();
    let id = h.create_simple(1_000 * ONE, 100 * DAY);

    for amount in [0i128, -1, -100 * ONE] {
        let err = h.try_top_up(id, amount).unwrap_err();
        assert_eq!(err, Error::InvalidAmount, "amount {amount}");
    }
    assert_eq!(h.pool(), 1_000 * ONE);
}

#[test]
fn a_top_up_that_would_overflow_accrual_is_rejected() {
    let mut h = Harness::new();
    let id = h.create_simple(1_000 * ONE, 100 * DAY);

    let err = h.try_top_up(id, i128::MAX / 2).unwrap_err();
    assert_eq!(err, Error::Overflow);
    h.assert_pool_exact();
}

#[test]
fn topping_up_a_missing_stream_is_rejected() {
    let mut h = Harness::new();
    assert_eq!(h.try_top_up(0, ONE), Err(Error::StreamNotFound));
    assert!(h.env.log().is_empty());
}

/// Rounding can take a fraction of a second back, but nothing that was paid out.
#[test]
fn a_top_up_never_claims_back_a_payout() {
    let mut h = Harness::new();
    let start = h.now();
    let id = h.create(1_000, start, start + 300, start, true, true, true);
    h.advance(150);
    assert_eq!(h.withdraw(id), 500);

    h.top_up(id, 1);
    assert_eq!(h.vested_of(id), 500);
    assert_eq!(FluxoraStream::withdrawable_of(&h.env, id), Ok(0));
    assert_eq!(FluxoraStream::refundable_of(&h.env, id), Ok(501));
    assert_eq!(FluxoraStream::cancel(&mut h.env, id), Ok(501));
    assert_eq!(h.pool(), 0);
    h.assert_pool_exact();
}

/// Rounding up to whole seconds can only slow the stream down, by less than one
/// second's accrual and one unit.
#[test]
fn an_inexact_top_up_takes_back_a_rounding() {
    let mut h = Harness::new();
    let start = h.now();
    let id = h.create(1_000, start, start + 300, start, true, true, true);
    h.advance(150);
    assert_eq!(h.vested_of(id), 500);
    h.top_up(id, 1);
    // 1001 * 150 / 301
    assert_eq!(h.vested_of(id), 498);
    h.assert_pool_exact();
}
