use std::cell::Cell;

use circuit_breaker::circuit_breaker::CircuitBreaker;
use circuit_breaker::circuit_breaker_error::CircuitBreakerError;
use circuit_breaker::model::CircuitBreakerState;

#[derive(Clone, Copy, PartialEq, Debug)]
struct ActionError {}

#[test]
fn starts_closed_with_zero_counter() {
    let cb = CircuitBreaker::new(3, 2, 1000);
    assert_eq!(cb.current_state(), CircuitBreakerState::Closed);
    assert_eq!(cb.failure_count(), 0);
}

// The concrete seven-call walk through the whole cycle: three failures wrapped,
// a rejection while open, a failed probe, a probe failure that re-opens, and a
// successful probe that closes.
#[test]
fn full_cycle_walkthrough() {
    let mut cb = CircuitBreaker::new(3, 2, 1000);
    let invocations: Cell<u32> = Cell::new(0);

    // calls 1-3 fail: each invoked, each wrapped
    for i in 0..3u64 {
        let result = cb.guard_at::<String, ActionError, _>(i, || {
            invocations.set(invocations.get() + 1);
            Err(ActionError {})
        });
        assert_eq!(result.unwrap_err(), CircuitBreakerError::Wrapped(ActionError {}));
    }
    assert_eq!(invocations.get(), 3);
    assert_eq!(cb.current_state(), CircuitBreakerState::Open);

    // call 4, before the timeout: rejected, operation not invoked
    let result = cb.guard_at::<String, ActionError, _>(500, || {
        invocations.set(invocations.get() + 1);
        Err(ActionError {})
    });
    assert_eq!(result.unwrap_err(), CircuitBreakerError::Open { threshold: 3 });
    assert_eq!(invocations.get(), 3);

    // call 5, after the timeout (opened at 2, timeout 1000): probing; the
    // failed probe carries the half-open ceiling
    let result = cb.guard_at::<String, ActionError, _>(1102, || {
        invocations.set(invocations.get() + 1);
        Err(ActionError {})
    });
    assert_eq!(result.unwrap_err(), CircuitBreakerError::HalfOpen { threshold: 2 });
    assert_eq!(invocations.get(), 4);
    assert_eq!(cb.current_state(), CircuitBreakerState::HalfOpen);

    // call 6: the probe budget (2) is reached; the breaker re-opens and the
    // call reports the open error
    let result = cb.guard_at::<String, ActionError, _>(1103, || {
        invocations.set(invocations.get() + 1);
        Err(ActionError {})
    });
    assert_eq!(result.unwrap_err(), CircuitBreakerError::Open { threshold: 3 });
    assert_eq!(invocations.get(), 5);
    assert_eq!(cb.current_state(), CircuitBreakerState::Open);

    // call 7, after another full timeout: the probe succeeds and the breaker
    // closes
    let result = cb.guard_at::<String, ActionError, _>(2203, || {
        invocations.set(invocations.get() + 1);
        Ok("hello".to_string())
    });
    assert_eq!(result.unwrap(), "hello".to_string());
    assert_eq!(invocations.get(), 6);
    assert_eq!(cb.current_state(), CircuitBreakerState::Closed);
    assert_eq!(cb.failure_count(), 0);
}

#[test]
fn open_rejections_never_invoke_the_operation() {
    let mut cb = CircuitBreaker::new(1, 1, 1000);
    let invocations: Cell<u32> = Cell::new(0);
    let result = cb.guard_at::<u32, ActionError, _>(0, || {
        invocations.set(invocations.get() + 1);
        Err(ActionError {})
    });
    assert_eq!(result.unwrap_err(), CircuitBreakerError::Wrapped(ActionError {}));
    assert_eq!(cb.current_state(), CircuitBreakerState::Open);

    // many calls, all before the timeout elapses: zero invocations
    for i in 1..900u64 {
        let result = cb.guard_at::<u32, ActionError, _>(i, || {
            invocations.set(invocations.get() + 1);
            Ok(42)
        });
        assert_eq!(result.unwrap_err(), CircuitBreakerError::Open { threshold: 1 });
    }
    assert_eq!(invocations.get(), 1);
    assert_eq!(cb.current_state(), CircuitBreakerState::Open);
}

#[test]
fn failure_threshold_is_exact() {
    // with a threshold of one, the very first failure opens the circuit
    let mut cb = CircuitBreaker::new(1, 1, 50);
    let result = cb.guard_at::<u32, u32, _>(0, || Err(7u32));
    assert_eq!(result.unwrap_err(), CircuitBreakerError::Wrapped(7));
    assert_eq!(cb.current_state(), CircuitBreakerState::Open);
    let result = cb.guard_at::<u32, u32, _>(1, || Ok(1));
    assert_eq!(result.unwrap_err(), CircuitBreakerError::Open { threshold: 1 });
}

#[test]
fn success_in_closed_does_not_reset_the_counter() {
    let mut cb = CircuitBreaker::new(3, 2, 1000);
    assert!(cb.guard_at::<u32, u32, _>(0, || Err(1u32)).is_err());
    assert!(cb.guard_at::<u32, u32, _>(1, || Err(2u32)).is_err());
    assert_eq!(cb.failure_count(), 2);
    assert_eq!(cb.guard_at::<u32, u32, _>(2, || Ok(9u32)).unwrap(), 9);
    assert_eq!(cb.failure_count(), 2);
    // the next failure is the third consecutive one and opens the circuit
    let result = cb.guard_at::<u32, u32, _>(3, || Err(3u32));
    assert_eq!(result.unwrap_err(), CircuitBreakerError::Wrapped(3));
    assert_eq!(cb.current_state(), CircuitBreakerState::Open);
}

#[test]
fn zero_timeout_probes_on_the_next_call() {
    let mut cb = CircuitBreaker::new(1, 1, 0);
    assert!(cb.guard_at::<u32, u32, _>(5, || Err(1u32)).is_err());
    assert_eq!(cb.current_state(), CircuitBreakerState::Open);
    // with a zero timeout the very next call already probes
    let result = cb.guard_at::<u32, u32, _>(5, || Ok(8u32));
    assert_eq!(result.unwrap(), 8);
    assert_eq!(cb.current_state(), CircuitBreakerState::Closed);
    assert_eq!(cb.failure_count(), 0);
}

#[test]
fn cycle_repeats_with_identical_outcomes() {
    let mut cb = CircuitBreaker::new(2, 1, 100);
    let mut outcomes: Vec<String> = Vec::new();
    let mut base: u64 = 0;
    for _cycle in 0..3u32 {
        // two failures open the circuit
        for i in 0..2u64 {
            let r = cb.guard_at::<u32, u32, _>(base + i, || Err(1u32));
            outcomes.push(format!("{:?}", r));
        }
        // rejected while open
        let r = cb.guard_at::<u32, u32, _>(base + 50, || Ok(0u32));
        outcomes.push(format!("{:?}", r));
        // successful probe closes it again
        let r = cb.guard_at::<u32, u32, _>(base + 101, || Ok(0u32));
        outcomes.push(format!("{:?}", r));
        assert_eq!(cb.current_state(), CircuitBreakerState::Closed);
        assert_eq!(cb.failure_count(), 0);
        base += 1000;
    }
    // every cycle produced exactly the same four outcomes
    for c in 1..3usize {
        for k in 0..4usize {
            assert_eq!(outcomes[c * 4 + k], outcomes[k]);
        }
    }
}

#[test]
fn cause_exposes_only_the_wrapped_failure() {
    let wrapped: CircuitBreakerError<u32> = CircuitBreakerError::Wrapped(17);
    assert_eq!(wrapped.cause(), Some(&17));
    let open: CircuitBreakerError<u32> = CircuitBreakerError::Open { threshold: 3 };
    assert_eq!(open.cause(), None);
    let half_open: CircuitBreakerError<u32> = CircuitBreakerError::HalfOpen { threshold: 2 };
    assert_eq!(half_open.cause(), None);
}
