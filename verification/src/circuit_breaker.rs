use std::time::Duration;
use std::time::Instant;
use vstd::prelude::*;

use crate::circuit_breaker_error::CircuitBreakerError;
use crate::model;
use crate::model::BreakerModel;
use crate::model::CircuitBreakerState;

verus! {

/// `std::time::Instant`, declared so that a breaker can carry the moment it
/// was built and measure elapsed time from it. The value is opaque; nothing
/// is assumed about it.
#[verifier::external_type_specification]
#[verifier::external_body]
pub struct ExInstant(Instant);

/// Relies on `std::time::Instant::now`: a reading of the monotonic clock.
/// Nothing is assumed of the reading; the breaker's contracts hold whatever
/// moment comes back.
pub assume_specification[ Instant::now ]() -> Instant;

/// Relies on `std::time::Instant::elapsed`: the time between the instant and
/// the present. Its documentation guarantees the call does not panic (the
/// underlying subtraction saturates to zero). Nothing is assumed of the value.
pub assume_specification[ Instant::elapsed ](earlier: &Instant) -> Duration;

/// Relies on `std::time::Duration::as_millis`: the duration in whole
/// milliseconds. Nothing is assumed of the value.
pub assume_specification[ Duration::as_millis ](d: &Duration) -> u128;

/// A circuit breaker: wraps a caller-supplied fallible operation and protects
/// a downstream dependency from repeated, wasteful invocation after it starts
/// failing, while probing for recovery.
///
/// The breaker starts `Closed` and attempts operations. Once
/// `failure_threshold` consecutive failures accumulate it opens, rejecting
/// calls outright. After `recovery_timeout_millis` it becomes `HalfOpen` and
/// probes: a successful probe closes it again; `half_open_attempts` failed
/// probes re-open it. The recovery timer is a lazily evaluated open-until
/// moment, recomputed on every `guard` call from the breaker's own monotonic
/// clock: no background thread exists, so no stale timer can ever fire, and
/// re-opening simply starts a fresh cool-off period.
///
/// Counters and thresholds are `u64`; any positive threshold is accepted.
/// The breaker is a plain exclusively-borrowed value: a host that shares it
/// across threads must wrap it in its own mutual exclusion, which also makes
/// each read-compare-transition step atomic.
pub struct CircuitBreaker {
    failure_threshold: u64,
    half_open_attempts: u64,
    recovery_timeout_millis: u64,
    failure_count: u64,
    state: CircuitBreakerState,
    opened_at_millis: u64,
    epoch: Instant,
}

impl View for CircuitBreaker {
    type V = BreakerModel;

    closed spec fn view(&self) -> BreakerModel {
        BreakerModel {
            failure_threshold: self.failure_threshold,
            half_open_attempts: self.half_open_attempts,
            recovery_timeout_millis: self.recovery_timeout_millis,
            state: self.state,
            failure_count: self.failure_count,
            opened_at_millis: self.opened_at_millis,
        }
    }
}

impl CircuitBreaker {
    /// The breaker's invariant: positive thresholds and a counter below the
    /// ceiling governing the current state. `new` establishes it and every
    /// method preserves it.
    pub open spec fn wf(&self) -> bool {
        model::wf(self@)
    }

    /// Builds a breaker in the `Closed` state with fixed configuration.
    ///
    /// * `failure_threshold` — how many consecutive failures are tolerated in
    ///   the closed state before the circuit opens; must be positive.
    /// * `half_open_attempts` — how many consecutive probe failures are
    ///   tolerated in the half-open state before the circuit re-opens; must be
    ///   positive.
    /// * `recovery_timeout_millis` — the cool-off period, in milliseconds,
    ///   before an open circuit becomes half-open.
    pub fn new(
        failure_threshold: u64,
        half_open_attempts: u64,
        recovery_timeout_millis: u64,
    ) -> (cb: CircuitBreaker)
        requires
            failure_threshold > 0,
            half_open_attempts > 0,
        ensures
            cb.wf(),
            cb@ == model::init(failure_threshold, half_open_attempts, recovery_timeout_millis),
    {
        CircuitBreaker {
            failure_threshold,
            half_open_attempts,
            recovery_timeout_millis,
            failure_count: 0,
            state: CircuitBreakerState::Closed,
            opened_at_millis: 0,
            epoch: Instant::now(),
        }
    }

    /// Milliseconds since the breaker was built, read from its monotonic
    /// clock, saturated to `u64` (which overflows only after about half a
    /// billion years).
    fn now_millis(&self) -> u64 {
        let elapsed = self.epoch.elapsed().as_millis();
        if elapsed > (u64::MAX as u128) {
            u64::MAX
        } else {
            elapsed as u64
        }
    }

    /// Executes `action` through the circuit, with the moment of the call
    /// supplied explicitly as `now_millis` (milliseconds on the same clock the
    /// breaker's open-until moment is recorded on). `guard` is this function
    /// applied to the present moment; callers that manage time themselves, and
    /// tests, drive this one directly.
    ///
    /// The contract is exact: the new breaker state is
    /// `model::step(old(self)@, now_millis, ok)` where `ok` says whether the
    /// invoked operation succeeded, and the returned value is tied to the
    /// operation's own result by `model::step_result`. When the breaker is
    /// open with the recovery timeout not yet elapsed, the operation is not
    /// invoked — the caller need not even show it could have been called — and
    /// the call returns the open error, carrying `failure_threshold`.
    pub fn guard_at<T, E, F: Fn() -> Result<T, E>>(
        &mut self,
        now_millis: u64,
        action: F,
    ) -> (res: Result<T, CircuitBreakerError<E>>)
        requires
            old(self).wf(),
            model::invokes(old(self)@, now_millis) ==> action.requires(()),
        ensures
            final(self).wf(),
            model::guard_behavior(action, old(self)@, now_millis, res, final(self)@),
    {
        // The lazily evaluated recovery timer: the only path from open back to
        // half-open.
        if self.state == CircuitBreakerState::Open && now_millis >= self.opened_at_millis
            && now_millis - self.opened_at_millis >= self.recovery_timeout_millis {
            self.state = CircuitBreakerState::HalfOpen;
            self.failure_count = 0;
        }
        match self.state {
            CircuitBreakerState::Open => Err(
                CircuitBreakerError::Open { threshold: self.failure_threshold },
            ),
            CircuitBreakerState::Closed => {
                let r = action();
                match r {
                    Ok(v) => Ok(v),
                    Err(cause) => {
                        self.failure_count = self.failure_count + 1;
                        if self.failure_count >= self.failure_threshold {
                            self.state = CircuitBreakerState::Open;
                            self.failure_count = 0;
                            self.opened_at_millis = now_millis;
                        }
                        Err(CircuitBreakerError::Wrapped(cause))
                    },
                }
            },
            CircuitBreakerState::HalfOpen => {
                let r = action();
                match r {
                    Ok(v) => {
                        self.state = CircuitBreakerState::Closed;
                        self.failure_count = 0;
                        Ok(v)
                    },
                    Err(_) => {
                        self.failure_count = self.failure_count + 1;
                        if self.failure_count >= self.half_open_attempts {
                            self.state = CircuitBreakerState::Open;
                            self.failure_count = 0;
                            self.opened_at_millis = now_millis;
                            Err(CircuitBreakerError::Open { threshold: self.failure_threshold })
                        } else {
                            Err(
                                CircuitBreakerError::HalfOpen {
                                    threshold: self.half_open_attempts,
                                },
                            )
                        }
                    },
                }
            },
        }
    }

    /// Executes the given operation through the circuit at the present moment.
    ///
    /// Returns the operation's success value unchanged, or a classified error:
    /// a failure in the closed state comes back wrapped; a call that finds the
    /// circuit open, or a failed probe that exhausts the half-open budget, is
    /// answered with the open error; a failed probe within the budget is
    /// answered with the half-open error. The exact behavior is
    /// `model::guard_behavior` at the moment the call reads from the breaker's
    /// clock; `guard_at` gives the same contract with the moment pinned.
    pub fn guard<T, E, F: Fn() -> Result<T, E>>(&mut self, action: F) -> (res: Result<
        T,
        CircuitBreakerError<E>,
    >)
        requires
            old(self).wf(),
            action.requires(()),
        ensures
            final(self).wf(),
            exists|now_millis: u64|
                #[trigger] model::guard_behavior(action, old(self)@, now_millis, res, final(self)@),
    {
        let now_millis = self.now_millis();
        self.guard_at(now_millis, action)
    }

    /// The state as of the last transition. An open breaker whose recovery
    /// timeout has since elapsed still reports `Open` here: the move to
    /// `HalfOpen` happens when the next guarded call observes the clock.
    pub fn current_state(&self) -> (s: CircuitBreakerState)
        ensures
            s == self@.state,
    {
        self.state
    }

    /// The count of consecutive failures since the last transition (successes
    /// in the closed state do not reset it).
    pub fn failure_count(&self) -> (c: u64)
        ensures
            c == self@.failure_count,
    {
        self.failure_count
    }
}

} // verus!
