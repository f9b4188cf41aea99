use vstd::prelude::*;

use crate::circuit_breaker_error::CircuitBreakerError;

verus! {

/// The three operating states of a circuit breaker.
///
/// - `Closed`: normal operation; guarded operations are attempted.
/// - `Open`: tripped; operations are rejected without being attempted.
/// - `HalfOpen`: probing; a limited number of operations are attempted to
///   test whether the protected dependency has recovered.
#[derive(Clone, Copy, Debug, PartialEq, Eq, Structural)]
pub enum CircuitBreakerState {
    Closed,
    Open,
    HalfOpen,
}

/// The abstract state of a circuit breaker: its fixed configuration together
/// with the mutable state, the consecutive-failure counter, and the moment
/// (in milliseconds on the breaker's own monotonic clock) at which it last
/// opened. `opened_at_millis` is meaningful only while `state` is `Open`.
pub struct BreakerModel {
    pub failure_threshold: u64,
    pub half_open_attempts: u64,
    pub recovery_timeout_millis: u64,
    pub state: CircuitBreakerState,
    pub failure_count: u64,
    pub opened_at_millis: u64,
}

/// How a single guarded call is classified for the caller.
///
/// - `Passed`: the operation ran and succeeded; its value is returned.
/// - `ActionFailed`: the operation ran and failed; its failure is returned
///   wrapped.
/// - `RejectedOpen`: the call is answered with the open-circuit error; either
///   the operation was not attempted at all, or a failed half-open probe
///   exhausted the probe budget on this very call.
/// - `RejectedHalfOpen`: a half-open probe ran and failed without exhausting
///   the probe budget; the half-open error is returned.
pub enum Verdict {
    Passed,
    ActionFailed,
    RejectedOpen,
    RejectedHalfOpen,
}

/// Well-formedness of a breaker: positive thresholds, and the counter below
/// the ceiling that governs the current state (it is reset to zero on every
/// transition, so an open breaker always carries a zero counter).
pub open spec fn wf(m: BreakerModel) -> bool {
    &&& m.failure_threshold > 0
    &&& m.half_open_attempts > 0
    &&& (m.state is Closed ==> m.failure_count < m.failure_threshold)
    &&& (m.state is HalfOpen ==> m.failure_count < m.half_open_attempts)
    &&& (m.state is Open ==> m.failure_count == 0)
}

/// The starting state of a freshly built breaker.
pub open spec fn init(
    failure_threshold: u64,
    half_open_attempts: u64,
    recovery_timeout_millis: u64,
) -> BreakerModel {
    BreakerModel {
        failure_threshold,
        half_open_attempts,
        recovery_timeout_millis,
        state: CircuitBreakerState::Closed,
        failure_count: 0,
        opened_at_millis: 0,
    }
}

/// Whether the recovery timeout of an open breaker has elapsed at `now_millis`.
pub open spec fn recovery_due(m: BreakerModel, now_millis: u64) -> bool {
    m.state is Open && now_millis >= m.opened_at_millis + m.recovery_timeout_millis
}

/// The state a guarded call finds once the recovery timer is taken into
/// account: an open breaker whose timeout has elapsed is observed half-open
/// with a fresh counter; every other breaker is observed as it is. This is
/// the only path from `Open` back to `HalfOpen`.
pub open spec fn effective(m: BreakerModel, now_millis: u64) -> BreakerModel {
    if recovery_due(m, now_millis) {
        BreakerModel { state: CircuitBreakerState::HalfOpen, failure_count: 0, ..m }
    } else {
        m
    }
}

/// Whether a guarded call at `now_millis` invokes the wrapped operation:
/// exactly when the breaker is not (still) open.
pub open spec fn invokes(m: BreakerModel, now_millis: u64) -> bool {
    !(effective(m, now_millis).state is Open)
}

/// The breaker just after opening at `now_millis`: counter reset, the moment
/// recorded so that the recovery timeout can be measured from it.
pub open spec fn opened(m: BreakerModel, now_millis: u64) -> BreakerModel {
    BreakerModel {
        state: CircuitBreakerState::Open,
        failure_count: 0,
        opened_at_millis: now_millis,
        ..m
    }
}

/// The total transition function of the breaker: the state after one guarded
/// call at `now_millis` whose operation, if invoked, succeeds iff `action_ok`.
///
/// - Still open: nothing changes.
/// - Closed: success leaves the breaker untouched (the counter is not reset);
///   a failure increments the counter, and reaching `failure_threshold` opens
///   the breaker.
/// - Half-open (including an open breaker whose timeout just elapsed): a
///   successful probe closes the breaker and resets the counter; a failed
///   probe increments the counter, and reaching `half_open_attempts` re-opens
///   the breaker.
pub open spec fn step(m: BreakerModel, now_millis: u64, action_ok: bool) -> BreakerModel {
    let e = effective(m, now_millis);
    match e.state {
        CircuitBreakerState::Open => e,
        CircuitBreakerState::Closed => {
            if action_ok {
                e
            } else if e.failure_count + 1 >= e.failure_threshold {
                opened(e, now_millis)
            } else {
                BreakerModel { failure_count: (e.failure_count + 1) as u64, ..e }
            }
        },
        CircuitBreakerState::HalfOpen => {
            if action_ok {
                BreakerModel { state: CircuitBreakerState::Closed, failure_count: 0, ..e }
            } else if e.failure_count + 1 >= e.half_open_attempts {
                opened(e, now_millis)
            } else {
                BreakerModel { failure_count: (e.failure_count + 1) as u64, ..e }
            }
        },
    }
}

/// How the call described by `step(m, now_millis, action_ok)` is answered.
///
/// A call rejected while open reports `failure_threshold`; a failed half-open
/// probe that exhausts the probe budget re-opens the breaker and is likewise
/// answered with the open error (reporting `failure_threshold`); a failed
/// probe within the budget is answered with the half-open error, reporting
/// `half_open_attempts`.
pub open spec fn verdict(m: BreakerModel, now_millis: u64, action_ok: bool) -> Verdict {
    let e = effective(m, now_millis);
    match e.state {
        CircuitBreakerState::Open => Verdict::RejectedOpen,
        CircuitBreakerState::Closed => if action_ok {
            Verdict::Passed
        } else {
            Verdict::ActionFailed
        },
        CircuitBreakerState::HalfOpen => if action_ok {
            Verdict::Passed
        } else if e.failure_count + 1 >= e.half_open_attempts {
            Verdict::RejectedOpen
        } else {
            Verdict::RejectedHalfOpen
        },
    }
}

/// The value a guarded call returns, given the operation's own result `ar`
/// (ignored when the operation is not invoked): a success value is passed
/// through unchanged; a failure in the closed state is passed through wrapped;
/// the two rejections synthesize an error that carries only the relevant
/// ceiling.
pub open spec fn step_result<T, E>(
    m: BreakerModel,
    now_millis: u64,
    ar: Result<T, E>,
    res: Result<T, CircuitBreakerError<E>>,
) -> bool {
    match verdict(m, now_millis, ar is Ok) {
        Verdict::Passed => ar matches Ok(v) && res matches Ok(w) && w == v,
        Verdict::ActionFailed => ar matches Err(cause) && res matches Err(
            CircuitBreakerError::Wrapped(w),
        ) && w == cause,
        Verdict::RejectedOpen => res matches Err(CircuitBreakerError::Open { threshold })
            && threshold == m.failure_threshold,
        Verdict::RejectedHalfOpen => res matches Err(CircuitBreakerError::HalfOpen { threshold })
            && threshold == m.half_open_attempts,
    }
}

/// The answer to a call that finds the breaker open with the recovery timeout
/// not yet elapsed: the open error, carrying `failure_threshold`.
pub open spec fn rejected_open<T, E>(
    m: BreakerModel,
    res: Result<T, CircuitBreakerError<E>>,
) -> bool {
    res matches Err(CircuitBreakerError::Open { threshold }) && threshold == m.failure_threshold
}

/// Everything one guarded call promises, as a relation between the breaker
/// before (`pre`) and after (`post`), the moment of the call, the operation
/// passed in, and the returned value: if the call invokes the operation, some
/// result `ar` the operation can produce explains both the new state and the
/// returned value; if the breaker is still open, nothing changes and the call
/// is rejected with the open error — in particular the operation is not
/// invoked, and the caller need not even show that it could have been called.
pub open spec fn guard_behavior<T, E, F: Fn() -> Result<T, E>>(
    action: F,
    pre: BreakerModel,
    now_millis: u64,
    res: Result<T, CircuitBreakerError<E>>,
    post: BreakerModel,
) -> bool {
    if invokes(pre, now_millis) {
        exists|ar: Result<T, E>|
            {
                &&& #[trigger] action.ensures((), ar)
                &&& post == step(pre, now_millis, ar is Ok)
                &&& step_result(pre, now_millis, ar, res)
            }
    } else {
        post == pre && rejected_open(pre, res)
    }
}

/// The breaker after a whole sequence of guarded calls, each given as the
/// moment it happens and whether its operation, if invoked, succeeds.
pub open spec fn run(m: BreakerModel, calls: Seq<(u64, bool)>) -> BreakerModel
    decreases calls.len(),
{
    if calls.len() == 0 {
        m
    } else {
        step(run(m, calls.drop_last()), calls.last().0, calls.last().1)
    }
}

/// Unfolds `run` one call at a time from the front: the breaker after the
/// first `i + 1` calls is one step beyond the breaker after the first `i`.
pub proof fn lemma_run_unfold_take(m: BreakerModel, calls: Seq<(u64, bool)>, i: int)
    requires
        0 <= i < calls.len(),
    ensures
        run(m, calls.take(i + 1)) == step(run(m, calls.take(i)), calls[i].0, calls[i].1),
{
    assert(calls.take(i + 1).drop_last() =~= calls.take(i));
    assert(calls.take(i + 1).last() == calls[i]);
}

/// Law: every guarded call preserves the breaker's invariant.
pub proof fn lemma_step_preserves_wf(m: BreakerModel, now_millis: u64, action_ok: bool)
    requires
        wf(m),
    ensures
        wf(step(m, now_millis, action_ok)),
{
}

/// Law: while the breaker is open and the recovery timeout has not elapsed, a
/// guarded call does not invoke the operation, changes nothing, and is
/// answered with the open error carrying `failure_threshold` — whatever the
/// operation would have done.
pub proof fn lemma_open_rejects(m: BreakerModel, now_millis: u64, action_ok: bool)
    requires
        wf(m),
        m.state is Open,
        now_millis < m.opened_at_millis + m.recovery_timeout_millis,
    ensures
        !invokes(m, now_millis),
        verdict(m, now_millis, action_ok) is RejectedOpen,
        step(m, now_millis, action_ok) == m,
{
}

/// Law: while the breaker is open, any number of guarded calls made before the
/// recovery timeout elapses leave it exactly as it was, none of them invokes
/// the operation, and every one is answered with the open error.
pub proof fn lemma_open_rejects_all(m: BreakerModel, calls: Seq<(u64, bool)>)
    requires
        wf(m),
        m.state is Open,
        forall|i: int|
            0 <= i < calls.len() ==> (#[trigger] calls[i]).0
                < m.opened_at_millis + m.recovery_timeout_millis,
    ensures
        run(m, calls) == m,
        forall|i: int| #![trigger calls.take(i)]
            0 <= i < calls.len() ==> run(m, calls.take(i)) == m,
        forall|i: int|
            0 <= i < calls.len() ==> !invokes(m, (#[trigger] calls[i]).0) && verdict(
                m,
                calls[i].0,
                calls[i].1,
            ) is RejectedOpen,
    decreases calls.len(),
{
    if calls.len() > 0 {
        lemma_open_rejects_all(m, calls.drop_last());
        lemma_open_rejects(m, calls.last().0, calls.last().1);
        assert forall|i: int| 0 <= i < calls.len() implies run(m, #[trigger] calls.take(i))
            == m by {
            if i < calls.len() - 1 {
                assert(calls.drop_last().take(i) =~= calls.take(i));
            } else {
                assert(calls.take(i) =~= calls.drop_last());
            }
        }
    }
}

/// Law: once the recovery timeout of an open breaker has elapsed, the next
/// guarded call is permitted to invoke the operation — the breaker is observed
/// half-open, with a fresh counter.
pub proof fn lemma_recovery_permits(m: BreakerModel, now_millis: u64)
    requires
        wf(m),
        m.state is Open,
        now_millis >= m.opened_at_millis + m.recovery_timeout_millis,
    ensures
        invokes(m, now_millis),
        effective(m, now_millis).state is HalfOpen,
        effective(m, now_millis).failure_count == 0,
{
}

/// Law: if a half-open probe succeeds, the breaker is closed and its failure
/// counter is zero immediately afterwards, and the call passes the success
/// value through.
pub proof fn lemma_probe_success_closes(m: BreakerModel, now_millis: u64)
    requires
        wf(m),
        effective(m, now_millis).state is HalfOpen,
    ensures
        step(m, now_millis, true).state is Closed,
        step(m, now_millis, true).failure_count == 0,
        verdict(m, now_millis, true) is Passed,
{
}

/// Walks a prefix of an all-failures call sequence from a freshly closed
/// breaker: as long as the threshold is not reached, the breaker stays closed
/// and the counter equals the number of failures so far.
proof fn lemma_closed_failure_prefix(m: BreakerModel, calls: Seq<(u64, bool)>, i: int)
    requires
        wf(m),
        m.state is Closed,
        m.failure_count == 0,
        0 <= i <= calls.len(),
        i < m.failure_threshold,
        forall|j: int| 0 <= j < calls.len() ==> !(#[trigger] calls[j]).1,
    ensures
        run(m, calls.take(i)) == (BreakerModel { failure_count: i as u64, ..m }),
    decreases i,
{
    if i == 0 {
        assert(calls.take(0) =~= Seq::<(u64, bool)>::empty());
    } else {
        lemma_closed_failure_prefix(m, calls, i - 1);
        lemma_run_unfold_take(m, calls, i - 1);
    }
}

/// Law: from a closed breaker with a zero counter, exactly `failure_threshold`
/// consecutive failing calls each invoke the operation and are each answered
/// with the wrapped failure, and the last of them opens the breaker, recording
/// its moment and resetting the counter. (The very next call before the
/// recovery timeout is then rejected with the open error without invoking the
/// operation: `lemma_open_rejects`.)
pub proof fn lemma_failure_threshold_opens(m: BreakerModel, calls: Seq<(u64, bool)>)
    requires
        wf(m),
        m.state is Closed,
        m.failure_count == 0,
        calls.len() == m.failure_threshold,
        forall|j: int| 0 <= j < calls.len() ==> !(#[trigger] calls[j]).1,
    ensures
        forall|i: int| #![trigger calls.take(i)]
            0 <= i < calls.len() ==> run(m, calls.take(i)) == (BreakerModel {
                failure_count: i as u64,
                ..m
            }),
        forall|i: int| #![trigger calls.take(i)]
            0 <= i < calls.len() ==> invokes(run(m, calls.take(i)), calls[i].0) && verdict(
                run(m, calls.take(i)),
                calls[i].0,
                false,
            ) is ActionFailed,
        run(m, calls) == opened(m, calls.last().0),
{
    let f = m.failure_threshold as int;
    assert forall|i: int| 0 <= i < calls.len() implies run(m, #[trigger] calls.take(i))
        == (BreakerModel { failure_count: i as u64, ..m }) by {
        lemma_closed_failure_prefix(m, calls, i);
    }
    lemma_closed_failure_prefix(m, calls, f - 1);
    lemma_run_unfold_take(m, calls, f - 1);
    assert(calls.take(f) =~= calls);
}

/// Walks a prefix of an all-failures probe sequence from a freshly half-open
/// breaker: as long as the probe budget is not exhausted, the breaker stays
/// half-open and the counter equals the number of failed probes so far.
proof fn lemma_half_open_failure_prefix(m: BreakerModel, calls: Seq<(u64, bool)>, i: int)
    requires
        wf(m),
        m.state is HalfOpen,
        m.failure_count == 0,
        0 <= i <= calls.len(),
        i < m.half_open_attempts,
        forall|j: int| 0 <= j < calls.len() ==> !(#[trigger] calls[j]).1,
    ensures
        run(m, calls.take(i)) == (BreakerModel { failure_count: i as u64, ..m }),
    decreases i,
{
    if i == 0 {
        assert(calls.take(0) =~= Seq::<(u64, bool)>::empty());
    } else {
        lemma_half_open_failure_prefix(m, calls, i - 1);
        lemma_run_unfold_take(m, calls, i - 1);
    }
}

/// Law: from a half-open breaker with a zero counter, exactly
/// `half_open_attempts` consecutive failing probes re-open it, recording the
/// moment of the last probe and resetting the counter; every probe but the
/// last is answered with the half-open error, and the last with the open
/// error. (Until another full recovery timeout elapses from that moment,
/// subsequent calls are rejected with the open error: `lemma_open_rejects_all`.)
pub proof fn lemma_probe_failures_reopen(m: BreakerModel, calls: Seq<(u64, bool)>)
    requires
        wf(m),
        m.state is HalfOpen,
        m.failure_count == 0,
        calls.len() == m.half_open_attempts,
        forall|j: int| 0 <= j < calls.len() ==> !(#[trigger] calls[j]).1,
    ensures
        forall|i: int| #![trigger calls.take(i)]
            0 <= i < calls.len() ==> run(m, calls.take(i)) == (BreakerModel {
                failure_count: i as u64,
                ..m
            }),
        forall|i: int| #![trigger calls.take(i)]
            0 <= i < calls.len() ==> invokes(run(m, calls.take(i)), calls[i].0),
        forall|i: int| #![trigger calls.take(i)]
            0 <= i < calls.len() - 1 ==> verdict(
                run(m, calls.take(i)),
                calls[i].0,
                false,
            ) is RejectedHalfOpen,
        verdict(run(m, calls.take(calls.len() - 1)), calls.last().0, false) is RejectedOpen,
        run(m, calls) == opened(m, calls.last().0),
{
    let h = m.half_open_attempts as int;
    assert forall|i: int| 0 <= i < calls.len() implies run(m, #[trigger] calls.take(i))
        == (BreakerModel { failure_count: i as u64, ..m }) by {
        lemma_half_open_failure_prefix(m, calls, i);
    }
    lemma_half_open_failure_prefix(m, calls, h - 1);
    lemma_run_unfold_take(m, calls, h - 1);
    assert(calls.take(h) =~= calls);
}

/// Two breakers that agree on everything that can still matter: same
/// configuration, state and counter, and — only while open, where it feeds the
/// recovery timer — the same opening moment. A closed or half-open breaker's
/// `opened_at_millis` is dead state.
pub open spec fn matching(m1: BreakerModel, m2: BreakerModel) -> bool {
    &&& m1.failure_threshold == m2.failure_threshold
    &&& m1.half_open_attempts == m2.half_open_attempts
    &&& m1.recovery_timeout_millis == m2.recovery_timeout_millis
    &&& m1.state == m2.state
    &&& m1.failure_count == m2.failure_count
    &&& (m1.state is Open ==> m1.opened_at_millis == m2.opened_at_millis)
}

/// Law: matching breakers stay matching under the same call, and answer it
/// with the same verdict — the opening moment left behind by an earlier cycle
/// never influences behavior.
pub proof fn lemma_matching_step(m1: BreakerModel, m2: BreakerModel, now_millis: u64, action_ok: bool)
    requires
        matching(m1, m2),
    ensures
        matching(step(m1, now_millis, action_ok), step(m2, now_millis, action_ok)),
        verdict(m1, now_millis, action_ok) == verdict(m2, now_millis, action_ok),
        invokes(m1, now_millis) == invokes(m2, now_millis),
{
}

/// Law: matching breakers answer any whole sequence of calls with the same
/// verdicts, and remain matching throughout.
pub proof fn lemma_matching_run(m1: BreakerModel, m2: BreakerModel, calls: Seq<(u64, bool)>)
    requires
        matching(m1, m2),
    ensures
        matching(run(m1, calls), run(m2, calls)),
        forall|i: int| #![trigger calls.take(i)]
            0 <= i < calls.len() ==> verdict(run(m1, calls.take(i)), calls[i].0, calls[i].1)
                == verdict(run(m2, calls.take(i)), calls[i].0, calls[i].1),
    decreases calls.len(),
{
    if calls.len() > 0 {
        lemma_matching_run(m1, m2, calls.drop_last());
        lemma_matching_step(run(m1, calls.drop_last()), run(m2, calls.drop_last()), calls.last().0, calls.last().1);
        assert forall|i: int| 0 <= i < calls.len() implies verdict(
            run(m1, #[trigger] calls.take(i)),
            calls[i].0,
            calls[i].1,
        ) == verdict(run(m2, calls.take(i)), calls[i].0, calls[i].1) by {
            if i < calls.len() - 1 {
                assert(calls.drop_last().take(i) =~= calls.take(i));
                assert(calls.drop_last()[i] == calls[i]);
            } else {
                assert(calls.take(i) =~= calls.drop_last());
                lemma_matching_step(run(m1, calls.drop_last()), run(m2, calls.drop_last()), calls[i].0, calls[i].1);
            }
        }
    }
}

/// Law: the cycle is repeatable indefinitely. A breaker that has come back to
/// the closed state with a zero counter — as every transition into the closed
/// state leaves it — answers every future call sequence with exactly the
/// verdicts a freshly built breaker of the same configuration would: no
/// internal counter accumulates across cycles.
pub proof fn lemma_cycle_repeatable(m: BreakerModel, calls: Seq<(u64, bool)>)
    requires
        wf(m),
        m.state is Closed,
        m.failure_count == 0,
    ensures
        forall|i: int| #![trigger calls.take(i)]
            0 <= i < calls.len() ==> verdict(run(m, calls.take(i)), calls[i].0, calls[i].1)
                == verdict(
                run(
                    init(m.failure_threshold, m.half_open_attempts, m.recovery_timeout_millis),
                    calls.take(i),
                ),
                calls[i].0,
                calls[i].1,
            ),
{
    let fresh = init(m.failure_threshold, m.half_open_attempts, m.recovery_timeout_millis);
    lemma_matching_run(m, fresh, calls);
}

/// Law: every transition into a new state resets the failure counter — in
/// particular, a step that closes the breaker leaves it matching a freshly
/// built one.
pub proof fn lemma_transition_resets_counter(m: BreakerModel, now_millis: u64, action_ok: bool)
    requires
        wf(m),
    ensures
        step(m, now_millis, action_ok).state != effective(m, now_millis).state ==> step(
            m,
            now_millis,
            action_ok,
        ).failure_count == 0,
        !(effective(m, now_millis).state is Closed) && step(m, now_millis, action_ok).state
            is Closed ==> matching(
            step(m, now_millis, action_ok),
            init(m.failure_threshold, m.half_open_attempts, m.recovery_timeout_millis),
        ),
{
}

} // verus!
