use vstd::prelude::*;

verus! {

/// Error returned by a `CircuitBreaker` when a guarded call does not yield the
/// operation's own success value.
///
/// The three kinds are mutually exclusive:
/// - `Wrapped(cause)`: the guarded operation ran and failed; its own failure
///   value is preserved for the caller.
/// - `Open { threshold }`: the call was rejected because the breaker is open;
///   `threshold` reports the failure-count ceiling of the closed state that
///   caused opening.
/// - `HalfOpen { threshold }`: a probe attempt failed while the breaker was
///   half-open without yet exhausting the probe budget; `threshold` reports the
///   half-open attempt ceiling (this choice of ceiling is deliberate and is
///   part of the contract).
///
/// Threshold values are reported as `u64`; the breaker accepts any positive
/// `u64` threshold at construction.
#[derive(Debug, PartialEq)]
pub enum CircuitBreakerError<E> {
    Wrapped(E),
    Open { threshold: u64 },
    HalfOpen { threshold: u64 },
}

impl<E> CircuitBreakerError<E> {
    /// The underlying failure, when the guarded operation itself ran and
    /// failed; `None` for the synthesized open/half-open rejections, whose
    /// cause detail is deliberately discarded.
    pub fn cause(&self) -> (c: Option<&E>)
        ensures
            match self {
                CircuitBreakerError::Wrapped(e) => c == Some(e),
                _ => c matches None,
            },
    {
        match self {
            CircuitBreakerError::Wrapped(e) => Some(e),
            _ => None,
        }
    }
}

} // verus!
