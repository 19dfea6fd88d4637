//! The reconnection supervisor's policy.
//!
//! The supervisor repeatedly attempts a connection, reports each attempt's
//! outcome to a caller-supplied handler, waits a fixed delay, and tries
//! again. It never inspects why the previous session ended: a clean exit
//! and an error lead to the same fixed-delay retry, and there is no
//! terminal state.

use vstd::prelude::*;
use crate::error::WStompConnectError;

verus! {

/// The default inter-attempt delay, in seconds.
pub const DEFAULT_RETRY_DELAY_SECS: u64 = 3;

/// What the supervisor decides after one connection attempt.
#[derive(Debug, Clone, Copy, PartialEq, Eq, Structural)]
pub struct RetryDirective {
    /// Whether another attempt follows; this policy always retries.
    pub retry: bool,
    /// Seconds to wait between the handler's return and the next attempt.
    pub delay_secs: u64,
}

/// The reconnection policy: a fixed inter-attempt delay and no terminal
/// state.
pub struct Supervisor {
    /// The fixed delay between attempts, in seconds.
    pub delay_secs: u64,
}

impl Supervisor {
    /// The default policy, with its fixed delay.
    pub fn new() -> (s: Supervisor)
        ensures
            s.delay_secs == DEFAULT_RETRY_DELAY_SECS,
    {
        Supervisor { delay_secs: DEFAULT_RETRY_DELAY_SECS }
    }

    /// A policy with the given inter-attempt delay.
    pub fn with_delay(delay_secs: u64) -> (s: Supervisor)
        ensures
            s.delay_secs == delay_secs,
    {
        Supervisor { delay_secs }
    }

    /// The directive this policy gives, whatever the outcome was.
    pub open spec fn directive_spec(&self) -> RetryDirective {
        RetryDirective { retry: true, delay_secs: self.delay_secs }
    }

    /// Decide what follows one attempt. The outcome is not inspected: every
    /// outcome, success or failure, leads to a retry after the fixed delay.
    pub fn after_attempt<T>(&self, outcome: &Result<T, WStompConnectError>) -> (d: RetryDirective)
        ensures
            d == self.directive_spec(),
    {
        RetryDirective { retry: true, delay_secs: self.delay_secs }
    }
}

/// Reconnection liveness, the policy's part: whatever an attempt's outcome,
/// the supervisor retries after exactly the fixed delay, so no sequence of
/// failures can stop the attempt stream, and k attempts are separated by
/// exactly k fixed delays. The wall-clock bound itself lies outside this
/// model.
pub proof fn lemma_reconnection_liveness<T>(sup: Supervisor, outcome: Result<T, WStompConnectError>)
    ensures
        sup.directive_spec().retry,
        sup.directive_spec().delay_secs == sup.delay_secs,
{
}

} // verus!
