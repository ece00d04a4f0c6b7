//! The background credential refresh, as a state machine over the shared
//! cache. The loop that sleeps and performs the OAuth exchange runs outside
//! this crate; it reports each event here, and only this transition function
//! touches the cache. A failed attempt is contained: the cache keeps the
//! previous credential and the task goes back to waiting.

use vstd::prelude::*;
use crate::credential::Credential;
use crate::credential::CredentialCache;

verus! {

/// Seconds between two background refresh attempts.
pub const REFRESH_INTERVAL_SECONDS: u64 = 1800;

/// The refresh task is either waiting for the next interval or has an
/// exchange attempt in flight.
#[derive(Clone, Copy, Debug, PartialEq, Eq, Structural)]
pub enum SchedulerPhase {
    Idle,
    Refreshing,
}

/// What the environment reports to the scheduler: the interval elapsed, or
/// the exchange in flight came back — with a fresh credential, or failed
/// (including any unexpected fault during the attempt).
pub enum RefreshEvent {
    IntervalElapsed,
    ExchangeSucceeded { credential: Credential },
    ExchangeFailed,
}

/// One transition of the refresh state machine. Only a successful exchange
/// writes into the cache; a failure leaves the cache exactly as it was, so
/// the previous credential stays in effect until the next cycle. An event
/// that does not belong to the phase changes nothing.
pub fn scheduler_step(
    phase: SchedulerPhase,
    event: RefreshEvent,
    cache: &mut CredentialCache,
) -> (next: SchedulerPhase)
    requires
        old(cache).wf(),
    ensures
        final(cache).wf(),
        match (phase, event) {
            (SchedulerPhase::Idle, RefreshEvent::IntervalElapsed) => next
                == SchedulerPhase::Refreshing && *final(cache) == *old(cache),
            (SchedulerPhase::Refreshing, RefreshEvent::ExchangeSucceeded { credential }) => {
                &&& next == SchedulerPhase::Idle
                &&& final(cache).current() == credential
                &&& final(cache).writes() == old(cache).writes().push(credential)
            },
            (SchedulerPhase::Refreshing, RefreshEvent::ExchangeFailed) => next
                == SchedulerPhase::Idle && *final(cache) == *old(cache),
            _ => next == phase && *final(cache) == *old(cache),
        },
{
    match (phase, event) {
        (SchedulerPhase::Idle, RefreshEvent::IntervalElapsed) => SchedulerPhase::Refreshing,
        (SchedulerPhase::Refreshing, RefreshEvent::ExchangeSucceeded { credential }) => {
            cache.write(credential);
            SchedulerPhase::Idle
        },
        (SchedulerPhase::Refreshing, RefreshEvent::ExchangeFailed) => SchedulerPhase::Idle,
        (p, _) => p,
    }
}

} // verus!
