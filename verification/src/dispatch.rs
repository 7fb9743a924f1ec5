//! Bounded-time dispatch policy: when the dispatcher may stop waiting
//! for provider invocations, and how the results present at that moment
//! are sealed into per-provider dispatch outcomes.
//!
//! The concurrent execution itself (one worker per invocation, a
//! blocking wait) lives outside the library; the decisions it follows
//! are stated and verified here.

use vstd::prelude::*;

use crate::outcome::DispatchOutcome;
use crate::outcome::ProviderIdentity;
use crate::outcome::ProviderOutcome;

verus! {

/// Whether the dispatcher's wait is over: either the wall-clock budget
/// has expired, or every invocation has already signaled completion
/// (the early exit — the dispatcher never waits the full budget when
/// all results are in).
pub open spec fn spec_should_stop_waiting(
    elapsed_ms: u64,
    budget_ms: u64,
    completed: usize,
    total: usize,
) -> bool {
    elapsed_ms >= budget_ms || completed >= total
}

/// Decides whether the dispatcher may stop waiting, given the elapsed
/// wall-clock time, the configured budget, and how many of the
/// dispatched invocations have signaled completion.
pub fn should_stop_waiting(elapsed_ms: u64, budget_ms: u64, completed: usize, total: usize) -> (r:
    bool)
    ensures
        r == spec_should_stop_waiting(elapsed_ms, budget_ms, completed, total),
{
    elapsed_ms >= budget_ms || completed >= total
}

/// Budget law, one half: once the budget has expired the dispatcher
/// stops waiting, whatever the invocations have or have not done — the
/// caller is never blocked beyond the budget by this policy.
pub proof fn lemma_wait_bounded_by_budget(
    elapsed_ms: u64,
    budget_ms: u64,
    completed: usize,
    total: usize,
)
    requires
        elapsed_ms >= budget_ms,
    ensures
        spec_should_stop_waiting(elapsed_ms, budget_ms, completed, total),
{
}

/// Budget law, the other half: once every invocation has completed the
/// dispatcher stops waiting, however much of the budget is left.
pub proof fn lemma_early_exit_on_completion(
    elapsed_ms: u64,
    budget_ms: u64,
    completed: usize,
    total: usize,
)
    requires
        completed >= total,
    ensures
        spec_should_stop_waiting(elapsed_ms, budget_ms, completed, total),
{
}

/// What one invocation's report seals to at the deadline: a result that
/// arrived in time keeps its own outcome; an absent result becomes the
/// explicit `TimedOut` marker.
pub open spec fn spec_seal<T>(report: Option<ProviderOutcome<T>>) -> DispatchOutcome<T> {
    match report {
        Some(outcome) => DispatchOutcome::Completed(outcome),
        None => DispatchOutcome::TimedOut,
    }
}

/// Seals one invocation's report at the deadline: `None` (no outcome
/// arrived before the budget expired) becomes `TimedOut`; a completed
/// outcome passes through unchanged.
pub fn seal_outcome<T>(report: Option<ProviderOutcome<T>>) -> (r: DispatchOutcome<T>)
    ensures
        r == spec_seal(report),
{
    match report {
        Some(outcome) => DispatchOutcome::Completed(outcome),
        None => DispatchOutcome::TimedOut,
    }
}

/// Seals every provider's report at the deadline, keeping the provider
/// identities and the order of the reports: each completed outcome
/// passes through, each absent one is marked `TimedOut`.
pub fn mark_timeouts<T>(reports: Vec<(ProviderIdentity, Option<ProviderOutcome<T>>)>) -> (r: Vec<
    (ProviderIdentity, DispatchOutcome<T>),
>)
    ensures
        r@.len() == reports@.len(),
        forall|i: int|
            0 <= i < reports@.len() ==> #[trigger] r@[i] == (
            reports@[i].0,
            spec_seal(reports@[i].1),
            ),
{
    let ghost orig = reports@;
    let mut pending = reports;
    let mut sealed: Vec<(ProviderIdentity, DispatchOutcome<T>)> = Vec::new();
    while pending.len() > 0
        invariant
            sealed@.len() + pending@.len() == orig.len(),
            pending@ =~= orig.skip(sealed@.len() as int),
            forall|i: int|
                0 <= i < sealed@.len() ==> #[trigger] sealed@[i] == (
                orig[i].0,
                spec_seal(orig[i].1),
                ),
        decreases pending@.len(),
    {
        let (identity, report) = pending.remove(0);
        sealed.push((identity, seal_outcome(report)));
        proof {
            assert(pending@ =~= orig.skip(sealed@.len() as int));
        }
    }
    sealed
}

} // verus!
