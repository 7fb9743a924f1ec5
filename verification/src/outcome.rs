//! Per-invocation outcome vocabulary: the tri-state result of one
//! provider call, the dispatcher-level view that adds a timeout marker,
//! the provenance-tagged final response, and the classification of a
//! raw provider call into the tri-state outcome.

use vstd::prelude::*;

verus! {

/// Which provider supplied a value: the precise, potentially slow
/// authoritative backend, or the fast, approximate heuristic backend.
#[derive(Clone, Copy, Debug, PartialEq, Eq, Structural)]
pub enum ProviderIdentity {
    Authoritative,
    Heuristic,
}

/// The outcome of a single provider invocation that ran to completion:
/// it produced a value, it ran but found nothing, or it terminated
/// abnormally (an error or a caught panic) with a reason.
///
/// `Empty` is kept distinct from `Failed` so the reconciler can tell
/// "tried and found nothing" from "could not try". A timeout is never a
/// `ProviderOutcome`: it is a dispatcher-level state.
#[derive(Clone, Debug, PartialEq, Eq)]
pub enum ProviderOutcome<T> {
    Success(T),
    Empty,
    Failed(String),
}

/// The dispatcher's view of one invocation once the budget has expired
/// or every invocation has completed: either the invocation's own
/// outcome, or a marker that it had not completed by the deadline.
#[derive(Clone, Debug, PartialEq, Eq)]
pub enum DispatchOutcome<T> {
    Completed(ProviderOutcome<T>),
    TimedOut,
}

/// The single final answer exposed to the caller: a value together with
/// the provider that supplied it, or an explicit "not found". Failure
/// and absence are indistinguishable here by design.
#[derive(Clone, Debug, PartialEq, Eq)]
pub enum ResponseEnvelope<T> {
    Found(T, ProviderIdentity),
    NotFound,
}

/// How a raw provider call classifies: a normal return with data is
/// `Success`, a normal return without data is `Empty`, and an abnormal
/// termination is `Failed` with its reason.
pub open spec fn spec_outcome_of_call<T>(call: Result<Option<T>, String>) -> ProviderOutcome<T> {
    match call {
        Ok(Some(v)) => ProviderOutcome::Success(v),
        Ok(None) => ProviderOutcome::Empty,
        Err(reason) => ProviderOutcome::Failed(reason),
    }
}

/// Classifies the result of one backend call into a tri-state outcome.
///
/// The caller reports an abnormal termination of the backend call
/// (including a caught panic) as `Err`; it is absorbed here as `Failed`
/// and never propagated further.
pub fn outcome_of_call<T>(call: Result<Option<T>, String>) -> (r: ProviderOutcome<T>)
    ensures
        r == spec_outcome_of_call(call),
{
    match call {
        Ok(Some(v)) => ProviderOutcome::Success(v),
        Ok(None) => ProviderOutcome::Empty,
        Err(reason) => ProviderOutcome::Failed(reason),
    }
}

/// Failure-isolation law: an abnormal termination of a provider call
/// surfaces as `Failed` for that provider, and only abnormal
/// terminations do.
pub proof fn lemma_abnormal_termination_is_failed<T>(call: Result<Option<T>, String>)
    ensures
        spec_outcome_of_call(call) matches ProviderOutcome::Failed(_) <==> call is Err,
{
}

} // verus!
