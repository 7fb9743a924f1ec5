//! Result reconciliation: turning the dispatcher's per-provider
//! outcomes into the single final response, by the authoritative-first
//! priority policy.
//!
//! The policy: a successful authoritative outcome always wins; failing
//! that, the first successful heuristic outcome (in the fixed provider
//! priority order) is taken; failing that, the response is `NotFound`.
//! A provider that timed out, failed or found nothing never contributes
//! a value.

use vstd::prelude::*;

use crate::outcome::DispatchOutcome;
use crate::outcome::ProviderIdentity;
use crate::outcome::ProviderOutcome;
use crate::outcome::ResponseEnvelope;

verus! {

/// Whether a dispatched invocation completed in time and produced a
/// value.
pub open spec fn is_success<T>(d: DispatchOutcome<T>) -> bool {
    d matches DispatchOutcome::Completed(ProviderOutcome::Success(_))
}

/// The value a successful dispatched invocation produced.
pub open spec fn success_value<T>(d: DispatchOutcome<T>) -> T
    recommends
        is_success(d),
{
    d->Completed_0->Success_0
}

/// What the fallback over the heuristic outcomes picks: the value of
/// the first successful one in priority order, or `NotFound` when none
/// succeeded.
pub open spec fn spec_pick_heuristic<T>(hs: Seq<DispatchOutcome<T>>) -> ResponseEnvelope<T>
    decreases hs.len(),
{
    if hs.len() == 0 {
        ResponseEnvelope::NotFound
    } else if is_success(hs[0]) {
        ResponseEnvelope::Found(success_value(hs[0]), ProviderIdentity::Heuristic)
    } else {
        spec_pick_heuristic(hs.drop_first())
    }
}

/// What reconciliation produces: the authoritative value when the
/// authoritative invocation succeeded, else the first successful
/// heuristic value, else `NotFound`.
pub open spec fn spec_reconcile<T>(
    auth: DispatchOutcome<T>,
    heuristics: Seq<DispatchOutcome<T>>,
) -> ResponseEnvelope<T> {
    if is_success(auth) {
        ResponseEnvelope::Found(success_value(auth), ProviderIdentity::Authoritative)
    } else {
        spec_pick_heuristic(heuristics)
    }
}

/// Reconciles the dispatched outcomes of one request into the single
/// final response, authoritative-first: a successful authoritative
/// outcome wins outright; otherwise the first successful heuristic
/// outcome (in the order given, the fixed provider priority order) is
/// returned with provenance `Heuristic`; otherwise the response is
/// `NotFound`.
#[verifier::loop_isolation(false)]
pub fn reconcile<T>(auth: DispatchOutcome<T>, mut heuristics: Vec<DispatchOutcome<T>>) -> (r:
    ResponseEnvelope<T>)
    ensures
        r == spec_reconcile(auth, heuristics@),
{
    let ghost orig = heuristics@;
    match auth {
        DispatchOutcome::Completed(ProviderOutcome::Success(v)) => ResponseEnvelope::Found(
            v,
            ProviderIdentity::Authoritative,
        ),
        _ => {
            while heuristics.len() > 0
                invariant
                    !is_success(auth),
                    spec_pick_heuristic(orig) == spec_pick_heuristic(heuristics@),
                decreases heuristics@.len(),
            {
                let ghost before = heuristics@;
                let h = heuristics.remove(0);
                match h {
                    DispatchOutcome::Completed(ProviderOutcome::Success(v)) => {
                        proof {
                            assert(is_success(before[0]));
                            assert(spec_pick_heuristic(before) == ResponseEnvelope::Found(
                                v,
                                ProviderIdentity::Heuristic,
                            ));
                        }
                        return ResponseEnvelope::Found(v, ProviderIdentity::Heuristic);
                    },
                    _ => {
                        proof {
                            assert(heuristics@ =~= before.drop_first());
                        }
                    },
                }
            }
            ResponseEnvelope::NotFound
        },
    }
}

/// Priority law: whenever the authoritative provider's invocation
/// completed with `Success(v)` within budget, the reconciled response
/// carries `v` with provenance `Authoritative`, regardless of what any
/// heuristic provider returned.
pub proof fn lemma_authoritative_wins<T>(v: T, heuristics: Seq<DispatchOutcome<T>>)
    ensures
        spec_reconcile(
            DispatchOutcome::Completed(ProviderOutcome::Success(v)),
            heuristics,
        ) == ResponseEnvelope::Found(v, ProviderIdentity::Authoritative),
{
}

/// The fallback picks the first successful heuristic outcome: if the
/// outcome at position `i` succeeded with a value and no earlier one
/// succeeded, the fallback returns that value with provenance
/// `Heuristic`.
proof fn lemma_pick_first_success<T>(hs: Seq<DispatchOutcome<T>>, i: int)
    requires
        0 <= i < hs.len(),
        is_success(hs[i]),
        forall|j: int| 0 <= j < i ==> !is_success(hs[j]),
    ensures
        spec_pick_heuristic(hs) == ResponseEnvelope::Found(
            success_value(hs[i]),
            ProviderIdentity::Heuristic,
        ),
    decreases i,
{
    if i > 0 {
        lemma_pick_first_success(hs.drop_first(), i - 1);
    }
}

/// Graceful-degradation law: when the authoritative provider timed out
/// or failed, and exactly one heuristic provider returned `Success(v)`
/// within budget, the final response is `v` with provenance
/// `Heuristic`.
pub proof fn lemma_heuristic_fallback<T>(
    auth: DispatchOutcome<T>,
    heuristics: Seq<DispatchOutcome<T>>,
    i: int,
    v: T,
)
    requires
        auth is TimedOut || auth matches DispatchOutcome::Completed(
            ProviderOutcome::Failed(_),
        ),
        0 <= i < heuristics.len(),
        heuristics[i] == DispatchOutcome::Completed(ProviderOutcome::Success(v)),
        forall|j: int| 0 <= j < heuristics.len() && j != i ==> !is_success(heuristics[j]),
    ensures
        spec_reconcile(auth, heuristics) == ResponseEnvelope::Found(
            v,
            ProviderIdentity::Heuristic,
        ),
{
    lemma_pick_first_success(heuristics, i);
}

/// No successful heuristic outcome means no value: the fallback over
/// outcomes that all timed out, failed or found nothing is `NotFound`.
proof fn lemma_pick_none<T>(hs: Seq<DispatchOutcome<T>>)
    requires
        forall|j: int| 0 <= j < hs.len() ==> !is_success(hs[j]),
    ensures
        spec_pick_heuristic(hs) == ResponseEnvelope::<T>::NotFound,
    decreases hs.len(),
{
    if hs.len() > 0 {
        lemma_pick_none(hs.drop_first());
    }
}

/// Absence law: when every provider returned `Empty` or `Failed` or
/// timed out — that is, no invocation succeeded — the final response is
/// `NotFound`.
pub proof fn lemma_all_silent_is_not_found<T>(
    auth: DispatchOutcome<T>,
    heuristics: Seq<DispatchOutcome<T>>,
)
    requires
        !is_success(auth),
        forall|j: int| 0 <= j < heuristics.len() ==> !is_success(heuristics[j]),
    ensures
        spec_reconcile(auth, heuristics) == ResponseEnvelope::<T>::NotFound,
{
    lemma_pick_none(heuristics);
}

} // verus!
