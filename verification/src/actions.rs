//! The per-request-kind pipelines: the typed results each request kind
//! exposes, and the verified decision core of each — convention
//! normalization, authoritative-first reconciliation, and the collapse
//! of absent or failed outcomes into each kind's empty answer.
//!
//! The concurrent provider invocations themselves run outside the
//! library; every function here takes the dispatched outcomes as
//! arguments and is verified for every value of them.

use vstd::prelude::*;

use crate::outcome::DispatchOutcome;
use crate::outcome::ProviderOutcome;
use crate::outcome::ResponseEnvelope;
use crate::position::Convention;
use crate::position::Position;
use crate::position::position_from_provider;
use crate::position::spec_position_from_provider;
use crate::reconcile::reconcile;
use crate::reconcile::spec_reconcile;

verus! {

/// One completion suggestion: the completed name and the context it
/// was found in.
#[derive(Clone, Debug, PartialEq, Eq)]
pub struct Completion {
    pub name: String,
    pub context: String,
}

/// Hover information for a symbol occurrence: its type, its
/// documentation, and a documentation link. Absent parts are empty
/// strings.
#[derive(Clone, Debug, PartialEq, Eq)]
pub struct Title {
    pub ty: String,
    pub docs: String,
    pub doc_url: String,
}

/// A range identifying a symbol occurrence in a file, in the 0-based
/// client convention.
#[derive(Clone, Debug, PartialEq, Eq)]
pub struct Span {
    pub filepath: String,
    pub start_line: usize,
    pub start_col: usize,
    pub end_line: usize,
    pub end_col: usize,
}

/// The kind of a listed symbol, in the editor's vocabulary.
#[derive(Clone, Copy, Debug, PartialEq, Eq, Structural)]
pub enum SymbolKind {
    File,
    Module,
    Crate,
    Struct,
    Enum,
    Trait,
    Function,
    Method,
    Field,
    Variable,
    Constant,
    Static,
    Macro,
    Other,
}

/// One symbol listed for a file: its name, its kind, and where it
/// stands.
#[derive(Clone, Debug, PartialEq, Eq)]
pub struct Symbol {
    pub name: String,
    pub kind: SymbolKind,
    pub span: Span,
}

/// What normalizing one dispatched definition outcome to the client
/// convention yields: a successful position is translated out of the
/// provider's convention; empty, failed and timed-out outcomes pass
/// through.
pub open spec fn spec_normalize_outcome(
    d: DispatchOutcome<Position>,
    convention: Convention,
) -> DispatchOutcome<Position> {
    match d {
        DispatchOutcome::Completed(ProviderOutcome::Success(p)) => DispatchOutcome::Completed(
            ProviderOutcome::Success(spec_position_from_provider(p, convention)),
        ),
        _ => d,
    }
}

/// Normalizes one provider's dispatched definition outcome into the
/// 0-based client convention: the position inside a successful outcome
/// is translated out of the provider's convention; every other outcome
/// passes through unchanged.
pub fn normalize_outcome(d: DispatchOutcome<Position>, convention: Convention) -> (r:
    DispatchOutcome<Position>)
    ensures
        r == spec_normalize_outcome(d, convention),
{
    match d {
        DispatchOutcome::Completed(ProviderOutcome::Success(p)) => DispatchOutcome::Completed(
            ProviderOutcome::Success(position_from_provider(p, convention)),
        ),
        other => other,
    }
}

/// What a go-to-definition request answers: each provider's outcome
/// normalized to the client convention, then reconciled
/// authoritative-first.
pub open spec fn spec_goto_def(
    auth: DispatchOutcome<Position>,
    auth_convention: Convention,
    heuristic: DispatchOutcome<Position>,
    heuristic_convention: Convention,
) -> ResponseEnvelope<Position> {
    spec_reconcile(
        spec_normalize_outcome(auth, auth_convention),
        seq![spec_normalize_outcome(heuristic, heuristic_convention)],
    )
}

/// Answers a go-to-definition request from the two dispatched provider
/// outcomes: each successful position first leaves its provider's
/// convention for the 0-based client convention, then the
/// authoritative-first priority policy picks the final response. All
/// positions in the response are in the client convention.
pub fn goto_def(
    auth: DispatchOutcome<Position>,
    auth_convention: Convention,
    heuristic: DispatchOutcome<Position>,
    heuristic_convention: Convention,
) -> (r: ResponseEnvelope<Position>)
    ensures
        r == spec_goto_def(auth, auth_convention, heuristic, heuristic_convention),
{
    let auth_client = normalize_outcome(auth, auth_convention);
    let heuristic_client = normalize_outcome(heuristic, heuristic_convention);
    let mut heuristics: Vec<DispatchOutcome<Position>> = Vec::new();
    heuristics.push(heuristic_client);
    proof {
        assert(heuristics@ =~= seq![
            spec_normalize_outcome(heuristic, heuristic_convention),
        ]);
    }
    reconcile(auth_client, heuristics)
}

/// What a single-provider request that answers with a list collapses
/// to: the list of a successful outcome, and the empty list when the
/// provider found nothing, failed or timed out.
pub open spec fn spec_collapse_to_list<T>(d: DispatchOutcome<Vec<T>>) -> Seq<T> {
    match d {
        DispatchOutcome::Completed(ProviderOutcome::Success(items)) => items@,
        _ => Seq::empty(),
    }
}

/// Answers a find-references request from its single dispatched
/// outcome: the spans of a successful outcome, in the order the
/// provider gave them, and no spans when the provider found nothing,
/// failed or timed out.
pub fn find_refs(outcome: DispatchOutcome<Vec<Span>>) -> (r: Vec<Span>)
    ensures
        r@ == spec_collapse_to_list(outcome),
{
    match outcome {
        DispatchOutcome::Completed(ProviderOutcome::Success(spans)) => spans,
        _ => Vec::new(),
    }
}

/// Answers a symbol-listing request from its single dispatched
/// outcome: the symbols of a successful outcome, in the order the
/// provider gave them, and none when the provider found nothing,
/// failed or timed out.
pub fn symbols(outcome: DispatchOutcome<Vec<Symbol>>) -> (r: Vec<Symbol>)
    ensures
        r@ == spec_collapse_to_list(outcome),
{
    match outcome {
        DispatchOutcome::Completed(ProviderOutcome::Success(syms)) => syms,
        _ => Vec::new(),
    }
}

/// What a completion request collapses to: the suggestions of a
/// completed successful invocation, and no suggestions when the
/// invocation found nothing or terminated abnormally.
pub open spec fn spec_complete(outcome: ProviderOutcome<Vec<Completion>>) -> Seq<Completion> {
    match outcome {
        ProviderOutcome::Success(items) => items@,
        _ => Seq::empty(),
    }
}

/// Answers a completion request from the classified outcome of the
/// completion provider's invocation: the suggestions of a successful
/// call, and none when the call found nothing or terminated abnormally
/// — a malfunctioning completion backend yields an empty list, never a
/// crash.
pub fn complete(outcome: ProviderOutcome<Vec<Completion>>) -> (r: Vec<Completion>)
    ensures
        r@ == spec_complete(outcome),
{
    match outcome {
        ProviderOutcome::Success(items) => items,
        _ => Vec::new(),
    }
}

/// What one of the three hover parts reads as: the text the provider
/// gave, or the empty string where it gave none.
pub open spec fn spec_title_part(part: Option<String>) -> Seq<char> {
    match part {
        Some(text) => text@,
        None => Seq::empty(),
    }
}

/// Assembles hover information from its three independently fallible
/// parts — the symbol's type, its documentation, and a documentation
/// link — turning each absent part into the empty string.
pub fn title_of_parts(ty: Option<String>, docs: Option<String>, doc_url: Option<String>) -> (t:
    Title)
    ensures
        t.ty@ == spec_title_part(ty),
        t.docs@ == spec_title_part(docs),
        t.doc_url@ == spec_title_part(doc_url),
{
    Title {
        ty: match ty {
            Some(text) => text,
            None => String::new(),
        },
        docs: match docs {
            Some(text) => text,
            None => String::new(),
        },
        doc_url: match doc_url {
            Some(text) => text,
            None => String::new(),
        },
    }
}

/// What a hover request answers: the assembled hover information of an
/// invocation that completed in time with a value, and nothing
/// otherwise.
pub open spec fn spec_title(outcome: DispatchOutcome<Title>) -> Option<Title> {
    match outcome {
        DispatchOutcome::Completed(ProviderOutcome::Success(t)) => Some(t),
        _ => None,
    }
}

/// Answers a hover request from its single dispatched outcome: the
/// hover information of a successful outcome, and nothing when the
/// provider found nothing, failed or timed out.
pub fn title(outcome: DispatchOutcome<Title>) -> (r: Option<Title>)
    ensures
        r == spec_title(outcome),
{
    match outcome {
        DispatchOutcome::Completed(ProviderOutcome::Success(t)) => Some(t),
        _ => None,
    }
}

} // verus!
