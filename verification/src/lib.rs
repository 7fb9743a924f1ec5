//! Bounded-time, multi-provider query coordination for IDE-style
//! code-intelligence requests.
//!
//! The library answers go-to-definition, find-references, hover, symbol,
//! completion and formatting requests by reconciling the outcomes of
//! independent analysis providers that differ in latency, accuracy and
//! availability. It translates between position conventions, classifies
//! each provider invocation into a tri-state outcome, marks invocations
//! that missed the response-time budget, and applies an
//! authoritative-first priority policy to produce a single deterministic
//! answer.

use vstd::prelude::*;

mod actions;
mod dispatch;
mod fmt;
mod outcome;
mod position;
mod reconcile;

pub use actions::Completion;
pub use actions::Span;
pub use actions::Symbol;
pub use actions::SymbolKind;
pub use actions::Title;
pub use actions::complete;
pub use actions::find_refs;
pub use actions::goto_def;
pub use actions::normalize_outcome;
pub use actions::spec_collapse_to_list;
pub use actions::spec_complete;
pub use actions::spec_goto_def;
pub use actions::spec_normalize_outcome;
pub use actions::spec_title;
pub use actions::spec_title_part;
pub use actions::symbols;
pub use actions::title;
pub use actions::title_of_parts;
pub use dispatch::lemma_early_exit_on_completion;
pub use dispatch::lemma_wait_bounded_by_budget;
pub use dispatch::mark_timeouts;
pub use dispatch::seal_outcome;
pub use dispatch::should_stop_waiting;
pub use dispatch::spec_seal;
pub use dispatch::spec_should_stop_waiting;
pub use fmt::FmtConfig;
pub use fmt::FmtInput;
pub use fmt::FmtOutput;
pub use fmt::WriteMode;
pub use fmt::fmt_input;
pub use fmt::fmt_input_for;
pub use fmt::fmt_output;
pub use fmt::overlay_for;
pub use fmt::single_pass_config;
pub use fmt::spec_overlay_for;
pub use outcome::DispatchOutcome;
pub use outcome::ProviderIdentity;
pub use outcome::ProviderOutcome;
pub use outcome::ResponseEnvelope;
pub use outcome::lemma_abnormal_termination_is_failed;
pub use outcome::outcome_of_call;
pub use outcome::spec_outcome_of_call;
pub use position::Convention;
pub use position::Position;
pub use position::lemma_convention_round_trip;
pub use position::position_for_provider;
pub use position::position_from_provider;
pub use position::spec_position_for_provider;
pub use position::spec_position_from_provider;
pub use position::spec_to_backend;
pub use position::spec_to_client;
pub use position::to_backend_convention;
pub use position::to_client_convention;
pub use reconcile::is_success;
pub use reconcile::lemma_all_silent_is_not_found;
pub use reconcile::lemma_authoritative_wins;
pub use reconcile::lemma_heuristic_fallback;
pub use reconcile::reconcile;
pub use reconcile::spec_pick_heuristic;
pub use reconcile::spec_reconcile;
pub use reconcile::success_value;

verus! {

/// The default response-time budget, in milliseconds, that the
/// dispatcher waits for provider results.
pub const DEFAULT_BUDGET_MS: u64 = 500;

} // verus!
