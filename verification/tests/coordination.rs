use lscoord::Completion;
use lscoord::Convention;
use lscoord::DispatchOutcome;
use lscoord::Position;
use lscoord::ProviderIdentity;
use lscoord::ProviderOutcome;
use lscoord::ResponseEnvelope;
use lscoord::Span;
use lscoord::Symbol;
use lscoord::SymbolKind;
use lscoord::Title;
use lscoord::complete;
use lscoord::find_refs;
use lscoord::goto_def;
use lscoord::mark_timeouts;
use lscoord::outcome_of_call;
use lscoord::position_for_provider;
use lscoord::reconcile;
use lscoord::seal_outcome;
use lscoord::should_stop_waiting;
use lscoord::symbols;
use lscoord::title;
use lscoord::title_of_parts;
use lscoord::to_backend_convention;
use lscoord::to_client_convention;

fn pos(line: usize, col: usize) -> Position {
    Position { filepath: String::from("src/main.rs"), line, col }
}

fn span(start_line: usize) -> Span {
    Span {
        filepath: String::from("src/main.rs"),
        start_line,
        start_col: 0,
        end_line: start_line,
        end_col: 5,
    }
}

#[test]
fn round_trip_keeps_position() {
    let p = pos(5, 7);
    let r = to_client_convention(to_backend_convention(p.clone()));
    assert_eq!(r, p);
}

#[test]
fn backend_convention_increments_line_only() {
    let r = to_backend_convention(pos(0, 3));
    assert_eq!(r.line, 1);
    assert_eq!(r.col, 3);
    assert_eq!(r.filepath, "src/main.rs");
}

#[test]
fn client_convention_saturates_at_zero() {
    let r = to_client_convention(pos(0, 3));
    assert_eq!(r.line, 0);
    assert_eq!(r.col, 3);
}

#[test]
fn provider_position_untouched_for_zero_based() {
    let r = position_for_provider(pos(4, 2), Convention::ZeroBased);
    assert_eq!(r, pos(4, 2));
}

#[test]
fn provider_position_translated_for_one_based() {
    let r = position_for_provider(pos(4, 2), Convention::OneBased);
    assert_eq!(r, pos(5, 2));
}

#[test]
fn authoritative_success_wins_over_heuristic_success() {
    let auth = DispatchOutcome::Completed(ProviderOutcome::Success(1u64));
    let heuristics = vec![DispatchOutcome::Completed(ProviderOutcome::Success(2u64))];
    let r = reconcile(auth, heuristics);
    assert_eq!(r, ResponseEnvelope::Found(1, ProviderIdentity::Authoritative));
}

#[test]
fn first_heuristic_success_taken_when_authoritative_fails() {
    let auth = DispatchOutcome::Completed(ProviderOutcome::Failed(String::from("crash")));
    let heuristics = vec![
        DispatchOutcome::Completed(ProviderOutcome::Empty),
        DispatchOutcome::Completed(ProviderOutcome::Success(7u64)),
        DispatchOutcome::Completed(ProviderOutcome::Success(9u64)),
    ];
    let r = reconcile(auth, heuristics);
    assert_eq!(r, ResponseEnvelope::Found(7, ProviderIdentity::Heuristic));
}

#[test]
fn heuristic_success_taken_when_authoritative_times_out() {
    let auth: DispatchOutcome<u64> = DispatchOutcome::TimedOut;
    let heuristics = vec![DispatchOutcome::Completed(ProviderOutcome::Success(3u64))];
    let r = reconcile(auth, heuristics);
    assert_eq!(r, ResponseEnvelope::Found(3, ProviderIdentity::Heuristic));
}

#[test]
fn all_silent_is_not_found() {
    let auth: DispatchOutcome<u64> = DispatchOutcome::TimedOut;
    let heuristics = vec![
        DispatchOutcome::Completed(ProviderOutcome::Empty),
        DispatchOutcome::Completed(ProviderOutcome::Failed(String::from("panicked"))),
        DispatchOutcome::TimedOut,
    ];
    let r = reconcile(auth, heuristics);
    assert_eq!(r, ResponseEnvelope::NotFound);
}

#[test]
fn goto_def_authoritative_one_based_line_ten_answers_client_line_nine() {
    let auth = DispatchOutcome::Completed(ProviderOutcome::Success(pos(10, 4)));
    let r = goto_def(
        auth,
        Convention::OneBased,
        DispatchOutcome::TimedOut,
        Convention::OneBased,
    );
    assert_eq!(r, ResponseEnvelope::Found(pos(9, 4), ProviderIdentity::Authoritative));
}

#[test]
fn goto_def_falls_back_to_heuristic_when_authoritative_is_slow() {
    let heuristic = DispatchOutcome::Completed(ProviderOutcome::Success(pos(7, 1)));
    let r = goto_def(
        DispatchOutcome::TimedOut,
        Convention::OneBased,
        heuristic,
        Convention::OneBased,
    );
    assert_eq!(r, ResponseEnvelope::Found(pos(6, 1), ProviderIdentity::Heuristic));
}

#[test]
fn goto_def_zero_based_provider_passes_position_through() {
    let auth = DispatchOutcome::Completed(ProviderOutcome::Success(pos(10, 4)));
    let r = goto_def(
        auth,
        Convention::ZeroBased,
        DispatchOutcome::TimedOut,
        Convention::ZeroBased,
    );
    assert_eq!(r, ResponseEnvelope::Found(pos(10, 4), ProviderIdentity::Authoritative));
}

#[test]
fn goto_def_nothing_from_either_provider_is_not_found() {
    let r = goto_def(
        DispatchOutcome::Completed(ProviderOutcome::Empty),
        Convention::OneBased,
        DispatchOutcome::Completed(ProviderOutcome::Empty),
        Convention::OneBased,
    );
    assert_eq!(r, ResponseEnvelope::NotFound);
}

#[test]
fn call_with_value_classifies_as_success() {
    let r = outcome_of_call(Ok(Some(5u64)));
    assert_eq!(r, ProviderOutcome::Success(5));
}

#[test]
fn call_without_value_classifies_as_empty() {
    let r: ProviderOutcome<u64> = outcome_of_call(Ok(None));
    assert_eq!(r, ProviderOutcome::Empty);
}

#[test]
fn abnormal_termination_classifies_as_failed() {
    let r: ProviderOutcome<u64> = outcome_of_call(Err(String::from("provider panicked")));
    assert_eq!(r, ProviderOutcome::Failed(String::from("provider panicked")));
}

#[test]
fn waiting_stops_when_budget_expires() {
    assert!(should_stop_waiting(500, 500, 0, 2));
    assert!(should_stop_waiting(900, 500, 1, 2));
}

#[test]
fn waiting_stops_early_when_all_completed() {
    assert!(should_stop_waiting(10, 500, 2, 2));
}

#[test]
fn waiting_goes_on_inside_budget_with_results_pending() {
    assert!(!should_stop_waiting(499, 500, 1, 2));
}

#[test]
fn sealing_keeps_completed_outcomes_and_marks_absent_ones() {
    let done = seal_outcome(Some(ProviderOutcome::Success(4u64)));
    assert_eq!(done, DispatchOutcome::Completed(ProviderOutcome::Success(4)));
    let missing: DispatchOutcome<u64> = seal_outcome(None);
    assert_eq!(missing, DispatchOutcome::TimedOut);
}

#[test]
fn mark_timeouts_keeps_identities_and_order() {
    let reports = vec![
        (ProviderIdentity::Authoritative, None),
        (ProviderIdentity::Heuristic, Some(ProviderOutcome::Success(8u64))),
    ];
    let sealed = mark_timeouts(reports);
    assert_eq!(sealed.len(), 2);
    assert_eq!(sealed[0], (ProviderIdentity::Authoritative, DispatchOutcome::TimedOut));
    assert_eq!(
        sealed[1],
        (ProviderIdentity::Heuristic, DispatchOutcome::Completed(ProviderOutcome::Success(8))),
    );
}

#[test]
fn title_parts_fill_absent_fields_with_empty_strings() {
    let t = title_of_parts(Some(String::from("u64")), None, None);
    assert_eq!(t.ty, "u64");
    assert_eq!(t.docs, "");
    assert_eq!(t.doc_url, "");
}

#[test]
fn title_present_only_when_provider_succeeded_in_time() {
    let t = Title {
        ty: String::from("u64"),
        docs: String::from("a number"),
        doc_url: String::from(""),
    };
    assert_eq!(title(DispatchOutcome::Completed(ProviderOutcome::Success(t.clone()))), Some(t));
    let timed_out: Option<Title> = title(DispatchOutcome::TimedOut);
    assert_eq!(timed_out, None);
    let empty: Option<Title> = title(DispatchOutcome::Completed(ProviderOutcome::Empty));
    assert_eq!(empty, None);
}

#[test]
fn find_refs_passes_successful_spans_through() {
    let spans = vec![span(1), span(4)];
    let r = find_refs(DispatchOutcome::Completed(ProviderOutcome::Success(spans.clone())));
    assert_eq!(r, spans);
}

#[test]
fn find_refs_is_empty_on_timeout_or_failure() {
    let timed_out: Vec<Span> = find_refs(DispatchOutcome::TimedOut);
    assert!(timed_out.is_empty());
    let failed: Vec<Span> = find_refs(DispatchOutcome::Completed(ProviderOutcome::Failed(
        String::from("no analysis data"),
    )));
    assert!(failed.is_empty());
}

#[test]
fn symbols_pass_through_or_collapse_to_empty() {
    let syms = vec![Symbol {
        name: String::from("main"),
        kind: SymbolKind::Function,
        span: span(0),
    }];
    let r = symbols(DispatchOutcome::Completed(ProviderOutcome::Success(syms.clone())));
    assert_eq!(r, syms);
    let none: Vec<Symbol> = symbols(DispatchOutcome::TimedOut);
    assert!(none.is_empty());
}

#[test]
fn completions_pass_through_or_collapse_to_empty() {
    let items = vec![Completion {
        name: String::from("push"),
        context: String::from("fn push(&mut self, value: T)"),
    }];
    let r = complete(ProviderOutcome::Success(items.clone()));
    assert_eq!(r, items);
    let crashed: Vec<Completion> = complete(ProviderOutcome::Failed(String::from("panicked")));
    assert!(crashed.is_empty());
}
