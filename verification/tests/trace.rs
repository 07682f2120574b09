use agenomic::trace::status_pass_fail_warn;
use agenomic::{
    metrics_from_trace_v03, Check, Event, EventType, GraphEdge, PolicyCheck, Provenance, TraceV03,
    UnitRatio,
};

fn value(r: UnitRatio) -> f64 {
    r.numerator as f64 / r.denominator as f64
}

fn event(id: &str, t: EventType) -> Event {
    Event { event_id: id.into(), event_type: t, ..Event::default() }
}

fn edge(from: &str, to: &str) -> GraphEdge {
    GraphEdge { from: from.into(), to: to.into(), edge_type: "caused_by".into() }
}

fn check(status: &str) -> Check {
    Check { status: Some(status.into()) }
}

fn cited(used: &[&str]) -> Option<Provenance> {
    Some(Provenance { used: used.iter().map(|s| s.to_string()).collect(), evidence_units: vec![] })
}

#[test]
fn baseline_expected_is_start_and_completion() {
    let b = EventType::baseline_expected();
    assert_eq!(b.len(), 2);
    assert_eq!(b, vec![EventType::RunStarted, EventType::RunCompleted]);
}

#[test]
fn wire_names_read_back() {
    assert_eq!(EventType::from_wire_name("run.started"), EventType::RunStarted);
    assert_eq!(EventType::from_wire_name("decision.made"), EventType::Decision);
    assert_eq!(EventType::from_wire_name("run.replay.completed"), EventType::RunReplayCompleted);
    assert_eq!(EventType::from_wire_name("totally.made.up"), EventType::Unknown);
    assert_eq!(EventType::from_wire_name(""), EventType::Unknown);
    assert_eq!(EventType::Decision.wire_name(), "decision.made");
    assert_eq!(EventType::Unknown.wire_name(), "");
    assert_eq!(EventType::default(), EventType::Unknown);
}

#[test]
fn status_classification() {
    assert_eq!(status_pass_fail_warn(Some("pass")), Some(true));
    assert_eq!(status_pass_fail_warn(Some("fail")), Some(false));
    assert_eq!(status_pass_fail_warn(Some("warning")), Some(false));
    assert_eq!(status_pass_fail_warn(Some("not_applicable")), None);
    assert_eq!(status_pass_fail_warn(Some("PASS")), None);
    assert_eq!(status_pass_fail_warn(None), None);
}

#[test]
fn event_types_in_order() {
    let trace = TraceV03 {
        events: vec![event("e1", EventType::RunStarted), event("e2", EventType::RunCompleted)],
        ..TraceV03::default()
    };
    assert_eq!(trace.event_types(), vec![EventType::RunStarted, EventType::RunCompleted]);
    assert_eq!(trace.events.len(), 2);
}

#[test]
fn empty_trace_is_well_behaved() {
    let trace = TraceV03::default();
    let report = metrics_from_trace_v03(&trace);
    // No run.started/run.completed captured → 0 of 2 required.
    assert_eq!(value(report.trace_completeness), 0.0);
    assert_eq!(report.policy_adherence, None);
    assert_eq!(report.causal_coverage, None);
}

#[test]
fn minimal_trace_with_compliance_pass() {
    let trace = TraceV03 {
        events: vec![event("e1", EventType::RunStarted), event("e2", EventType::RunCompleted)],
        compliance_checks: vec![check("pass")],
        ..TraceV03::default()
    };
    let report = metrics_from_trace_v03(&trace);
    assert_eq!(value(report.trace_completeness), 1.0);
    assert_eq!(report.compliance_confidence.map(value), Some(1.0));
}

/// A four-event trace: start, a policy-checked tool proposal, a model answer
/// citing the proposal, completion; the graph links e1→e2→e3 only.
fn rich_trace() -> TraceV03 {
    let mut proposal = event("evt_02", EventType::ToolCallProposed);
    proposal.policy_checks = vec![PolicyCheck { status: Some("pass".into()) }];
    let mut answer = event("evt_03", EventType::LlmResponded);
    answer.provenance = cited(&["evt_02"]);
    let mut trace = TraceV03 {
        run_id: "run_1".into(),
        events: vec![
            event("evt_01", EventType::RunStarted),
            proposal,
            answer,
            event("evt_04", EventType::RunCompleted),
        ],
        compliance_checks: vec![check("pass")],
        ..TraceV03::default()
    };
    trace.execution_graph.edges = vec![edge("evt_01", "evt_02"), edge("evt_02", "evt_03")];
    trace
}

#[test]
fn rich_trace_metrics() {
    let report = metrics_from_trace_v03(&rich_trace());
    // run.started + run.completed both present.
    assert_eq!(value(report.trace_completeness), 1.0);
    // evt_02 policy_check pass + compliance_check pass → 2/2.
    assert_eq!(report.policy_adherence.map(value), Some(1.0));
    // evt_03 (llm.responded) carries provenance → 1/1.
    assert_eq!(report.provenance_coverage.map(value), Some(1.0));
    // 4 events, evt_02 & evt_03 have incoming edges, evt_04 does not → 2/3.
    let cc = report.causal_coverage.unwrap();
    assert!((value(cc) - 2.0 / 3.0).abs() < 1e-12);
    // Single compliance pass.
    assert_eq!(report.compliance_confidence.map(value), Some(1.0));
    // No decisions, no human review.
    assert_eq!(report.decision_explainability, None);
    assert_eq!(report.controllability, None);
}

#[test]
fn decisions_reviews_and_graded_compliance() {
    let mut d1 = event("d1", EventType::Decision);
    d1.provenance = cited(&["x"]);
    let d2 = event("d2", EventType::Decision);
    let mut d3 = event("d3", EventType::Decision);
    d3.provenance = Some(Provenance::default());
    let mut failing = event("t1", EventType::ToolCallExecuted);
    failing.policy_checks = vec![
        PolicyCheck { status: Some("fail".into()) },
        PolicyCheck { status: Some("not_applicable".into()) },
        PolicyCheck { status: None },
        PolicyCheck { status: Some("pass".into()) },
        PolicyCheck { status: Some("warning".into()) },
    ];
    let trace = TraceV03 {
        events: vec![
            event("s", EventType::RunStarted),
            d1,
            d2,
            d3,
            failing,
            event("r1", EventType::HumanReviewRequested),
            event("r2", EventType::HumanReviewRequested),
            event("a1", EventType::HumanReviewApproved),
        ],
        compliance_checks: vec![check("pass"), check("warning"), check("fail"), check("other")],
        ..TraceV03::default()
    };
    let m = metrics_from_trace_v03(&trace);
    let tcs = m.trace_completeness;
    assert_eq!((tcs.numerator, tcs.denominator), (1, 2));
    let pas = m.policy_adherence.unwrap();
    // Inline: pass of {fail, pass, warning}; run-level: pass of {pass, warning, fail}.
    assert_eq!((pas.numerator, pas.denominator), (2, 6));
    let des = m.decision_explainability.unwrap();
    assert_eq!((des.numerator, des.denominator), (1, 3));
    let pc = m.provenance_coverage.unwrap();
    assert_eq!((pc.numerator, pc.denominator), (1, 3));
    let cc = m.compliance_confidence.unwrap();
    // (1 + 0.5 + 0) / 3 = 0.5
    assert_eq!(value(cc), 0.5);
    let ctl = m.controllability.unwrap();
    assert_eq!(value(ctl), 0.5);
    let causal = m.causal_coverage.unwrap();
    assert_eq!((causal.numerator, causal.denominator), (0, 7));
}

#[test]
fn single_event_trace_is_vacuously_causal() {
    let trace = TraceV03 { events: vec![event("only", EventType::RunStarted)], ..TraceV03::default() };
    let m = metrics_from_trace_v03(&trace);
    assert_eq!(m.causal_coverage.map(value), Some(1.0));
}

#[test]
fn every_wire_name_reads_back() {
    let all = [
        EventType::RunStarted,
        EventType::AgentLoaded,
        EventType::GenomeResolved,
        EventType::PromptLoaded,
        EventType::PolicyLoaded,
        EventType::MemoryRead,
        EventType::KnowledgeRetrieve,
        EventType::LlmRequested,
        EventType::LlmResponded,
        EventType::Decision,
        EventType::ToolCallProposed,
        EventType::PolicyCheckPerformed,
        EventType::ToolCallApproved,
        EventType::ToolCallExecuted,
        EventType::ToolResultObserved,
        EventType::MemoryWriteProposed,
        EventType::MemoryWriteCommitted,
        EventType::HumanReviewRequested,
        EventType::HumanReviewApproved,
        EventType::HumanReviewRejected,
        EventType::HumanReviewModified,
        EventType::RiskScoreUpdated,
        EventType::ComplianceCheckPerformed,
        EventType::AlignmentCheckPerformed,
        EventType::ErrorRaised,
        EventType::RunCompleted,
        EventType::RunReplayStarted,
        EventType::RunReplayCompleted,
        EventType::Unknown,
    ];
    for t in all {
        assert_eq!(EventType::from_wire_name(t.wire_name()), t);
    }
}
