use agenomic::{
    audit_evidence_completeness, causal_coverage, controllability, decision_explainability,
    exact_replay_match, policy_adherence, provenance_coverage, trace_completeness, EventType,
    UnitRatio,
};
use EventType::{Decision, RunCompleted, RunStarted, ToolCallExecuted};

fn value(r: UnitRatio) -> f64 {
    r.numerator as f64 / r.denominator as f64
}

#[test]
fn exact_replay_is_boolean_hash_equality() {
    assert!(exact_replay_match("h", "h"));
    assert!(!exact_replay_match("h", "g"));
    assert!(!exact_replay_match("", ""));
}

#[test]
fn exact_replay_documented_examples() {
    assert!(exact_replay_match("blake3:ab", "blake3:ab"));
    assert!(!exact_replay_match("blake3:ab", "blake3:cd"));
    assert!(exact_replay_match("blake3-merkle-v1:abc", "blake3-merkle-v1:abc"));
    // Equal prefixes of different lengths do not match.
    assert!(!exact_replay_match("blake3:ab", "blake3:abc"));
    // Non-ASCII hashes compare by their text.
    assert!(exact_replay_match("é", "é"));
    assert!(!exact_replay_match("é", "e"));
}

#[test]
fn exact_replay_is_symmetric_on_examples() {
    for (a, b) in [("x", "x"), ("x", "y"), ("", "x"), ("x", "")] {
        assert_eq!(exact_replay_match(a, b), exact_replay_match(b, a));
    }
}

#[test]
fn tcs_is_one_when_all_required_present() {
    let required = [RunStarted, Decision, RunCompleted];
    let captured = [RunStarted, Decision, RunCompleted, ToolCallExecuted];
    assert_eq!(value(trace_completeness(&captured, &required)), 1.0);
}

#[test]
fn tcs_counts_distinct_required_only() {
    let required = [RunStarted, RunStarted, RunCompleted];
    let captured = [RunStarted];
    // distinct required = {RunStarted, RunCompleted}; 1 of 2 present.
    assert_eq!(value(trace_completeness(&captured, &required)), 0.5);
}

#[test]
fn tcs_documented_examples() {
    let required = [RunStarted, Decision, RunCompleted];
    let captured = [RunStarted, Decision, RunCompleted];
    assert_eq!(value(trace_completeness(&captured, &required)), 1.0);
    let partial = [RunStarted, RunCompleted];
    let r = trace_completeness(&partial, &required);
    assert_eq!((r.numerator, r.denominator), (2, 3));
    assert!((value(r) - 2.0 / 3.0).abs() < 1e-12);
}

#[test]
fn tcs_empty_expected_is_vacuously_complete() {
    let r = trace_completeness(&[RunStarted], &[]);
    assert_eq!((r.numerator, r.denominator), (1, 1));
    let r = trace_completeness(&[], &[RunStarted, RunCompleted]);
    assert_eq!((r.numerator, r.denominator), (0, 2));
}

#[test]
fn tcs_is_bounded_on_mixed_inputs() {
    let evts = [RunStarted, RunCompleted];
    for n_cap in 0..6usize {
        for n_exp in 0..6usize {
            let cap: Vec<EventType> = (0..n_cap).map(|i| evts[i % 2]).collect();
            let exp: Vec<EventType> = (0..n_exp).map(|i| evts[(i / 2) % 2]).collect();
            let r = trace_completeness(&cap, &exp);
            assert!(r.numerator <= r.denominator && r.denominator > 0);
        }
    }
}

#[test]
fn policy_adherence_examples() {
    assert_eq!(value(policy_adherence(49, 50)), 0.98);
    assert_eq!(value(policy_adherence(0, 0)), 1.0);
    assert_eq!(value(policy_adherence(0, 4)), 0.0);
}

#[test]
fn coverage_ratios_clamp_on_malformed_input() {
    // passed > total must never exceed 1.
    assert_eq!(value(policy_adherence(10, 5)), 1.0);
    assert_eq!(value(audit_evidence_completeness(10, 5)), 1.0);
    let r = policy_adherence(10, 5);
    assert_eq!((r.numerator, r.denominator), (5, 5));
}

#[test]
fn coverage_metrics_documented_examples() {
    assert_eq!(value(decision_explainability(9, 10)), 0.9);
    assert_eq!(value(decision_explainability(0, 0)), 1.0);
    assert!((value(audit_evidence_completeness(94, 100)) - 0.94).abs() < 1e-12);
    assert_eq!(value(controllability(3, 2, 5, 10)), 1.0);
    assert_eq!(value(controllability(1, 1, 1, 6)), 0.5);
    assert_eq!(value(controllability(0, 0, 0, 0)), 1.0);
    assert_eq!(value(causal_coverage(9, 10)), 0.9);
    assert_eq!(value(causal_coverage(0, 0)), 1.0);
    assert!((value(provenance_coverage(83, 100)) - 0.83).abs() < 1e-12);
    assert_eq!(value(provenance_coverage(0, 0)), 1.0);
}

#[test]
fn coverage_metrics_are_bounded() {
    for a in [0usize, 1, 7, 999] {
        for b in [0usize, 1, 7, 999] {
            for r in [
                decision_explainability(a, b),
                audit_evidence_completeness(a, b),
                causal_coverage(a, b),
                provenance_coverage(a, b),
                policy_adherence(a, b),
                controllability(a, b, a, b),
            ] {
                assert!(r.denominator > 0 && r.numerator <= r.denominator);
                assert!((0.0..=1.0).contains(&value(r)));
            }
        }
    }
}

#[test]
fn controllability_is_total_on_huge_counts() {
    let r = controllability(usize::MAX, usize::MAX, 1, 10);
    assert_eq!((r.numerator, r.denominator), (10, 10));
    let r = controllability(usize::MAX, usize::MAX, usize::MAX, usize::MAX);
    assert_eq!(value(r), 1.0);
    let r = controllability(usize::MAX, 0, 0, 0);
    assert_eq!((r.numerator, r.denominator), (1, 1));
}
