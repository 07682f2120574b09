use agenomic::{probe_layout, validate_runs, FingerprintError, RunShape};

fn ok(len: usize) -> RunShape {
    RunShape { len, first_non_finite: None }
}

#[test]
fn dimension_mismatch_is_reported_with_sizes() {
    let runs = vec![ok(2), ok(1)];
    match validate_runs(2, &runs) {
        Err(FingerprintError::DimensionMismatch { schema, observed }) => {
            assert_eq!(schema, 2);
            assert_eq!(observed, 1);
        }
        other => panic!("expected DimensionMismatch, got {other:?}"),
    }
}

#[test]
fn non_finite_value_is_reported_with_its_index() {
    let runs = vec![ok(1), RunShape { len: 1, first_non_finite: Some(0) }];
    match validate_runs(1, &runs) {
        Err(FingerprintError::InvalidValue { field }) => assert_eq!(field, "metric_values[0]"),
        other => panic!("expected InvalidValue, got {other:?}"),
    }
    let runs = vec![ok(12), RunShape { len: 12, first_non_finite: Some(10) }];
    match validate_runs(12, &runs) {
        Err(FingerprintError::InvalidValue { field }) => assert_eq!(field, "metric_values[10]"),
        other => panic!("expected InvalidValue, got {other:?}"),
    }
}

#[test]
fn fewer_than_two_runs_are_insufficient() {
    assert!(matches!(validate_runs(1, &vec![ok(1)]), Err(FingerprintError::InsufficientSamples(1))));
    assert!(matches!(validate_runs(1, &vec![]), Err(FingerprintError::InsufficientSamples(0))));
}

#[test]
fn empty_schema_is_a_dimension_mismatch() {
    assert!(matches!(
        validate_runs(0, &vec![ok(0), ok(0)]),
        Err(FingerprintError::DimensionMismatch { schema: 0, observed: 0 })
    ));
}

#[test]
fn runs_are_checked_in_order() {
    // The first run's non-finite value is found before the second run's length.
    let runs = vec![RunShape { len: 2, first_non_finite: Some(1) }, ok(3)];
    assert!(matches!(validate_runs(2, &runs), Err(FingerprintError::InvalidValue { .. })));
    let runs = vec![ok(3), RunShape { len: 2, first_non_finite: Some(1) }];
    assert!(matches!(
        validate_runs(2, &runs),
        Err(FingerprintError::DimensionMismatch { schema: 2, observed: 3 })
    ));
    assert!(validate_runs(2, &vec![ok(2), ok(2), ok(2)]).is_ok());
}

#[test]
fn probe_layout_counts_distinct_probes() {
    let ids: Vec<String> = (0..1000).map(|i| format!("p-{}", i % 10)).collect();
    assert_eq!(probe_layout(&ids), (10, 100));
    let ids: Vec<String> = vec!["p".into(), "p".into()];
    assert_eq!(probe_layout(&ids), (1, 2));
    let ids: Vec<String> = vec!["a".into(), "b".into(), "a".into()];
    assert_eq!(probe_layout(&ids), (2, 1));
    assert_eq!(probe_layout(&vec![]), (0, 0));
}
