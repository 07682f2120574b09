use agenomic::{require_same_shape, FingerprintError, FingerprintShape};

fn shape(schema: &str, n: usize, cov: usize) -> FingerprintShape {
    FingerprintShape { schema_id: schema.into(), dimension: n, covariance_len: cov }
}

#[test]
fn matching_shapes_yield_the_dimension() {
    assert_eq!(require_same_shape(&shape("s", 3, 9), &shape("s", 3, 9)).unwrap(), 3);
    assert_eq!(require_same_shape(&shape("s", 1, 1), &shape("s", 1, 1)).unwrap(), 1);
}

#[test]
fn schema_mismatch_names_both_schemas() {
    match require_same_shape(&shape("a", 3, 9), &shape("b", 3, 9)) {
        Err(FingerprintError::SchemaMismatch { expected, actual }) => {
            assert_eq!(expected, "a");
            assert_eq!(actual, "b");
        }
        other => panic!("expected SchemaMismatch, got {other:?}"),
    }
}

#[test]
fn dimension_and_covariance_mismatches() {
    assert!(matches!(
        require_same_shape(&shape("s", 3, 9), &shape("s", 2, 4)),
        Err(FingerprintError::DimensionMismatch { schema: 3, observed: 2 })
    ));
    assert!(matches!(
        require_same_shape(&shape("s", 3, 9), &shape("s", 3, 8)),
        Err(FingerprintError::DimensionMismatch { schema: 9, observed: 8 })
    ));
    assert!(matches!(
        require_same_shape(&shape("s", 2, 3), &shape("s", 2, 4)),
        Err(FingerprintError::DimensionMismatch { schema: 4, observed: 3 })
    ));
}
