//! Shape checks that precede the Mahalanobis distance and the χ²
//! same-agent test.
//!
//! The distance and the test themselves are floating-point computations
//! made by the caller once two fingerprints are known to be comparable.

use vstd::prelude::*;

use crate::error::FingerprintError;

verus! {

/// What comparing two fingerprints needs to know of each: its schema, its
/// dimension (the length of its mean vector) and the length of its
/// row-major covariance.
pub struct FingerprintShape {
    /// Schema identifier of the fingerprint.
    pub schema_id: String,
    /// Number of metrics (length of the mean vector).
    pub dimension: usize,
    /// Number of stored covariance entries.
    pub covariance_len: usize,
}

/// Checks that two fingerprints can be compared, returning their common
/// dimension `n`:
///
/// * different schemas: [`FingerprintError::SchemaMismatch`] naming the first
///   fingerprint's schema as expected and the second's as actual;
/// * different dimensions: [`FingerprintError::DimensionMismatch`]
///   `{ schema: n, observed: dimension of the second }`;
/// * a covariance that is not `n × n`:
///   [`FingerprintError::DimensionMismatch`]
///   `{ schema: n·n, observed: the smaller covariance length }`.
pub fn require_same_shape(f1: &FingerprintShape, f2: &FingerprintShape) -> (r: Result<usize, FingerprintError>)
    requires
        f1.dimension * f1.dimension <= usize::MAX,
    ensures
        f1.schema_id@ != f2.schema_id@ ==> (r matches Err(FingerprintError::SchemaMismatch { expected, actual })
            && expected@ == f1.schema_id@ && actual@ == f2.schema_id@),
        f1.schema_id@ == f2.schema_id@ && f1.dimension != f2.dimension ==> r == Err::<usize, FingerprintError>(
            FingerprintError::DimensionMismatch { schema: f1.dimension, observed: f2.dimension },
        ),
        f1.schema_id@ == f2.schema_id@ && f1.dimension == f2.dimension
            && (f1.covariance_len != f1.dimension * f1.dimension
                || f2.covariance_len != f1.dimension * f1.dimension) ==> r == Err::<usize, FingerprintError>(
            FingerprintError::DimensionMismatch {
                schema: (f1.dimension * f1.dimension) as usize,
                observed: if f1.covariance_len <= f2.covariance_len { f1.covariance_len } else { f2.covariance_len },
            },
        ),
        r is Ok <==> (f1.schema_id@ == f2.schema_id@ && f1.dimension == f2.dimension
            && f1.covariance_len == f1.dimension * f1.dimension
            && f2.covariance_len == f1.dimension * f1.dimension),
        r matches Ok(n) ==> n == f1.dimension,
{
    if f1.schema_id != f2.schema_id {
        return Err(FingerprintError::SchemaMismatch {
            expected: f1.schema_id.clone(),
            actual: f2.schema_id.clone(),
        });
    }
    let n = f1.dimension;
    if f2.dimension != n {
        return Err(FingerprintError::DimensionMismatch { schema: n, observed: f2.dimension });
    }
    let nn = n * n;
    if f1.covariance_len != nn || f2.covariance_len != nn {
        let observed = if f1.covariance_len <= f2.covariance_len {
            f1.covariance_len
        } else {
            f2.covariance_len
        };
        return Err(FingerprintError::DimensionMismatch { schema: nn, observed });
    }
    Ok(n)
}

} // verus!
