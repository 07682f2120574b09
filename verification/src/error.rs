//! Errors of fingerprint estimation, comparison, calibration, drift
//! detection and signing.

use vstd::prelude::*;

verus! {

/// Errors produced by fingerprint estimation, comparison, calibration,
/// drift detection and signing.
#[derive(Debug)]
pub enum FingerprintError {
    /// The schema attached to a fingerprint does not match the one expected
    /// by the caller.
    SchemaMismatch {
        /// Schema id expected by the caller.
        expected: String,
        /// Schema id actually present.
        actual: String,
    },
    /// A vector or matrix has the wrong number of metrics.
    DimensionMismatch {
        /// Number of metrics defined in the schema.
        schema: usize,
        /// Number of metrics actually observed.
        observed: usize,
    },
    /// A value was `NaN` or `±Inf` where it must be finite.
    InvalidValue {
        /// Human-readable field name.
        field: String,
    },
    /// At least two runs are required to estimate a covariance.
    InsufficientSamples(usize),
    /// The covariance matrix could not be inverted.
    SingularCovariance,
    /// CBOR (de)serialization failure.
    Cbor(String),
    /// ed25519 signature creation or verification failure.
    Signature(String),
    /// A statistical-distribution constructor rejected its arguments.
    Statistics(String),
    /// A numeric calibration routine failed to converge.
    Calibration(String),
}

} // verus!
