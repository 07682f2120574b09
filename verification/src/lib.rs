//! Agentic evaluation metrics and behavioral-fingerprint bookkeeping,
//! with their contracts proved by Verus.
//!
//! The numeric statistics of the project (means, covariances, divergences,
//! detectors) work on floating point and live outside this library; what
//! stands here is the exact, integer and byte-level logic around them.

pub mod calibration;
pub mod crypto;
pub mod cusum;
pub mod distance;
pub mod error;
pub mod estimation;
pub mod fingerprint;
pub mod metrics;
pub mod schema;
pub mod text;
pub mod trace;

pub use calibration::{recommended_sample_size, CONSERVATIVE_UNBOUNDED_KN};
pub use cusum::{alert_direction, DriftDirection};
pub use distance::{require_same_shape, FingerprintShape};
pub use error::FingerprintError;
pub use estimation::{probe_layout, validate_runs, RunShape};
pub use fingerprint::{
    content_hash_of_encoding, public_key_of, sign_content_hash, signing_message, verify_content_signature,
    HASH_DOMAIN,
};
pub use metrics::{
    audit_evidence_completeness, causal_coverage, controllability, decision_explainability,
    exact_replay_match, policy_adherence, provenance_coverage, trace_completeness, UnitRatio,
};
pub use schema::{FingerprintSchema, MetricId, MetricKind, MetricSpec};
pub use trace::{
    metrics_from_trace_v03, Agent, Check, Event, EventType, ExecutionGraph, GraphEdge, GraphNode,
    PolicyCheck, Provenance, TraceMetrics, TraceV03,
};
