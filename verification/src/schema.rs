//! Schema definitions for behavioral fingerprints.
//!
//! A [`FingerprintSchema`] is the canonical, ordered list of metrics measured
//! by a probe set. The order of [`MetricSpec`] entries is part of the schema
//! contract: it determines the index of each metric in every fingerprint
//! vector and covariance matrix.

use vstd::prelude::*;

verus! {

/// Identifier of a metric.
#[derive(Clone, Debug, PartialEq, Eq, Hash, Ord, PartialOrd)]
pub struct MetricId(pub String);

impl MetricId {
    /// Creates a new [`MetricId`] holding a copy of `s`.
    pub fn new(s: &str) -> (id: Self)
        ensures
            id.0@ == s@,
    {
        MetricId(s.to_owned())
    }

    /// A copy of this identifier with the same text.
    pub fn duplicate(&self) -> (id: Self)
        ensures
            id.0@ == self.0@,
    {
        MetricId(self.0.clone())
    }
}

/// Kind of a metric. Determines the statistical bounds applicable for
/// sample-size calibration.
#[derive(Clone, Copy, Debug, PartialEq, Eq, Structural, Hash)]
pub enum MetricKind {
    /// Metric in `[0, 1]` (rates, accuracy, etc.). Hoeffding's inequality
    /// applies.
    Bounded01,
    /// Latency in milliseconds, strictly positive.
    Latency,
    /// Cost in currency units, strictly positive.
    Cost,
    /// Arbitrary real-valued metric. No closed-form Hoeffding bound.
    Unbounded,
}

/// Specification of a single metric within a [`FingerprintSchema`].
#[derive(Clone, Debug)]
pub struct MetricSpec {
    /// Stable identifier of the metric.
    pub id: MetricId,
    /// Kind of the metric.
    pub kind: MetricKind,
    /// Whether higher values are considered better. Used by reporting tools.
    pub higher_is_better: bool,
    /// Free-form description, included in human-readable reports.
    pub description: String,
}

/// Ordered list of metrics measured by a canonical probe set.
#[derive(Clone, Debug)]
pub struct FingerprintSchema {
    /// Stable identifier (e.g. `"insurance-claims-canonical-v3"`).
    pub schema_id: String,
    /// Monotonically increasing version of the schema.
    pub version: u32,
    /// Ordered list of metrics. The position of a metric in this vector is
    /// its index in every fingerprint vector and covariance matrix.
    pub metrics: Vec<MetricSpec>,
}

impl FingerprintSchema {
    /// Number of metrics defined by the schema.
    pub fn dimension(&self) -> (n: usize)
        ensures
            n == self.metrics@.len(),
    {
        self.metrics.len()
    }

    /// Returns the index of the first metric whose identifier is `id`, or
    /// `None` if absent.
    pub fn index_of(&self, id: &MetricId) -> (r: Option<usize>)
        ensures
            match r {
                Some(i) => {
                    &&& i < self.metrics@.len()
                    &&& self.metrics@[i as int].id.0@ == id.0@
                    &&& forall|j: int| 0 <= j < i ==> self.metrics@[j].id.0@ != id.0@
                },
                None => forall|j: int|
                    0 <= j < self.metrics@.len() ==> self.metrics@[j].id.0@ != id.0@,
            },
    {
        let mut i: usize = 0;
        while i < self.metrics.len()
            invariant
                i <= self.metrics@.len(),
                forall|j: int| 0 <= j < i ==> self.metrics@[j].id.0@ != id.0@,
            decreases self.metrics@.len() - i,
        {
            if self.metrics[i].id.0 == id.0 {
                return Some(i);
            }
            i = i + 1;
        }
        None
    }
}

} // verus!
