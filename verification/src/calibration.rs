//! Sample-size recommendations per metric of a schema.
//!
//! The Hoeffding figure itself is computed on floating point by the
//! caller; this module decides, metric by metric, which sample size the
//! schema needs given that figure.

use vstd::prelude::*;

use crate::schema::{FingerprintSchema, MetricId, MetricKind};

verus! {

/// Conservative recommended sample size for unbounded metrics.
pub const CONSERVATIVE_UNBOUNDED_KN: usize = 1000;

/// The sample size recommended for one metric of the given kind when the
/// Hoeffding bound asks for `hoeffding` samples.
pub open spec fn recommended_for_kind(kind: MetricKind, hoeffding: usize) -> usize {
    match kind {
        MetricKind::Bounded01 => hoeffding,
        _ => if hoeffding < CONSERVATIVE_UNBOUNDED_KN { CONSERVATIVE_UNBOUNDED_KN } else { hoeffding },
    }
}

/// Recommends a sample size per metric of the given schema, given the
/// Hoeffding figure `hoeffding` for the target precision.
///
/// For [`MetricKind::Bounded01`] metrics the Hoeffding figure is used
/// directly. For all other kinds Hoeffding is not applicable, so
/// [`CONSERVATIVE_UNBOUNDED_KN`] is recommended, but never below the
/// Hoeffding figure (so a tighter precision keeps tightening the
/// recommendation).
pub fn recommended_sample_size(schema: &FingerprintSchema, hoeffding: usize) -> (recs: Vec<(MetricId, usize)>)
    ensures
        recs@.len() == schema.metrics@.len(),
        forall|i: int| 0 <= i < recs@.len() ==> {
            &&& (#[trigger] recs@[i]).0.0@ == schema.metrics@[i].id.0@
            &&& recs@[i].1 == recommended_for_kind(schema.metrics@[i].kind, hoeffding)
        },
{
    let mut recs: Vec<(MetricId, usize)> = Vec::new();
    let mut i: usize = 0;
    while i < schema.metrics.len()
        invariant
            i <= schema.metrics@.len(),
            recs@.len() == i,
            forall|j: int| 0 <= j < i ==> {
                &&& (#[trigger] recs@[j]).0.0@ == schema.metrics@[j].id.0@
                &&& recs@[j].1 == recommended_for_kind(schema.metrics@[j].kind, hoeffding)
            },
        decreases schema.metrics@.len() - i,
    {
        let m = &schema.metrics[i];
        let kn: usize = match m.kind {
            MetricKind::Bounded01 => hoeffding,
            _ => if hoeffding < CONSERVATIVE_UNBOUNDED_KN { CONSERVATIVE_UNBOUNDED_KN } else { hoeffding },
        };
        recs.push((m.id.duplicate(), kn));
        i = i + 1;
    }
    recs
}

/// Law: the recommendation for a metric never falls below the Hoeffding
/// figure, equals it for metrics in `[0, 1]`, is at least the conservative
/// default otherwise, and grows with the Hoeffding figure.
pub proof fn recommendation_bounds(kind: MetricKind, hoeffding: usize, tighter: usize)
    requires
        hoeffding <= tighter,
    ensures
        recommended_for_kind(kind, hoeffding) >= hoeffding,
        kind == MetricKind::Bounded01 ==> recommended_for_kind(kind, hoeffding) == hoeffding,
        kind != MetricKind::Bounded01 ==> recommended_for_kind(kind, hoeffding) >= CONSERVATIVE_UNBOUNDED_KN,
        recommended_for_kind(kind, hoeffding) <= recommended_for_kind(kind, tighter),
{
}

/// Law: for every kind other than [`MetricKind::Bounded01`] the
/// recommendation is the larger of the conservative default and the
/// Hoeffding figure: it reaches both, and it is one of them.
pub proof fn unbounded_recommendation_is_the_maximum(kind: MetricKind, hoeffding: usize)
    requires
        kind != MetricKind::Bounded01,
    ensures
        recommended_for_kind(kind, hoeffding) >= CONSERVATIVE_UNBOUNDED_KN,
        recommended_for_kind(kind, hoeffding) >= hoeffding,
        recommended_for_kind(kind, hoeffding) == CONSERVATIVE_UNBOUNDED_KN
            || recommended_for_kind(kind, hoeffding) == hoeffding,
        recommended_for_kind(kind, hoeffding) == 1000 <==> hoeffding <= 1000,
{
}

} // verus!
