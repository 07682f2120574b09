//! Validation of a batch of run results and the probe layout of a
//! fingerprint.
//!
//! The empirical mean and covariance are floating-point computations made by
//! the caller; this module decides whether a batch of runs may be estimated
//! at all, with which error otherwise, and how many distinct probes and
//! replays per probe it holds.

use vstd::prelude::*;
use vstd::string::StringExecFns;

use crate::error::FingerprintError;
use crate::text::{decimal, push_decimal};

verus! {

/// What validation needs to know of one run's metric vector: its length,
/// and the index of its first value that is `NaN` or infinite, if any.
#[derive(Clone, Copy, Debug, PartialEq, Eq, Structural)]
pub struct RunShape {
    /// Number of metric values in the run.
    pub len: usize,
    /// Index of the first non-finite metric value, if any.
    pub first_non_finite: Option<usize>,
}

impl RunShape {
    /// The run has the schema's dimension and only finite values.
    pub open spec fn is_valid_for(&self, dimension: usize) -> bool {
        self.len == dimension && self.first_non_finite is None
    }
}

/// The field name reported for the non-finite metric value at `index`:
/// `metric_values[<index>]`.
pub open spec fn metric_field_name(index: nat) -> Seq<char> {
    "metric_values["@ + decimal(index) + "]"@
}

/// The error that validation reports for the first invalid run `run`.
pub open spec fn run_error(dimension: usize, run: RunShape, e: FingerprintError) -> bool {
    if run.len != dimension {
        e == FingerprintError::DimensionMismatch { schema: dimension, observed: run.len }
    } else {
        match run.first_non_finite {
            Some(i) => e matches FingerprintError::InvalidValue { field } && field@ == metric_field_name(i as nat),
            None => false,
        }
    }
}

/// Law: a run of the wrong length is reported with the schema's dimension as
/// `schema` and the run's own length as `observed`; a run of the right
/// length is reported only for a non-finite value, named by its index as
/// `metric_values[<index>]`; a valid run is never reported.
pub proof fn run_error_reports_the_offending_run(dimension: usize, run: RunShape, e: FingerprintError)
    requires
        run_error(dimension, run, e),
    ensures
        e matches FingerprintError::DimensionMismatch { schema, observed } ==> (schema == dimension
            && observed == run.len && observed != dimension),
        e matches FingerprintError::InvalidValue { field } ==> (run.len == dimension
            && (run.first_non_finite matches Some(i) && field@ == "metric_values["@ + decimal(i as nat) + "]"@)),
        e is DimensionMismatch || e is InvalidValue,
        !run.is_valid_for(dimension),
{
}

/// Validates the shapes of a batch of runs against a schema of `dimension`
/// metrics, in the order estimation checks them:
///
/// * fewer than two runs: [`FingerprintError::InsufficientSamples`];
/// * an empty schema: [`FingerprintError::DimensionMismatch`] `{ 0, 0 }`;
/// * otherwise, run by run, a run of the wrong length is a
///   [`FingerprintError::DimensionMismatch`], and a run holding a `NaN` or
///   infinite value is a [`FingerprintError::InvalidValue`] naming the
///   first such value.
pub fn validate_runs(dimension: usize, runs: &Vec<RunShape>) -> (r: Result<(), FingerprintError>)
    ensures
        runs@.len() < 2 ==> (r matches Err(FingerprintError::InsufficientSamples(n)) && n == runs@.len()),
        runs@.len() >= 2 && dimension == 0 ==> r == Err::<(), FingerprintError>(
            FingerprintError::DimensionMismatch { schema: 0, observed: 0 },
        ),
        runs@.len() >= 2 && dimension > 0 ==> match r {
            Ok(()) => forall|k: int| 0 <= k < runs@.len() ==> (#[trigger] runs@[k]).is_valid_for(dimension),
            Err(e) => exists|k: int|
                0 <= k < runs@.len() && !(#[trigger] runs@[k]).is_valid_for(dimension)
                    && (forall|m: int| 0 <= m < k ==> runs@[m].is_valid_for(dimension))
                    && run_error(dimension, runs@[k], e),
        },
{
    let kn = runs.len();
    if kn < 2 {
        return Err(FingerprintError::InsufficientSamples(kn));
    }
    if dimension == 0 {
        return Err(FingerprintError::DimensionMismatch { schema: 0, observed: 0 });
    }
    let mut k: usize = 0;
    while k < kn
        invariant
            kn == runs@.len(),
            kn >= 2,
            dimension > 0,
            k <= kn,
            forall|m: int| 0 <= m < k ==> (#[trigger] runs@[m]).is_valid_for(dimension),
        decreases kn - k,
    {
        let run = runs[k];
        if run.len != dimension {
            let e = FingerprintError::DimensionMismatch { schema: dimension, observed: run.len };
            proof {
                assert(run_error(dimension, runs@[k as int], e));
            }
            return Err(e);
        }
        match run.first_non_finite {
            Some(i) => {
                let mut field = String::from_str("metric_values[");
                push_decimal(&mut field, i);
                field.append("]");
                let e = FingerprintError::InvalidValue { field };
                proof {
                    assert(run_error(dimension, runs@[k as int], e));
                }
                return Err(e);
            },
            None => {},
        }
        k = k + 1;
    }
    Ok(())
}

/// The distinct probe identifiers of a batch of runs.
pub open spec fn distinct_probes(probe_ids: Seq<String>) -> Set<Seq<char>> {
    probe_ids.map_values(|s: String| s@).to_set()
}

/// Law: the distinct probes are exactly the identifiers that some run
/// carries, and there are never more of them than runs.
pub proof fn distinct_probes_are_the_listed_ids(probe_ids: Seq<String>, s: Seq<char>)
    ensures
        distinct_probes(probe_ids).contains(s) <==> exists|i: int| 0 <= i < probe_ids.len() && (#[trigger] probe_ids[i])@ == s,
        distinct_probes(probe_ids).len() <= probe_ids.len(),
{
    let ids = probe_ids.map_values(|x: String| x@);
    ids.lemma_cardinality_of_set();
    if distinct_probes(probe_ids).contains(s) {
        let i = choose|i: int| 0 <= i < ids.len() && ids[i] == s;
        assert(probe_ids[i]@ == s);
    }
    if exists|i: int| 0 <= i < probe_ids.len() && (#[trigger] probe_ids[i])@ == s {
        let i = choose|i: int| 0 <= i < probe_ids.len() && (#[trigger] probe_ids[i])@ == s;
        assert(ids[i] == s);
        assert(ids.contains(s));
    }
}

/// Number of replays per probe: runs over distinct probes, rounded down
/// (zero when there are no probes).
pub open spec fn replays_per_probe(runs: nat, probes: nat) -> nat {
    if probes == 0 {
        0
    } else {
        runs / probes
    }
}

/// Counts the distinct probes of a batch of runs, given each run's probe
/// identifier, and the number of replays per probe.
pub fn probe_layout(probe_ids: &Vec<String>) -> (r: (usize, usize))
    ensures
        r.0 == distinct_probes(probe_ids@).len(),
        r.1 == replays_per_probe(probe_ids@.len(), r.0 as nat),
        r.0 <= probe_ids@.len(),
        probe_ids@.len() > 0 ==> r.0 > 0,
        r.0 > 0 ==> r.1 * r.0 <= probe_ids@.len() < (r.1 + 1) * r.0,
        r.0 == 0 ==> r.1 == 0,
{
    let ghost ids = probe_ids@.map_values(|s: String| s@);
    let ghost mut firsts: Seq<Seq<char>> = Seq::empty();
    let mut count: usize = 0;
    let mut i: usize = 0;
    while i < probe_ids.len()
        invariant
            i <= probe_ids@.len(),
            ids == probe_ids@.map_values(|s: String| s@),
            firsts.no_duplicates(),
            firsts.to_set() =~= ids.take(i as int).to_set(),
            count == firsts.len(),
            count <= i,
        decreases probe_ids@.len() - i,
    {
        let mut seen = false;
        let mut j: usize = 0;
        while j < i
            invariant
                j <= i < probe_ids@.len(),
                ids == probe_ids@.map_values(|s: String| s@),
                seen <==> exists|m: int| 0 <= m < j && ids[m] == ids[i as int],
            decreases i - j,
        {
            proof {
                assert(ids[j as int] == probe_ids@[j as int]@);
                assert(ids[i as int] == probe_ids@[i as int]@);
            }
            if probe_ids[j] == probe_ids[i] {
                seen = true;
            }
            j = j + 1;
        }
        proof {
            ids.lemma_take_succ_push(i as int);
            ids.take(i as int).lemma_push_to_set_commute(ids[i as int]);
            if seen {
                let m = choose|m: int| 0 <= m < i && ids[m] == ids[i as int];
                assert(ids.take(i as int)[m] == ids[i as int]);
                assert(ids.take(i as int).to_set().contains(ids[i as int]));
                assert(ids.take(i as int).to_set().insert(ids[i as int]) =~= ids.take(i as int).to_set());
            } else {
                assert(!firsts.contains(ids[i as int])) by {
                    if firsts.contains(ids[i as int]) {
                        assert(firsts.to_set().contains(ids[i as int]));
                        assert(ids.take(i as int).contains(ids[i as int]));
                        let m = choose|m: int| 0 <= m < i && ids.take(i as int)[m] == ids[i as int];
                        assert(ids[m] == ids[i as int]);
                    }
                }
                firsts.lemma_push_to_set_commute(ids[i as int]);
                firsts = firsts.push(ids[i as int]);
            }
        }
        if !seen {
            count = count + 1;
        }
        i = i + 1;
    }
    proof {
        assert(ids.take(probe_ids@.len() as int) =~= ids);
        firsts.unique_seq_to_set();
        if probe_ids@.len() > 0 {
            assert(ids.to_set().contains(ids[0]));
            assert(firsts.to_set().contains(ids[0]));
        }
    }
    let per = if count == 0 {
        0
    } else {
        probe_ids.len() / count
    };
    proof {
        replays_per_probe_is_floor(probe_ids@.len(), count as nat);
    }
    (count, per)
}

/// Law: the number of replays per probe is the largest whole number of
/// complete rounds over the distinct probes that the runs cover:
/// `per · probes ≤ runs < (per + 1) · probes`, and zero without probes.
pub proof fn replays_per_probe_is_floor(runs: nat, probes: nat)
    ensures
        probes > 0 ==> replays_per_probe(runs, probes) * probes <= runs
            < (replays_per_probe(runs, probes) + 1) * probes,
        probes == 0 ==> replays_per_probe(runs, probes) == 0,
{
    if probes > 0 {
        let q = replays_per_probe(runs, probes);
        vstd::arithmetic::div_mod::lemma_fundamental_div_mod(runs as int, probes as int);
        assert(q * probes <= runs < (q + 1) * probes) by (nonlinear_arith)
            requires
                q == runs / probes,
                runs == probes * (runs / probes) + runs % probes,
                0 <= runs % probes < probes,
                probes > 0;
    }
}

} // verus!
