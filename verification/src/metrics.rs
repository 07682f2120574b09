//! Exact (integer) forms of the agentic evaluation metrics.
//!
//! Completeness, coverage and adherence metrics are ratios of counts. They
//! are returned here as a [`UnitRatio`], whose value
//! `numerator / denominator` lies in `[0, 1]`:
//!
//! * an empty denominator is *vacuously perfect* (`1 / 1`);
//! * a numerator larger than its denominator (malformed input) is clamped
//!   to `1` (`denominator / denominator`).

use vstd::prelude::*;

use crate::text::str_eq;
use vstd::laws_eq::obeys_concrete_eq;
use vstd::std_specs::cmp::PartialEqSpec;

verus! {

/// A ratio of two counts whose value lies in `[0, 1]`.
#[derive(Clone, Copy, Debug, PartialEq, Eq, Structural)]
pub struct UnitRatio {
    /// The counted part.
    pub numerator: u128,
    /// The whole; never zero.
    pub denominator: u128,
}

impl UnitRatio {
    /// The ratio's value lies in `[0, 1]` and its denominator is not zero.
    pub open spec fn is_unit(&self) -> bool {
        self.numerator <= self.denominator && self.denominator > 0
    }

    /// The ratio has the value `1`.
    pub open spec fn is_one(&self) -> bool {
        self.numerator == self.denominator
    }
}

/// `r` is the coverage ratio `num / den` clamped to `[0, 1]`, with the
/// vacuous `1 / 1` when `den` is zero.
pub open spec fn is_coverage_of(r: UnitRatio, num: int, den: int) -> bool {
    if den <= 0 {
        r.numerator == 1 && r.denominator == 1
    } else if num > den {
        r.numerator == den && r.denominator == den
    } else {
        r.numerator == num && r.denominator == den
    }
}

/// `numerator / denominator` clamped to `[0, 1]`, with a vacuous `1` when
/// the denominator is zero.
pub fn coverage_ratio(numerator: u128, denominator: u128) -> (r: UnitRatio)
    ensures
        is_coverage_of(r, numerator as int, denominator as int),
        r.is_unit(),
{
    if denominator == 0 {
        UnitRatio { numerator: 1, denominator: 1 }
    } else if numerator > denominator {
        UnitRatio { numerator: denominator, denominator }
    } else {
        UnitRatio { numerator, denominator }
    }
}

/// Law: every coverage ratio lies in `[0, 1]`; it is `1` when there is
/// nothing to measure or when every item is counted, and it is `0` exactly
/// when nothing is counted out of a non-empty whole.
pub proof fn coverage_ratio_laws(r: UnitRatio, num: nat, den: nat)
    requires
        is_coverage_of(r, num as int, den as int),
    ensures
        r.is_unit(),
        den == 0 ==> r.is_one(),
        num >= den ==> r.is_one(),
        r.numerator == 0 <==> (num == 0 && den > 0),
        0 < den && num <= den ==> r.numerator * den == num * r.denominator,
{
}

/// **Exact Replay Match.**
///
/// Exact replay is a boolean equality of hashes, never a continuous score.
/// Two absent (empty) hashes never match, so an unrecorded replay can never
/// be reported as a verified exact reproduction.
pub fn exact_replay_match(hash_a: &str, hash_b: &str) -> (r: bool)
    ensures
        r == (hash_a@.len() > 0 && hash_a@ == hash_b@),
{
    !hash_a.is_empty() && str_eq(hash_a, hash_b)
}

/// Law: exact replay matching is symmetric.
pub proof fn exact_replay_match_is_symmetric(a: Seq<char>, b: Seq<char>)
    ensures
        (a.len() > 0 && a == b) == (b.len() > 0 && b == a),
{
}

/// The distinct items that `expected` requires.
pub open spec fn required_types<T>(expected: Seq<T>) -> Set<T> {
    expected.to_set()
}

/// The distinct required items that `captured` contains.
pub open spec fn present_types<T>(captured: Seq<T>, expected: Seq<T>) -> Set<T> {
    expected.to_set().filter(|t: T| captured.contains(t))
}

/// **Trace Completeness Score (TCS).**
///
/// `TCS = |captured ∩ required| / |required|`, computed over the *distinct*
/// required items (in practice event types). An empty `expected` set is
/// vacuously complete. The item type's `==` must be its structural
/// equality, as a derived `PartialEq` is.
pub fn trace_completeness<T: PartialEq>(captured: &[T], expected: &[T]) -> (r: UnitRatio)
    requires
        obeys_concrete_eq::<T>(),
    ensures
        is_coverage_of(
            r,
            present_types(captured@, expected@).len() as int,
            required_types(expected@).len() as int,
        ),
        r.is_unit(),
{
    // Distinct required items seen so far, and how many of them were captured.
    let mut required: Vec<&T> = Vec::new();
    let ghost mut req: Seq<T> = Seq::empty();
    let ghost mut present: Seq<T> = Seq::empty();
    let mut n_present: usize = 0;
    let mut i: usize = 0;
    while i < expected.len()
        invariant
            obeys_concrete_eq::<T>(),
            i <= expected@.len(),
            req =~= required@.map_values(|r: &T| *r),
            req.no_duplicates(),
            present.no_duplicates(),
            req.to_set() =~= expected@.take(i as int).to_set(),
            present.to_set() =~= expected@.take(i as int).to_set().filter(
                |t: T| captured@.contains(t),
            ),
            req.len() <= i,
            present.len() <= req.len(),
            n_present == present.len(),
        decreases expected@.len() - i,
    {
        let t = &expected[i];
        proof {
            expected@.lemma_take_succ_push(i as int);
            expected@.take(i as int).lemma_push_to_set_commute(*t);
        }
        if !contains_item(required.as_slice(), t) {
            let was_captured = contains_item_ref(captured, t);
            proof {
                req.lemma_push_to_set_commute(*t);
                assert(!present.contains(*t)) by {
                    if present.contains(*t) {
                        assert(present.to_set().contains(*t));
                    }
                }
            }
            required.push(t);
            proof {
                req = req.push(*t);
            }
            if was_captured {
                proof {
                    present.lemma_push_to_set_commute(*t);
                    present = present.push(*t);
                }
                n_present = n_present + 1;
            }
        }
        i = i + 1;
    }
    proof {
        assert(expected@.take(expected@.len() as int) =~= expected@);
        req.unique_seq_to_set();
        present.unique_seq_to_set();
    }
    coverage_ratio(n_present as u128, required.len() as u128)
}

/// Whether the references in `s` include one to an item equal to `t`.
fn contains_item<T: PartialEq>(s: &[&T], t: &T) -> (r: bool)
    requires
        obeys_concrete_eq::<T>(),
    ensures
        r == s@.map_values(|x: &T| *x).contains(*t),
{
    proof {
        reveal(obeys_concrete_eq);
    }
    let mut i: usize = 0;
    while i < s.len()
        invariant
            obeys_concrete_eq::<T>(),
            T::obeys_eq_spec(),
            forall|x: T, y: T| x.eq_spec(&y) <==> (x == y),
            i <= s@.len(),
            forall|j: int| 0 <= j < i ==> *s@[j] != *t,
        decreases s@.len() - i,
    {
        if s[i].eq(t) {
            proof {
                assert(s@.map_values(|x: &T| *x)[i as int] == *t);
            }
            return true;
        }
        i = i + 1;
    }
    proof {
        assert forall|j: int| #![trigger s@[j]] 0 <= j < s@.len() implies s@.map_values(|x: &T| *x)[j] != *t by {}
    }
    false
}

/// Whether `s` holds an item equal to `t`.
fn contains_item_ref<T: PartialEq>(s: &[T], t: &T) -> (r: bool)
    requires
        obeys_concrete_eq::<T>(),
    ensures
        r == s@.contains(*t),
{
    proof {
        reveal(obeys_concrete_eq);
    }
    let mut i: usize = 0;
    while i < s.len()
        invariant
            T::obeys_eq_spec(),
            forall|x: T, y: T| x.eq_spec(&y) <==> (x == y),
            i <= s@.len(),
            forall|j: int| 0 <= j < i ==> s@[j] != *t,
        decreases s@.len() - i,
    {
        if s[i].eq(t) {
            proof {
                assert(s@[i as int] == *t);
            }
            return true;
        }
        i = i + 1;
    }
    false
}

/// Law: a trace that captures every required event type is complete.
pub proof fn trace_complete_when_all_required_captured<T>(captured: Seq<T>, expected: Seq<T>, r: UnitRatio)
    requires
        forall|j: int| 0 <= j < expected.len() ==> captured.contains(#[trigger] expected[j]),
        is_coverage_of(r, present_types(captured, expected).len() as int, required_types(expected).len() as int),
    ensures
        r.is_one(),
{
    assert(present_types(captured, expected) =~= required_types(expected)) by {
        assert forall|t: T| #[trigger] required_types(expected).contains(t) implies captured.contains(t) by {
            let k = choose|k: int| 0 <= k < expected.len() && expected[k] == t;
        }
    }
}

/// Law: the required items are the items that `expected` lists, and the
/// present ones are those that `captured` lists as well.
pub proof fn completeness_counts_listed_items<T>(captured: Seq<T>, expected: Seq<T>, t: T)
    ensures
        required_types(expected).contains(t) <==> expected.contains(t),
        present_types(captured, expected).contains(t) <==> (expected.contains(t) && captured.contains(t)),
        present_types(captured, expected).len() <= required_types(expected).len(),
{
    let req = required_types(expected);
    expected.lemma_cardinality_of_set();
    assert(present_types(captured, expected).subset_of(req));
    vstd::set_lib::lemma_len_subset(present_types(captured, expected), req);
}

/// **Policy Adherence Score (PAS)**, unweighted: the fraction of applicable
/// rules that passed. With no applicable rules adherence is vacuously total.
pub fn policy_adherence(passed: usize, total: usize) -> (r: UnitRatio)
    ensures
        is_coverage_of(r, passed as int, total as int),
        r.is_unit(),
{
    coverage_ratio(passed as u128, total as u128)
}

/// **Decision Explainability Score (DES)**: the fraction of decisions that
/// carry provenance. Vacuously `1` when there are no decisions.
pub fn decision_explainability(decisions_with_provenance: usize, total_decisions: usize) -> (r: UnitRatio)
    ensures
        is_coverage_of(r, decisions_with_provenance as int, total_decisions as int),
        r.is_unit(),
{
    coverage_ratio(decisions_with_provenance as u128, total_decisions as u128)
}

/// **Audit Evidence Completeness (AEC)**: available required evidence over
/// required evidence. Vacuously `1` when no evidence is required.
pub fn audit_evidence_completeness(available: usize, required: usize) -> (r: UnitRatio)
    ensures
        is_coverage_of(r, available as int, required as int),
        r.is_unit(),
{
    coverage_ratio(available as u128, required as u128)
}

/// **Controllability Score**: respected interruptions, overrides and
/// constraints over all control signals. Vacuously `1` when there were no
/// control signals to honor.
pub fn controllability(
    interruptions_respected: usize,
    overrides_respected: usize,
    constraints_respected: usize,
    total_control_signals: usize,
) -> (r: UnitRatio)
    ensures
        is_coverage_of(
            r,
            interruptions_respected + overrides_respected + constraints_respected,
            total_control_signals as int,
        ),
        r.is_unit(),
{
    let respected = interruptions_respected as u128 + overrides_respected as u128
        + constraints_respected as u128;
    coverage_ratio(respected, total_control_signals as u128)
}

/// **Causal Coverage**: the fraction of non-root events that carry an
/// explicit recorded parent link. Vacuously `1` when every event is a root.
pub fn causal_coverage(events_with_parent_links: usize, non_root_events: usize) -> (r: UnitRatio)
    ensures
        is_coverage_of(r, events_with_parent_links as int, non_root_events as int),
        r.is_unit(),
{
    coverage_ratio(events_with_parent_links as u128, non_root_events as u128)
}

/// **Provenance Coverage**: the fraction of asserted claims that cite
/// supporting evidence. Vacuously `1` when there are no claims.
pub fn provenance_coverage(claims_with_support: usize, total_claims: usize) -> (r: UnitRatio)
    ensures
        is_coverage_of(r, claims_with_support as int, total_claims as int),
        r.is_unit(),
{
    coverage_ratio(claims_with_support as u128, total_claims as u128)
}

} // verus!
