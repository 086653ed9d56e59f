//! Health indicators and the aggregation of their results into one verdict.

use vstd::prelude::*;

pub mod check;

verus! {

/// Outcome of one indicator evaluation: the probe is either up or down.
#[derive(Clone, Copy, Debug, PartialEq, Eq, Structural)]
pub enum IndicatorStatus {
    Up,
    Down,
}

/// Result reported for one indicator: a status, and a failure reason when
/// the indicator is down.
#[derive(Debug)]
pub struct IndicatorResult {
    pub status: IndicatorStatus,
    pub message: Option<String>,
}

/// Mathematical value of an [`IndicatorResult`].
pub struct IndicatorResultView {
    pub status: IndicatorStatus,
    pub message: Option<Seq<char>>,
}

impl View for IndicatorResult {
    type V = IndicatorResultView;

    open spec fn view(&self) -> IndicatorResultView {
        IndicatorResultView {
            status: self.status,
            message: match self.message {
                Some(ref m) => Some(m@),
                None => None,
            },
        }
    }
}

/// The result an outcome is reported as: success is `Up` with no message,
/// failure is `Down` with the reason.
pub open spec fn spec_result_of(value: Result<(), String>) -> IndicatorResult {
    match value {
        Ok(()) => IndicatorResult { status: IndicatorStatus::Up, message: None },
        Err(m) => IndicatorResult { status: IndicatorStatus::Down, message: Some(m) },
    }
}

impl From<Result<(), String>> for IndicatorResult {
    /// Derives the reported result from a check outcome.
    fn from(value: Result<(), String>) -> (r: Self) {
        match value {
            Ok(()) => Self { status: IndicatorStatus::Up, message: None },
            Err(m) => Self { status: IndicatorStatus::Down, message: Some(m) },
        }
    }
}

impl vstd::std_specs::convert::FromSpecImpl<Result<(), String>> for IndicatorResult {
    open spec fn obeys_from_spec() -> bool {
        true
    }

    open spec fn from_spec(value: Result<(), String>) -> IndicatorResult {
        spec_result_of(value)
    }
}

} // verus!

use crate::assoc::{
    assoc_map, distinct_keys, lemma_assoc_map_dom, lemma_assoc_map_index,
    lemma_assoc_map_permutation, lemma_contains_transfer,
};

verus! {

/// Capability of a named health probe: report a fixed name, and evaluate to
/// success or a failure reason.
///
/// Implementations own whatever resource the probe inspects; evaluation must
/// terminate and must be safe to run concurrently with, and independently
/// of, every other indicator.
pub trait Indicator: Send + Sync {
    /// Name under which this indicator reports, as a mathematical value.
    spec fn spec_name(&self) -> Seq<char>;

    /// Name under which this indicator reports; unique within one
    /// aggregator.
    fn name(&self) -> (r: &str)
        ensures
            r@ == self.spec_name(),
    ;

    /// Evaluates the probe once: `Ok(())` when the probed resource is
    /// healthy, `Err(reason)` otherwise. An internal fault of the probe is
    /// reported as a reason, never as a panic.
    fn check(&self) -> Result<(), String>;
}

/// Overall verdict of one aggregator evaluation, and the HTTP status it is
/// served with: `Available` answers 200, `ServiceUnavailable` answers 503.
#[derive(Clone, Copy, Debug, PartialEq, Eq, Structural)]
pub enum OverallStatus {
    Available,
    ServiceUnavailable,
}

impl OverallStatus {
    /// Numeric HTTP status code for this verdict.
    pub fn code(&self) -> (r: u16)
        ensures
            *self is Available ==> r == 200,
            *self is ServiceUnavailable ==> r == 503,
    {
        match self {
            OverallStatus::Available => 200,
            OverallStatus::ServiceUnavailable => 503,
        }
    }
}

/// Name/result pairs produced by one evaluation, as mathematical values.
pub open spec fn results_view(s: Seq<(String, IndicatorResult)>) -> Seq<
    (Seq<char>, IndicatorResultView),
> {
    s.map_values(|p: (String, IndicatorResult)| (p.0@, p.1@))
}

/// Whether at least one of the results reports `Down`.
pub open spec fn spec_any_down(s: Seq<(Seq<char>, IndicatorResultView)>) -> bool {
    exists|i: int| 0 <= i < s.len() && s[i].1.status is Down
}

/// The overall status owed for a sequence of results: `ServiceUnavailable`
/// exactly when at least one result is `Down`, `Available` otherwise — in
/// particular for no results at all.
pub open spec fn spec_overall(s: Seq<(Seq<char>, IndicatorResultView)>) -> OverallStatus {
    if spec_any_down(s) {
        OverallStatus::ServiceUnavailable
    } else {
        OverallStatus::Available
    }
}

/// The names an indicator sequence reports under.
pub open spec fn spec_name_set<I: Indicator>(s: Seq<I>) -> Set<Seq<char>> {
    Set::new(|n: Seq<char>| exists|i: int| 0 <= i < s.len() && s[i].spec_name() == n)
}

/// The result is faithful to the indicator: it is the report of an outcome
/// that the indicator's own `check` contract admits. Where an indicator's
/// contract pins its outcomes down — as [`check::FixedIndicator`]'s does —
/// this pins the recorded status and message down with it.
pub open spec fn spec_admitted_result<I: Indicator>(ind: I, result: IndicatorResult) -> bool {
    exists|outcome: Result<(), String>|
        #[trigger] call_ensures(I::check, (&ind,), outcome) && result == spec_result_of(outcome)
}

/// Full outcome of evaluating one aggregator: the overall verdict together
/// with every indicator's named result.
pub struct AggregateVerdict {
    pub overall: OverallStatus,
    pub results: Vec<(String, IndicatorResult)>,
}

impl AggregateVerdict {
    /// The per-name result map this verdict denotes.
    pub open spec fn results_map(&self) -> Map<Seq<char>, IndicatorResultView> {
        assoc_map(results_view(self.results@))
    }
}

/// Reduces named indicator results to the full verdict. The reduction never
/// short-circuits: every result is kept, so the caller sees the complete
/// fault picture, and the overall status is `ServiceUnavailable` exactly
/// when some result is `Down`.
pub fn aggregate(results: Vec<(String, IndicatorResult)>) -> (v: AggregateVerdict)
    ensures
        v.results@ == results@,
        v.overall == spec_overall(results_view(results@)),
{
    let ghost rv = results_view(results@);
    let mut any_down = false;
    let n = results.len();
    let mut idx: usize = 0;
    while idx < n
        invariant
            idx <= n,
            n == results@.len(),
            rv == results_view(results@),
            any_down == spec_any_down(rv.take(idx as int)),
        decreases n - idx,
    {
        let down_here = matches!(results[idx].1.status, IndicatorStatus::Down);
        proof {
            assert(rv[idx as int].1 == results@[idx as int].1@);
            let prefix = rv.take(idx as int);
            let next = rv.take(idx + 1 as int);
            assert(prefix =~= next.take(idx as int));
            if down_here {
                assert(next[idx as int].1.status is Down);
            } else {
                assert forall|i: int| 0 <= i < next.len() && next[i].1.status is Down implies
                    spec_any_down(prefix) by {
                    assert(i < idx);
                    assert(prefix[i] == next[i]);
                };
            }
        }
        any_down = any_down || down_here;
        idx += 1;
    }
    proof {
        assert(rv.take(n as int) =~= rv);
    }
    let overall = if any_down {
        OverallStatus::ServiceUnavailable
    } else {
        OverallStatus::Available
    };
    AggregateVerdict { overall, results }
}

/// Evaluates every indicator and reduces the outcomes into one verdict.
///
/// Every indicator is always evaluated — a `Down` does not cut the sweep
/// short — and the verdict holds one result per indicator, under that
/// indicator's name, in evaluation order. Completeness: the denoted result
/// map covers exactly the indicators' names. The aggregation itself cannot
/// fail.
pub fn evaluate<I: Indicator>(indicators: &Vec<I>) -> (v: AggregateVerdict)
    ensures
        v.results@.len() == indicators@.len(),
        forall|i: int|
            0 <= i < indicators@.len() ==> #[trigger] v.results@[i].0@
                == indicators@[i].spec_name(),
        forall|i: int|
            0 <= i < indicators@.len() ==> spec_admitted_result(
                indicators@[i],
                #[trigger] v.results@[i].1,
            ),
        v.overall == spec_overall(results_view(v.results@)),
        v.results_map().dom() == spec_name_set(indicators@),
{
    let mut results: Vec<(String, IndicatorResult)> = Vec::new();
    let n = indicators.len();
    let mut idx: usize = 0;
    while idx < n
        invariant
            idx <= n,
            n == indicators@.len(),
            results@.len() == idx,
            forall|i: int|
                0 <= i < idx ==> #[trigger] results@[i].0@ == indicators@[i].spec_name(),
            forall|i: int|
                0 <= i < idx ==> spec_admitted_result(indicators@[i], #[trigger] results@[i].1),
        decreases n - idx,
    {
        let ind = &indicators[idx];
        let name = ind.name().to_owned();
        let outcome = ind.check();
        proof {
            assert(call_ensures(I::check, (&indicators@[idx as int],), outcome));
        }
        results.push((name, IndicatorResult::from(outcome)));
        proof {
            assert(results@[idx as int].1 == spec_result_of(outcome));
            assert(spec_admitted_result(indicators@[idx as int], results@[idx as int].1));
        }
        idx += 1;
    }
    let ghost rs = results@;
    let v = aggregate(results);
    proof {
        lemma_assoc_map_dom(results_view(rs));
        assert forall|nm: Seq<char>| #[trigger] v.results_map().dom().contains(nm) implies
            spec_name_set(indicators@).contains(nm) by {
            let i = choose|i: int|
                0 <= i < results_view(rs).len() && results_view(rs)[i].0 == nm;
            assert(indicators@[i].spec_name() == nm);
        };
        assert forall|nm: Seq<char>| spec_name_set(indicators@).contains(nm) implies #[trigger]
            v.results_map().dom().contains(nm) by {
            let i = choose|i: int| 0 <= i < indicators@.len() && indicators@[i].spec_name() == nm;
            assert(results_view(rs)[i].0 == nm);
        };
        assert(v.results_map().dom() =~= spec_name_set(indicators@));
    }
    v
}

/// The one outcome an indicator's `check` contract admits, where the
/// contract admits exactly one.
pub open spec fn spec_pinned_outcome<I: Indicator>(ind: I) -> Result<(), String> {
    choose|o: Result<(), String>| call_ensures(I::check, (&ind,), o)
}

/// The names of an indicator sequence are pairwise different.
pub open spec fn spec_distinct_names<I: Indicator>(s: Seq<I>) -> bool {
    forall|i: int, j: int| 0 <= i < j < s.len() ==> s[i].spec_name() != s[j].spec_name()
}

/// Every indicator's contract admits exactly one report: any two outcomes
/// the `check` contract admits are reported as the same result value.
pub open spec fn spec_determinate<I: Indicator>() -> bool {
    forall|ind: I, o1: Result<(), String>, o2: Result<(), String>|
        #![trigger call_ensures(I::check, (&ind,), o1), call_ensures(I::check, (&ind,), o2)]
        call_ensures(I::check, (&ind,), o1) && call_ensures(I::check, (&ind,), o2)
            ==> spec_result_of(o1)@ == spec_result_of(o2)@
}

/// Registering the same indicators in another order never changes the
/// verdict. When each indicator's own contract admits exactly one report,
/// two runs of [`evaluate`] over the same indicator multiset — the names
/// pairwise different — denote the same result map and the same overall
/// status; the hypotheses on the recorded results are exactly what
/// [`evaluate`] ensures of each run. (Where a contract admits several
/// reports, two runs may genuinely observe different states, and no order
/// has a privileged verdict.)
pub proof fn lemma_registration_order_irrelevant<I: Indicator>(
    ind1: Seq<I>,
    rs1: Seq<(String, IndicatorResult)>,
    ind2: Seq<I>,
    rs2: Seq<(String, IndicatorResult)>,
)
    requires
        spec_determinate::<I>(),
        ind1.to_multiset() == ind2.to_multiset(),
        spec_distinct_names(ind1),
        rs1.len() == ind1.len(),
        forall|i: int| 0 <= i < ind1.len() ==> #[trigger] rs1[i].0@ == ind1[i].spec_name(),
        forall|i: int| 0 <= i < ind1.len() ==> spec_admitted_result(ind1[i], #[trigger] rs1[i].1),
        rs2.len() == ind2.len(),
        forall|i: int| 0 <= i < ind2.len() ==> #[trigger] rs2[i].0@ == ind2[i].spec_name(),
        forall|i: int| 0 <= i < ind2.len() ==> spec_admitted_result(ind2[i], #[trigger] rs2[i].1),
    ensures
        assoc_map(results_view(rs1)) == assoc_map(results_view(rs2)),
        spec_overall(results_view(rs1)) == spec_overall(results_view(rs2)),
{
    broadcast use vstd::seq_lib::group_to_multiset_ensures;

    let rv1 = results_view(rs1);
    let rv2 = results_view(rs2);
    // With determinate contracts, every recorded result is the report of
    // the one admitted outcome.
    assert forall|i: int| 0 <= i < ind1.len() implies #[trigger] rv1[i] == (
        ind1[i].spec_name(),
        spec_result_of(spec_pinned_outcome(ind1[i]))@,
    ) by {
        assert(spec_admitted_result(ind1[i], rs1[i].1));
        let o = choose|o: Result<(), String>|
            call_ensures(I::check, (&ind1[i],), o) && rs1[i].1 == spec_result_of(o);
        assert(call_ensures(I::check, (&ind1[i],), spec_pinned_outcome(ind1[i])));
        assert(spec_result_of(o)@ == spec_result_of(spec_pinned_outcome(ind1[i]))@);
    };
    assert forall|i: int| 0 <= i < ind2.len() implies #[trigger] rv2[i] == (
        ind2[i].spec_name(),
        spec_result_of(spec_pinned_outcome(ind2[i]))@,
    ) by {
        assert(spec_admitted_result(ind2[i], rs2[i].1));
        let o = choose|o: Result<(), String>|
            call_ensures(I::check, (&ind2[i],), o) && rs2[i].1 == spec_result_of(o);
        assert(call_ensures(I::check, (&ind2[i],), spec_pinned_outcome(ind2[i])));
        assert(spec_result_of(o)@ == spec_result_of(spec_pinned_outcome(ind2[i]))@);
    };
    // Pairwise-different names transfer to the other registration order.
    assert(ind1.no_duplicates());
    ind1.lemma_multiset_has_no_duplicates();
    ind2.lemma_multiset_has_no_duplicates_conv();
    assert forall|i: int, j: int| 0 <= i < j < ind2.len() implies ind2[i].spec_name()
        != ind2[j].spec_name() by {
        if ind2[i].spec_name() == ind2[j].spec_name() {
            assert(ind2.contains(ind2[i]));
            assert(ind2.contains(ind2[j]));
            lemma_contains_transfer(ind2, ind1, ind2[i]);
            lemma_contains_transfer(ind2, ind1, ind2[j]);
            let k = choose|k: int| 0 <= k < ind1.len() && ind1[k] == ind2[i];
            let l = choose|l: int| 0 <= l < ind1.len() && ind1[l] == ind2[j];
            assert(ind1[k].spec_name() == ind1[l].spec_name());
            assert(k == l);
            assert(false);
        }
    };
    assert(distinct_keys(rv1));
    assert(distinct_keys(rv2));
    // The two denoted maps agree on every name.
    lemma_assoc_map_dom(rv1);
    lemma_assoc_map_dom(rv2);
    assert forall|k: Seq<char>| #[trigger] assoc_map(rv1).dom().contains(k) implies assoc_map(
        rv2,
    ).dom().contains(k) && assoc_map(rv2)[k] == assoc_map(rv1)[k] by {
        let i = choose|i: int| 0 <= i < rv1.len() && rv1[i].0 == k;
        assert(ind1.contains(ind1[i]));
        lemma_contains_transfer(ind1, ind2, ind1[i]);
        let j = choose|j: int| 0 <= j < ind2.len() && ind2[j] == ind1[i];
        assert(rv2[j].0 == k);
        lemma_assoc_map_index(rv1, i);
        lemma_assoc_map_index(rv2, j);
    };
    assert forall|k: Seq<char>| #[trigger] assoc_map(rv2).dom().contains(k) implies assoc_map(
        rv1,
    ).dom().contains(k) by {
        let j = choose|j: int| 0 <= j < rv2.len() && rv2[j].0 == k;
        assert(ind2.contains(ind2[j]));
        lemma_contains_transfer(ind2, ind1, ind2[j]);
        let i = choose|i: int| 0 <= i < ind1.len() && ind1[i] == ind2[j];
        assert(rv1[i].0 == k);
    };
    assert(assoc_map(rv1) =~= assoc_map(rv2));
    // A failure among the results of one order is a failure among the
    // results of the other.
    if spec_any_down(rv1) {
        let i = choose|i: int| 0 <= i < rv1.len() && rv1[i].1.status is Down;
        assert(ind1.contains(ind1[i]));
        lemma_contains_transfer(ind1, ind2, ind1[i]);
        let j = choose|j: int| 0 <= j < ind2.len() && ind2[j] == ind1[i];
        assert(rv2[j].1.status is Down);
    }
    if spec_any_down(rv2) {
        let j = choose|j: int| 0 <= j < rv2.len() && rv2[j].1.status is Down;
        assert(ind2.contains(ind2[j]));
        lemma_contains_transfer(ind2, ind1, ind2[j]);
        let i = choose|i: int| 0 <= i < ind1.len() && ind1[i] == ind2[j];
        assert(rv1[i].1.status is Down);
    }
}

/// The verdict does not depend on the order indicators were evaluated in:
/// two result sequences holding the same name/result pairs — the names
/// pairwise different — denote the same result map and the same overall
/// status.
pub proof fn lemma_verdict_order_insensitive(
    s1: Seq<(Seq<char>, IndicatorResultView)>,
    s2: Seq<(Seq<char>, IndicatorResultView)>,
)
    requires
        distinct_keys(s1),
        s1.to_multiset() == s2.to_multiset(),
    ensures
        assoc_map(s1) == assoc_map(s2),
        spec_overall(s1) == spec_overall(s2),
{
    lemma_assoc_map_permutation(s1, s2);
    if spec_any_down(s1) {
        let i = choose|i: int| 0 <= i < s1.len() && s1[i].1.status is Down;
        assert(s1.contains(s1[i]));
        lemma_contains_transfer(s1, s2, s1[i]);
        let j = choose|j: int| 0 <= j < s2.len() && s2[j] == s1[i];
        assert(s2[j].1.status is Down);
    }
    if spec_any_down(s2) {
        let j = choose|j: int| 0 <= j < s2.len() && s2[j].1.status is Down;
        assert(s2.contains(s2[j]));
        lemma_contains_transfer(s2, s1, s2[j]);
        let i = choose|i: int| 0 <= i < s1.len() && s1[i] == s2[j];
        assert(s1[i].1.status is Down);
    }
}

} // verus!

verus! {

impl crate::Actuator {
    /// Mounts the liveness probe's route. The builder records only the
    /// route surface: the probe value is consumed and dropped here, and the
    /// host that serves the routes owns the live probe.
    pub fn with_liveness<I: Indicator>(self, liveness: check::Liveness<I>) -> (r: crate::Actuator)
        ensures
            r.routes_view() == self.routes_view().push("/health/liveness"@),
            r.endpoint == self.endpoint,
            r.collector == self.collector,
    {
        let _ = liveness;
        self.with_route(String::from_str(check::Liveness::<I>::route()))
    }

    /// Mounts the readiness probe's route. The builder records only the
    /// route surface: the probe value is consumed and dropped here, and the
    /// host that serves the routes owns the live probe.
    pub fn with_readiness<I: Indicator>(self, readiness: check::Readiness<I>) -> (r: crate::Actuator)
        ensures
            r.routes_view() == self.routes_view().push("/health/readiness"@),
            r.endpoint == self.endpoint,
            r.collector == self.collector,
    {
        let _ = readiness;
        self.with_route(String::from_str(check::Readiness::<I>::route()))
    }
}

} // verus!
