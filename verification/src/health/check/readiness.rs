//! The readiness probe configuration.

use vstd::prelude::*;

use crate::health::{
    evaluate, results_view, spec_admitted_result, spec_name_set, spec_overall, AggregateVerdict,
    Indicator,
};

use super::Readiness;

verus! {

impl<I: Indicator> Readiness<I> {
    /// The indicator set this probe was built over.
    pub closed spec fn spec_indicators(&self) -> Seq<I> {
        self.indicators@
    }

    /// Creates the readiness probe over a fixed indicator set; the set can
    /// only be changed by building a new probe.
    pub fn new(indicators: Vec<I>) -> (r: Self)
        ensures
            r.spec_indicators() == indicators@,
    {
        Self { indicators }
    }

    /// The indicators this probe owns, in registration order.
    pub fn indicators(&self) -> (r: &Vec<I>)
        ensures
            r@ == self.spec_indicators(),
    {
        &self.indicators
    }

    /// Route under which this probe is served.
    pub fn route() -> (r: &'static str)
        ensures
            r@ == "/health/readiness"@,
    {
        "/health/readiness"
    }

    /// Evaluates every indicator and reduces the outcomes into one verdict;
    /// see [`evaluate`].
    pub fn check(&self) -> (v: AggregateVerdict)
        ensures
            v.results@.len() == self.spec_indicators().len(),
            forall|i: int|
                0 <= i < self.spec_indicators().len() ==> #[trigger] v.results@[i].0@
                    == self.spec_indicators()[i].spec_name(),
            forall|i: int|
                0 <= i < self.spec_indicators().len() ==> spec_admitted_result(
                    self.spec_indicators()[i],
                    #[trigger] v.results@[i].1,
                ),
            v.overall == spec_overall(results_view(v.results@)),
            v.results_map().dom() == spec_name_set(self.spec_indicators()),
    {
        evaluate(&self.indicators)
    }
}

} // verus!
