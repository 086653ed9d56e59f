//! Probe configurations and the indicator variants this crate ships.

use vstd::prelude::*;

use super::Indicator;

pub mod diesel;
pub mod liveness;
pub mod readiness;
pub mod tonic;

verus! {

/// Liveness probe for a server: is the process alive? Served under
/// `/health/liveness`, answering 200 when every indicator is up and 503
/// when at least one is down.
pub struct Liveness<I: Indicator> {
    pub(crate) indicators: Vec<I>,
}

/// Readiness probe for a server: can the process serve traffic? Served
/// under `/health/readiness`, answering 200 when every indicator is up and
/// 503 when at least one is down.
pub struct Readiness<I: Indicator> {
    pub(crate) indicators: Vec<I>,
}

/// Fixed up/down probe: always reports the outcome it was built with.
pub struct FixedIndicator {
    pub(crate) name: String,
    pub(crate) failure: Option<String>,
}

/// Health indicator for a relational database reached through a pooled
/// connection: obtain a connection, run a trivial query, and report any
/// failure as the reason. The connection and the query execution belong to
/// the database driver; this type owns the probe's identity, its query, and
/// the folding of the two outcomes into one result.
pub struct Diesel {
    pub(crate) name: String,
    pub(crate) query: String,
}

/// Health indicator for an upstream service speaking the gRPC health
/// protocol: ask whether a named service is serving, and report any other
/// status — or a transport failure — as the reason. The remote call belongs
/// to the RPC client; this type owns the probe's identity, the service
/// asked about, and the interpretation of the reply.
pub struct Tonic {
    pub(crate) name: String,
    pub(crate) service: String,
}

} // verus!

verus! {

impl FixedIndicator {
    /// The failure this probe reports, if any.
    pub closed spec fn spec_failure(&self) -> Option<Seq<char>> {
        match self.failure {
            Some(ref m) => Some(m@),
            None => None,
        }
    }

    /// Creates a probe that always reports up.
    pub fn up(name: String) -> (r: Self)
        ensures
            r.spec_name() == name@,
            r.spec_failure() is None,
    {
        Self { name, failure: None }
    }

    /// Creates a probe that always reports down with the given reason.
    pub fn down(name: String, reason: String) -> (r: Self)
        ensures
            r.spec_name() == name@,
            r.spec_failure() == Some(reason@),
    {
        Self { name, failure: Some(reason) }
    }
}

impl Indicator for FixedIndicator {
    closed spec fn spec_name(&self) -> Seq<char> {
        self.name@
    }

    fn name(&self) -> (r: &str) {
        self.name.as_str()
    }

    fn check(&self) -> (r: Result<(), String>)
        ensures
            match self.spec_failure() {
                None => r is Ok,
                Some(m) => r matches Err(reason) && reason@ == m,
            },
    {
        match &self.failure {
            None => Ok(()),
            Some(m) => Err(m.clone()),
        }
    }
}

} // verus!

verus! {

/// A fixed probe's contract admits exactly one report, so by
/// [`crate::health::lemma_registration_order_irrelevant`] the registration
/// order of fixed probes never changes a verdict over them.
pub proof fn lemma_fixed_indicator_determinate()
    ensures
        crate::health::spec_determinate::<FixedIndicator>(),
{
    assert forall|ind: FixedIndicator, o1: Result<(), String>, o2: Result<(), String>|
        call_ensures(FixedIndicator::check, (&ind,), o1) && call_ensures(
            FixedIndicator::check,
            (&ind,),
            o2,
        ) implies crate::health::spec_result_of(o1)@ == crate::health::spec_result_of(o2)@ by {
        match ind.spec_failure() {
            None => {
                assert(o1 is Ok && o2 is Ok);
            },
            Some(m) => {
                assert(o1 matches Err(r) && r@ == m);
                assert(o2 matches Err(r) && r@ == m);
            },
        }
    }
}

} // verus!
