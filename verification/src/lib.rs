//! Health aggregation and request-metrics core for a web service actuator.
//!
//! The crate models three independent concerns:
//!
//! * health probes: named indicators are evaluated and reduced into a single
//!   verdict with per-indicator detail (`health`);
//! * request instrumentation: every request/response exchange is timed and
//!   recorded exactly once into labeled counters and histograms (`metrics`,
//!   `grpc_metrics`);
//! * pull collectors: gauge values sampled on demand from live resource
//!   statistics (`prometheus`).
//!
//! Transport frameworks, sockets and clocks are collaborators at the edge;
//! the decisions and bookkeeping they feed are verified here.

use vstd::prelude::*;

pub mod actuator;
pub mod assoc;
pub mod grpc_metrics;
pub mod health;
pub mod labels;
pub mod metrics;
pub mod prometheus;
pub mod registry;

verus! {

/// Builder for a server that exposes the actuator's routes. The actuator
/// tracks which probe and metrics routes have been mounted; serving them
/// belongs to the surrounding web framework.
pub struct Actuator {
    /// Route paths mounted so far, in mount order.
    pub routes: Vec<String>,
    /// The scrape endpoint, once one was configured.
    pub endpoint: Option<prometheus::Endpoint>,
    /// The request duration collector, once one was attached.
    pub collector: Option<prometheus::RocketHttpCollector>,
}

impl Actuator {
    /// The mounted route paths, as mathematical values, in mount order.
    pub open spec fn routes_view(&self) -> Seq<Seq<char>> {
        self.routes@.map_values(|r: String| r@)
    }

    /// Mounts one more route path.
    pub(crate) fn with_route(self, route: String) -> (r: Actuator)
        ensures
            r.routes_view() == self.routes_view().push(route@),
            r.endpoint == self.endpoint,
            r.collector == self.collector,
    {
        let mut routes = self.routes;
        let ghost before = routes@;
        routes.push(route);
        proof {
            assert(routes@.map_values(|r: String| r@) =~= before.map_values(|r: String| r@).push(
                routes@.last()@,
            ));
        }
        Actuator { routes, endpoint: self.endpoint, collector: self.collector }
    }
}

} // verus!
