//! The HTTP request collector for the web framework's pipeline.

use vstd::prelude::*;

use crate::labels::{resolve_http_labels, spec_http_labels, LabelView};
use crate::metrics::{spec_bump, spec_obs, TimerStart};
use crate::registry::MetricsError;

use super::{
    spec_registered_names, HttpRequestCollectorConfig, HttpRequestCollectorMetrics,
    RocketHttpCollector,
};

verus! {

impl RocketHttpCollector {
    /// The metrics this collector records into.
    pub closed spec fn spec_metrics(&self) -> HttpRequestCollectorMetrics {
        self.metrics
    }

    /// Creates the collector from a configuration; its counter and
    /// histogram families are registered in the configuration's registry,
    /// tolerating names already present. A malformed family name is fatal
    /// and surfaced.
    pub fn new(config: &mut HttpRequestCollectorConfig) -> (r: Result<Self, MetricsError>)
        ensures
            old(config).spec_names_valid() ==> (r matches Ok(c) && {
                &&& c.spec_metrics().wf()
                &&& c.spec_metrics().spec_counter().counts() == Map::<LabelView, u64>::empty()
                &&& c.spec_metrics().spec_counter().spec_name() == old(
                    config,
                ).spec_counter_options().name@
                &&& c.spec_metrics().spec_histogram().data() == Map::<LabelView, Seq<u64>>::empty()
                &&& c.spec_metrics().spec_histogram().spec_name() == old(
                    config,
                ).spec_options().name@
                &&& final(config).spec_registry().names_view() == spec_registered_names(
                    spec_registered_names(
                        old(config).spec_registry().names_view(),
                        old(config).spec_counter_options().name@,
                    ),
                    old(config).spec_options().name@,
                )
            }),
            !old(config).spec_names_valid() ==> r == Err::<Self, MetricsError>(
                MetricsError::InvalidName,
            ) && final(config).spec_registry() == old(config).spec_registry(),
            final(config).spec_counter_options() == old(config).spec_counter_options(),
            final(config).spec_options() == old(config).spec_options(),
    {
        let metrics = HttpRequestCollectorMetrics::from(config)?;
        Ok(Self { metrics })
    }

    /// The metrics this collector records into.
    pub fn metrics(&self) -> (r: &HttpRequestCollectorMetrics)
        ensures
            *r == self.spec_metrics(),
    {
        &self.metrics
    }

    /// Entry half of the interception: captures the start mark scoped to
    /// exactly this exchange.
    pub fn on_request(&self) -> (t: TimerStart)
        ensures
            t.0 is Some,
    {
        TimerStart::now()
    }

    /// Exit half of the interception: resolves the label triple — matched
    /// route template or the `UNKNOWN` sentinel, method, decimal status —
    /// and records the exchange. The counter series for the triple grows
    /// by one; when the start mark is known, the histogram series for the
    /// same triple gains exactly one observation — without one, nothing
    /// can be measured and no duration is recorded. Everything else is
    /// left as it was.
    pub fn on_response(&mut self, route: Option<&str>, method: &str, status: u16, timer: &TimerStart)
        requires
            old(self).spec_metrics().wf(),
        ensures
            final(self).spec_metrics().wf(),
            final(self).spec_metrics().spec_counter().counts() == old(
                self,
            ).spec_metrics().spec_counter().counts().insert(
                spec_http_labels(route.deep_view(), method@, status),
                spec_bump(
                    old(self).spec_metrics().spec_counter().counts(),
                    spec_http_labels(route.deep_view(), method@, status),
                ),
            ),
            timer.0 is Some ==> exists|d: u64|
                final(self).spec_metrics().spec_histogram().data() == old(
                    self,
                ).spec_metrics().spec_histogram().data().insert(
                    spec_http_labels(route.deep_view(), method@, status),
                    spec_obs(
                        old(self).spec_metrics().spec_histogram().data(),
                        spec_http_labels(route.deep_view(), method@, status),
                    ).push(d),
                ),
            timer.0 is None ==> final(self).spec_metrics().spec_histogram().data() == old(
                self,
            ).spec_metrics().spec_histogram().data(),
            final(self).spec_metrics().spec_counter().spec_name() == old(
                self,
            ).spec_metrics().spec_counter().spec_name(),
            final(self).spec_metrics().spec_histogram().spec_name() == old(
                self,
            ).spec_metrics().spec_histogram().spec_name(),
            final(self).spec_metrics().spec_histogram().spec_help() == old(
                self,
            ).spec_metrics().spec_histogram().spec_help(),
    {
        let labels = resolve_http_labels(route, method, status);
        self.metrics.http_requests_total.inc(&labels);
        match timer.elapsed_nanos() {
            Some(d) => {
                self.metrics.http_requests_duration_seconds.observe(&labels, d);
            },
            None => {},
        }
    }
}

} // verus!
