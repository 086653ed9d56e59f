//! The gRPC request collector for an RPC service.

use vstd::prelude::*;

use crate::labels::{resolve_grpc_labels, spec_grpc_labels, LabelView};
use crate::metrics::{spec_bump, spec_obs, TimerStart};
use crate::registry::MetricsError;

use super::{
    spec_registered_names, HttpRequestCollectorConfig, HttpRequestCollectorMetrics,
    TonicGrpcCollectorLayer,
};

verus! {

impl TonicGrpcCollectorLayer {
    /// The metrics this layer's collectors record into.
    pub closed spec fn spec_metrics(&self) -> HttpRequestCollectorMetrics {
        self.metrics
    }

    /// Creates the layer from a configuration; its counter and histogram
    /// families are registered in the configuration's registry, tolerating
    /// names already present. A malformed family name is fatal and
    /// surfaced.
    pub fn new(config: &mut HttpRequestCollectorConfig) -> (r: Result<Self, MetricsError>)
        ensures
            old(config).spec_names_valid() ==> (r matches Ok(l) && {
                &&& l.spec_metrics().wf()
                &&& l.spec_metrics().spec_counter().counts() == Map::<LabelView, u64>::empty()
                &&& l.spec_metrics().spec_counter().spec_name() == old(
                    config,
                ).spec_counter_options().name@
                &&& l.spec_metrics().spec_histogram().data() == Map::<LabelView, Seq<u64>>::empty()
                &&& l.spec_metrics().spec_histogram().spec_name() == old(
                    config,
                ).spec_options().name@
                &&& final(config).spec_registry().names_view() == spec_registered_names(
                    spec_registered_names(
                        old(config).spec_registry().names_view(),
                        old(config).spec_counter_options().name@,
                    ),
                    old(config).spec_options().name@,
                )
            }),
            !old(config).spec_names_valid() ==> r == Err::<Self, MetricsError>(
                MetricsError::InvalidName,
            ) && final(config).spec_registry() == old(config).spec_registry(),
            final(config).spec_counter_options() == old(config).spec_counter_options(),
            final(config).spec_options() == old(config).spec_options(),
    {
        let metrics = HttpRequestCollectorMetrics::from(config)?;
        Ok(Self { metrics })
    }

    /// Wraps one service with the collection.
    pub fn layer<S>(self, inner: S) -> (r: TonicGrpcCollector<S>)
        ensures
            r.spec_inner() == inner,
            r.spec_metrics() == self.spec_metrics(),
    {
        TonicGrpcCollector { inner, metrics: self.metrics }
    }
}

/// An RPC service wrapped with request collection.
pub struct TonicGrpcCollector<S> {
    pub inner: S,
    pub(crate) metrics: HttpRequestCollectorMetrics,
}

impl<S> TonicGrpcCollector<S> {
    /// The wrapped service.
    pub closed spec fn spec_inner(&self) -> S {
        self.inner
    }

    /// The metrics this collector records into.
    pub closed spec fn spec_metrics(&self) -> HttpRequestCollectorMetrics {
        self.metrics
    }

    /// The metrics this collector records into.
    pub fn metrics(&self) -> (r: &HttpRequestCollectorMetrics)
        ensures
            *r == self.spec_metrics(),
    {
        &self.metrics
    }

    /// Entry half of the interception: captures the start mark scoped to
    /// exactly this exchange.
    pub fn on_request(&self) -> (t: TimerStart)
        ensures
            t.0 is Some,
    {
        TimerStart::now()
    }

    /// Exit half of the interception, called once a reply exists: resolves
    /// the label triple — call path, transport name, reply status or the
    /// `0` sentinel — and records the exchange exactly once: the counter
    /// series for the triple grows by one and the histogram series for the
    /// same triple gains exactly one observation. Everything else, and the
    /// wrapped service, are left as they were.
    pub fn on_response(&mut self, path: &str, grpc_status: Option<&str>, timer: &TimerStart)
        requires
            old(self).spec_metrics().wf(),
            timer.0 is Some,
        ensures
            final(self).spec_metrics().wf(),
            final(self).spec_inner() == old(self).spec_inner(),
            final(self).spec_metrics().spec_counter().counts() == old(
                self,
            ).spec_metrics().spec_counter().counts().insert(
                spec_grpc_labels(path@, grpc_status.deep_view()),
                spec_bump(
                    old(self).spec_metrics().spec_counter().counts(),
                    spec_grpc_labels(path@, grpc_status.deep_view()),
                ),
            ),
            exists|d: u64|
                final(self).spec_metrics().spec_histogram().data() == old(
                    self,
                ).spec_metrics().spec_histogram().data().insert(
                    spec_grpc_labels(path@, grpc_status.deep_view()),
                    spec_obs(
                        old(self).spec_metrics().spec_histogram().data(),
                        spec_grpc_labels(path@, grpc_status.deep_view()),
                    ).push(d),
                ),
            final(self).spec_metrics().spec_counter().spec_name() == old(
                self,
            ).spec_metrics().spec_counter().spec_name(),
            final(self).spec_metrics().spec_histogram().spec_name() == old(
                self,
            ).spec_metrics().spec_histogram().spec_name(),
    {
        let labels = resolve_grpc_labels(path, grpc_status);
        self.metrics.http_requests_total.inc(&labels);
        let d = timer.elapsed_nanos().unwrap();
        self.metrics.http_requests_duration_seconds.observe(&labels, d);
    }
}

} // verus!
