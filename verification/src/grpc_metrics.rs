//! The gRPC request interceptor.
//!
//! Wraps an RPC service so every exchange is timed on entry and recorded
//! exactly once on exit, under the label triple of call path, the
//! transport name `grpc`, and the reply's `grpc-status` value — or the
//! sentinel `0`, the protocol's code for success, when the reply carries
//! none. The measurement semantics are those of the HTTP interceptor, so
//! metrics from both transports are comparable under one schema. Driving
//! the wrapped service belongs to the host runtime; when the inner call
//! fails before any reply exists, nothing is recorded.

use vstd::prelude::*;

use crate::labels::{resolve_grpc_labels, spec_grpc_labels};
use crate::metrics::{spec_bump, spec_obs, PrometheusMetrics, TimerStart};

verus! {

/// Layer that wraps an RPC service with gRPC metric interception.
#[derive(Clone)]
pub struct GrpcMetricLayer {
    pub prometheus: PrometheusMetrics,
}

impl GrpcMetricLayer {
    /// Creates the layer around a metrics sink handle.
    pub fn new(prom: PrometheusMetrics) -> (r: Self)
        ensures
            r.prometheus == prom,
    {
        Self { prometheus: prom }
    }

    /// Wraps one service with the interception.
    pub fn layer<S>(self, service: S) -> (r: GrpcMetric<S>)
        ensures
            r.inner == service,
            r.prometheus == self.prometheus,
    {
        GrpcMetric { inner: service, prometheus: self.prometheus }
    }
}

/// An RPC service wrapped with gRPC metric interception.
pub struct GrpcMetric<S> {
    pub inner: S,
    pub prometheus: PrometheusMetrics,
}

impl<S> GrpcMetric<S> {
    /// Entry half of the interception: captures the start mark scoped to
    /// exactly this exchange.
    pub fn on_request(&self) -> (t: TimerStart)
        ensures
            t.0 is Some,
    {
        TimerStart::now()
    }

    /// Exit half of the interception, called once a reply exists: resolves
    /// the label triple — call path, transport name, reply status or the
    /// `0` sentinel — and records the exchange exactly once. The counter
    /// series for the triple grows by one and the duration histogram
    /// series for the same triple gains exactly one observation.
    /// Everything else in the sink, and the wrapped service, are left as
    /// they were.
    pub fn on_response(&mut self, path: &str, grpc_status: Option<&str>, timer: &TimerStart)
        requires
            old(self).prometheus.wf(),
            timer.0 is Some,
        ensures
            final(self).prometheus.wf(),
            final(self).inner == old(self).inner,
            final(self).prometheus.spec_counter().counts() == old(
                self,
            ).prometheus.spec_counter().counts().insert(
                spec_grpc_labels(path@, grpc_status.deep_view()),
                spec_bump(
                    old(self).prometheus.spec_counter().counts(),
                    spec_grpc_labels(path@, grpc_status.deep_view()),
                ),
            ),
            exists|d: u64|
                final(self).prometheus.spec_histogram().data() == old(
                    self,
                ).prometheus.spec_histogram().data().insert(
                    spec_grpc_labels(path@, grpc_status.deep_view()),
                    spec_obs(
                        old(self).prometheus.spec_histogram().data(),
                        spec_grpc_labels(path@, grpc_status.deep_view()),
                    ).push(d),
                ),
            final(self).prometheus.spec_counter().spec_name() == old(
                self,
            ).prometheus.spec_counter().spec_name(),
            final(self).prometheus.spec_histogram().spec_name() == old(
                self,
            ).prometheus.spec_histogram().spec_name(),
            final(self).prometheus.spec_registry() == old(self).prometheus.spec_registry(),
    {
        let labels = resolve_grpc_labels(path, grpc_status);
        let d = timer.elapsed_nanos().unwrap();
        self.prometheus.record_exchange(&labels, d);
    }
}

} // verus!
