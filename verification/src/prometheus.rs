//! Scrape endpoint and collectors around a shared metric registry.
//!
//! This family configures the actuator's metrics surface: the `/metrics`
//! scrape endpoint over a registry handed in by the host, an HTTP request
//! duration collector for the web framework's pipeline, a gRPC variant of
//! the same collector, and pull collectors sampling a connection pool and
//! the task runtime. Registering a family name that is already present
//! keeps the prior instance and is not an error.

use vstd::prelude::*;

use crate::labels::spec_valid_metric_name;
use crate::registry::{MetricOpts, MetricsError, Registry};

pub mod endpoint;
pub mod http_request_collector_metrics;
pub mod r2d2;
pub mod rocket_http_collector;
pub mod tokio;
pub mod tonic_grpc_collector;

verus! {

/// The scrape endpoint: serves the registry's families under `/metrics`.
pub struct Endpoint {
    pub(crate) registry: Registry,
}

/// Configuration of a request collector: the registry to register in and
/// the options of the counter and histogram families.
pub struct HttpRequestCollectorConfig {
    pub(crate) registry: Registry,
    pub(crate) http_requests_total_options: MetricOpts,
    pub(crate) http_requests_duration_options: MetricOpts,
}

impl HttpRequestCollectorConfig {
    /// The registry this configuration registers in.
    pub closed spec fn spec_registry(&self) -> Registry {
        self.registry
    }

    /// The options the counter family is created with.
    pub closed spec fn spec_counter_options(&self) -> MetricOpts {
        self.http_requests_total_options
    }

    /// The options the histogram family is created with.
    pub closed spec fn spec_options(&self) -> MetricOpts {
        self.http_requests_duration_options
    }

    /// Both configured family names are well-formed.
    pub open spec fn spec_names_valid(&self) -> bool {
        spec_valid_metric_name(self.spec_counter_options().name@) && spec_valid_metric_name(
            self.spec_options().name@,
        )
    }

    /// Default configuration over a registry: the counter family
    /// `http_requests_total` and the histogram family
    /// `http_requests_duration_seconds`, each with its standard help line.
    pub fn default(registry: Registry) -> (r: Self)
        ensures
            r.spec_registry() == registry,
            r.spec_counter_options().name@ == "http_requests_total"@,
            r.spec_counter_options().help@ == "Total number of HTTP requests"@,
            r.spec_options().name@ == "http_requests_duration_seconds"@,
            r.spec_options().help@ == "HTTP request duration in seconds for all requests"@,
    {
        Self {
            registry,
            http_requests_total_options: MetricOpts::new(
                "http_requests_total".to_owned(),
                "Total number of HTTP requests".to_owned(),
            ),
            http_requests_duration_options: MetricOpts::new(
                "http_requests_duration_seconds".to_owned(),
                "HTTP request duration in seconds for all requests".to_owned(),
            ),
        }
    }

    /// The registry this configuration registers in.
    pub fn registry(&self) -> (r: &Registry)
        ensures
            *r == self.spec_registry(),
    {
        &self.registry
    }

    /// Hands the registry back, for the scrape endpoint to serve.
    pub fn into_registry(self) -> (r: Registry)
        ensures
            r == self.spec_registry(),
    {
        self.registry
    }
}

/// The registered names after one family name was registered among them:
/// unchanged when the name was already present, extended by it otherwise.
pub open spec fn spec_registered_names(names: Seq<Seq<char>>, name: Seq<char>) -> Seq<Seq<char>> {
    if names.contains(name) {
        names
    } else {
        names.push(name)
    }
}

/// The request counter and duration histogram a collector records into.
pub struct HttpRequestCollectorMetrics {
    pub http_requests_total: crate::metrics::IntCounterVec,
    pub http_requests_duration_seconds: crate::metrics::HistogramVec,
}

/// Collector wrapping the web framework's request pipeline: times every
/// exchange and records its duration.
pub struct RocketHttpCollector {
    pub(crate) metrics: HttpRequestCollectorMetrics,
}

/// Layer that wraps an RPC service with duration collection.
pub struct TonicGrpcCollectorLayer {
    pub(crate) metrics: HttpRequestCollectorMetrics,
}

impl crate::Actuator {
    /// Mounts the scrape endpoint's route over the given registry.
    pub fn with_metrics_endpoint(self, registry: Registry) -> (r: crate::Actuator)
        ensures
            r.routes_view() == self.routes_view().push("/metrics"@),
            r.endpoint matches Some(e) && e.spec_registry() == registry,
            r.collector == self.collector,
    {
        let with_endpoint = crate::Actuator {
            routes: self.routes,
            endpoint: Some(Endpoint::new(registry)),
            collector: self.collector,
        };
        with_endpoint.with_route(String::from_str(Endpoint::route()))
    }

    /// Attaches the HTTP request duration collector built from the given
    /// configuration; its histogram family is registered in the
    /// configuration's registry, tolerating a name already present. A
    /// malformed family name is fatal to this configuration step and
    /// surfaced to its caller.
    pub fn with_rocket_metrics_collector(
        self,
        config: &mut HttpRequestCollectorConfig,
    ) -> (r: Result<crate::Actuator, MetricsError>)
        ensures
            old(config).spec_names_valid() ==> (r matches Ok(a) && {
                &&& a.routes_view() == self.routes_view()
                &&& a.endpoint == self.endpoint
                &&& a.collector matches Some(c) && c.spec_metrics().spec_counter().wf()
                    && c.spec_metrics().spec_counter().counts() == Map::<
                    crate::labels::LabelView,
                    u64,
                >::empty() && c.spec_metrics().spec_counter().spec_name() == old(
                    config,
                ).spec_counter_options().name@ && c.spec_metrics().spec_histogram().wf()
                    && c.spec_metrics().spec_histogram().data() == Map::<
                    crate::labels::LabelView,
                    Seq<u64>,
                >::empty() && c.spec_metrics().spec_histogram().spec_name() == old(
                    config,
                ).spec_options().name@
                &&& final(config).spec_registry().names_view() == spec_registered_names(
                    spec_registered_names(
                        old(config).spec_registry().names_view(),
                        old(config).spec_counter_options().name@,
                    ),
                    old(config).spec_options().name@,
                )
            }),
            !old(config).spec_names_valid() ==> r == Err::<crate::Actuator, MetricsError>(
                MetricsError::InvalidName,
            ) && final(config).spec_registry() == old(config).spec_registry(),
            final(config).spec_counter_options() == old(config).spec_counter_options(),
            final(config).spec_options() == old(config).spec_options(),
    {
        let collector = RocketHttpCollector::new(config)?;
        Ok(
            crate::Actuator {
                routes: self.routes,
                endpoint: self.endpoint,
                collector: Some(collector),
            },
        )
    }
}

} // verus!
