//! Creation and registration of the request counter and duration histogram.

use vstd::prelude::*;

use crate::labels::{is_valid_metric_name, spec_valid_metric_name, LabelView};
use crate::metrics::{HistogramVec, IntCounterVec};
use crate::registry::MetricsError;

use super::{spec_registered_names, HttpRequestCollectorConfig, HttpRequestCollectorMetrics};

verus! {

impl HttpRequestCollectorMetrics {
    /// The counter this collector records into.
    pub open spec fn spec_counter(&self) -> IntCounterVec {
        self.http_requests_total
    }

    /// The histogram this collector records into.
    pub open spec fn spec_histogram(&self) -> HistogramVec {
        self.http_requests_duration_seconds
    }

    /// Both families keep at most one series per label triple.
    pub open spec fn wf(&self) -> bool {
        self.spec_counter().wf() && self.spec_histogram().wf()
    }

    /// Builds the collector's metrics from a configuration: both family
    /// names are checked and registered — a name already present is not an
    /// error, the prior registration stays intact; a malformed name is
    /// fatal to the configuration step and surfaced, with the registry
    /// left untouched.
    pub fn from(config: &mut HttpRequestCollectorConfig) -> (r: Result<Self, MetricsError>)
        ensures
            old(config).spec_names_valid() ==> (r matches Ok(m) && {
                &&& m.wf()
                &&& m.spec_counter().counts() == Map::<LabelView, u64>::empty()
                &&& m.spec_counter().spec_name() == old(config).spec_counter_options().name@
                &&& m.spec_counter().spec_help() == old(config).spec_counter_options().help@
                &&& m.spec_histogram().data() == Map::<LabelView, Seq<u64>>::empty()
                &&& m.spec_histogram().spec_name() == old(config).spec_options().name@
                &&& m.spec_histogram().spec_help() == old(config).spec_options().help@
                &&& final(config).spec_registry().names_view() == spec_registered_names(
                    spec_registered_names(
                        old(config).spec_registry().names_view(),
                        old(config).spec_counter_options().name@,
                    ),
                    old(config).spec_options().name@,
                )
            }),
            !old(config).spec_names_valid() ==> r == Err::<Self, MetricsError>(
                MetricsError::InvalidName,
            ) && final(config).spec_registry() == old(config).spec_registry(),
            final(config).spec_counter_options() == old(config).spec_counter_options(),
            final(config).spec_options() == old(config).spec_options(),
    {
        if !(is_valid_metric_name(config.http_requests_total_options.name.as_str())
            && is_valid_metric_name(config.http_requests_duration_options.name.as_str())) {
            return Err(MetricsError::InvalidName);
        }
        let http_requests_total = Self::http_requests_total(config);
        let http_requests_duration_seconds = Self::http_requests_duration_seconds(config);
        Ok(Self { http_requests_total, http_requests_duration_seconds })
    }

    /// Creates the request counter family from the configured options and
    /// registers its name, tolerating a name already present.
    fn http_requests_total(config: &mut HttpRequestCollectorConfig) -> (r: IntCounterVec)
        requires
            spec_valid_metric_name(old(config).spec_counter_options().name@),
        ensures
            r.wf(),
            r.counts() == Map::<LabelView, u64>::empty(),
            r.spec_name() == old(config).spec_counter_options().name@,
            r.spec_help() == old(config).spec_counter_options().help@,
            final(config).spec_counter_options() == old(config).spec_counter_options(),
            final(config).spec_options() == old(config).spec_options(),
            final(config).spec_registry().names_view() == spec_registered_names(
                old(config).spec_registry().names_view(),
                old(config).spec_counter_options().name@,
            ),
    {
        let counter = IntCounterVec::new(config.http_requests_total_options.clone());
        let name = config.http_requests_total_options.name.clone();
        match config.registry.register(name) {
            Ok(()) => (),
            // The family is already registered: keep the prior instance
            // intact and record through the fresh one.
            Err(MetricsError::AlreadyRegistered) => (),
            Err(MetricsError::InvalidName) => {
                proof {
                    assert(false);
                }
            },
        }
        counter
    }

    /// Creates the duration histogram family from the configured options
    /// and registers its name, tolerating a name already present.
    fn http_requests_duration_seconds(config: &mut HttpRequestCollectorConfig) -> (r: HistogramVec)
        requires
            spec_valid_metric_name(old(config).spec_options().name@),
        ensures
            r.wf(),
            r.data() == Map::<LabelView, Seq<u64>>::empty(),
            r.spec_name() == old(config).spec_options().name@,
            r.spec_help() == old(config).spec_options().help@,
            final(config).spec_counter_options() == old(config).spec_counter_options(),
            final(config).spec_options() == old(config).spec_options(),
            final(config).spec_registry().names_view() == spec_registered_names(
                old(config).spec_registry().names_view(),
                old(config).spec_options().name@,
            ),
    {
        let histogram = HistogramVec::new(config.http_requests_duration_options.clone());
        let name = config.http_requests_duration_options.name.clone();
        match config.registry.register(name) {
            Ok(()) => (),
            // The family is already registered: keep the prior instance
            // intact and record through the fresh one.
            Err(MetricsError::AlreadyRegistered) => (),
            Err(MetricsError::InvalidName) => {
                proof {
                    assert(false);
                }
            },
        }
        histogram
    }

    /// The counter this collector records into.
    pub fn counter(&self) -> (r: &IntCounterVec)
        ensures
            *r == self.spec_counter(),
    {
        &self.http_requests_total
    }

    /// The histogram this collector records into.
    pub fn histogram(&self) -> (r: &HistogramVec)
        ensures
            *r == self.spec_histogram(),
    {
        &self.http_requests_duration_seconds
    }
}

} // verus!
