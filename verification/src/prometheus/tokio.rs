//! Pull collector for the task runtime.
//!
//! Sampled synchronously whenever the registry is scraped: every gauge is
//! recomputed from the runtime statistics the caller reads off the live
//! runtime handle at that moment — nothing is cached between scrapes, and
//! two collections from the same statistics yield equal samples.

use vstd::prelude::*;

use crate::labels::{is_valid_metric_name, spec_valid_metric_name};
use crate::registry::{Gauge, GaugeSample, MetricOpts, MetricsError};

verus! {

/// Options of the seven runtime gauges, all labeled with the runtime's id.
pub struct RuntimeMetricCollectorConfig {
    pub runtime_id: String,
    pub workers_total: MetricOpts,
    pub blocking_threads_total: MetricOpts,
    pub active_tasks_total: MetricOpts,
    pub idle_blocking_threads_total: MetricOpts,
    pub forced_yield_total: MetricOpts,
    pub injection_queue_size: MetricOpts,
    pub blocking_queue_depth: MetricOpts,
}

impl RuntimeMetricCollectorConfig {
    /// Default configuration for the runtime known under `runtime_id`.
    pub fn default(runtime_id: &str) -> (r: Self)
        ensures
            r.runtime_id@ == runtime_id@,
            r.workers_total.name@ == "tokio_workers_total"@,
            r.blocking_threads_total.name@ == "tokio_blocking_threads_total"@,
            r.active_tasks_total.name@ == "tokio_active_tasks_total"@,
            r.idle_blocking_threads_total.name@ == "tokio_idle_blocking_threads_total"@,
            r.forced_yield_total.name@ == "tokio_forced_yield_total"@,
            r.injection_queue_size.name@ == "tokio_injection_queue_size"@,
            r.blocking_queue_depth.name@ == "tokio_blocking_queue_depth"@,
    {
        Self {
            runtime_id: runtime_id.to_owned(),
            workers_total: MetricOpts::new(
                "tokio_workers_total".to_owned(),
                "tokio_workers_total".to_owned(),
            ),
            blocking_threads_total: MetricOpts::new(
                "tokio_blocking_threads_total".to_owned(),
                "tokio_blocking_threads_total".to_owned(),
            ),
            active_tasks_total: MetricOpts::new(
                "tokio_active_tasks_total".to_owned(),
                "tokio_active_tasks_total".to_owned(),
            ),
            idle_blocking_threads_total: MetricOpts::new(
                "tokio_idle_blocking_threads_total".to_owned(),
                "tokio_idle_blocking_threads_total".to_owned(),
            ),
            forced_yield_total: MetricOpts::new(
                "tokio_forced_yield_total".to_owned(),
                "tokio_forced_yield_total".to_owned(),
            ),
            injection_queue_size: MetricOpts::new(
                "tokio_injection_queue_size".to_owned(),
                "tokio_injection_queue_size".to_owned(),
            ),
            blocking_queue_depth: MetricOpts::new(
                "tokio_blocking_queue_depth".to_owned(),
                "tokio_blocking_queue_depth".to_owned(),
            ),
        }
    }
}

/// Statistics read off the live runtime handle at one moment.
#[derive(Clone, Copy, Debug, PartialEq, Eq, Structural)]
pub struct RuntimeStats {
    pub workers: u64,
    pub blocking_threads: u64,
    pub active_tasks: u64,
    pub idle_blocking_threads: u64,
    pub forced_yields: u64,
    pub injection_queue_size: u64,
    pub blocking_queue_depth: u64,
}

impl RuntimeMetricCollectorConfig {
    /// Whether every configured gauge name is well-formed.
    pub open spec fn spec_names_valid(&self) -> bool {
        &&& spec_valid_metric_name(self.workers_total.name@)
        &&& spec_valid_metric_name(self.blocking_threads_total.name@)
        &&& spec_valid_metric_name(self.active_tasks_total.name@)
        &&& spec_valid_metric_name(self.idle_blocking_threads_total.name@)
        &&& spec_valid_metric_name(self.forced_yield_total.name@)
        &&& spec_valid_metric_name(self.injection_queue_size.name@)
        &&& spec_valid_metric_name(self.blocking_queue_depth.name@)
    }
}

/// Pull collector over the task runtime: seven gauges describing its
/// workers, threads, tasks and queues.
pub struct RuntimeMetricCollector {
    pub workers_total: Gauge,
    pub blocking_threads_total: Gauge,
    pub active_tasks_total: Gauge,
    pub idle_blocking_threads_total: Gauge,
    pub forced_yield_total: Gauge,
    pub injection_queue_size: Gauge,
    pub blocking_queue_depth: Gauge,
    pub descs: Vec<String>,
}

impl RuntimeMetricCollector {
    /// Creates the collector from its configuration; each gauge is labeled
    /// `id` with the runtime's id. A malformed gauge name is fatal and
    /// surfaced to the caller.
    pub fn new(config: RuntimeMetricCollectorConfig) -> (r: Result<Self, MetricsError>)
        ensures
            !config.spec_names_valid() ==> r == Err::<Self, MetricsError>(
                MetricsError::InvalidName,
            ),
            config.spec_names_valid() ==> (r matches Ok(c) && {
                &&& c.workers_total.name@ == config.workers_total.name@
                &&& c.blocking_threads_total.name@ == config.blocking_threads_total.name@
                &&& c.active_tasks_total.name@ == config.active_tasks_total.name@
                &&& c.idle_blocking_threads_total.name@ == config.idle_blocking_threads_total.name@
                &&& c.forced_yield_total.name@ == config.forced_yield_total.name@
                &&& c.injection_queue_size.name@ == config.injection_queue_size.name@
                &&& c.blocking_queue_depth.name@ == config.blocking_queue_depth.name@
                &&& c.workers_total.label_key@ == "id"@ && c.workers_total.label_value@
                    == config.runtime_id@
                &&& c.blocking_threads_total.label_key@ == "id"@
                    && c.blocking_threads_total.label_value@ == config.runtime_id@
                &&& c.active_tasks_total.label_key@ == "id"@ && c.active_tasks_total.label_value@
                    == config.runtime_id@
                &&& c.idle_blocking_threads_total.label_key@ == "id"@
                    && c.idle_blocking_threads_total.label_value@ == config.runtime_id@
                &&& c.forced_yield_total.label_key@ == "id"@ && c.forced_yield_total.label_value@
                    == config.runtime_id@
                &&& c.injection_queue_size.label_key@ == "id"@
                    && c.injection_queue_size.label_value@ == config.runtime_id@
                &&& c.blocking_queue_depth.label_key@ == "id"@
                    && c.blocking_queue_depth.label_value@ == config.runtime_id@
                &&& c.descs@.map_values(|n: String| n@) == seq![
                    config.workers_total.name@,
                    config.blocking_threads_total.name@,
                    config.active_tasks_total.name@,
                    config.idle_blocking_threads_total.name@,
                    config.forced_yield_total.name@,
                    config.injection_queue_size.name@,
                    config.blocking_queue_depth.name@,
                ]
            }),
    {
        if !(is_valid_metric_name(config.workers_total.name.as_str()) && is_valid_metric_name(
            config.blocking_threads_total.name.as_str(),
        ) && is_valid_metric_name(config.active_tasks_total.name.as_str())
            && is_valid_metric_name(config.idle_blocking_threads_total.name.as_str())
            && is_valid_metric_name(config.forced_yield_total.name.as_str())
            && is_valid_metric_name(config.injection_queue_size.name.as_str())
            && is_valid_metric_name(config.blocking_queue_depth.name.as_str())) {
            return Err(MetricsError::InvalidName);
        }
        let workers_total = Gauge::new(
            config.workers_total.name,
            config.workers_total.help,
            "id".to_owned(),
            config.runtime_id.clone(),
        );
        let blocking_threads_total = Gauge::new(
            config.blocking_threads_total.name,
            config.blocking_threads_total.help,
            "id".to_owned(),
            config.runtime_id.clone(),
        );
        let active_tasks_total = Gauge::new(
            config.active_tasks_total.name,
            config.active_tasks_total.help,
            "id".to_owned(),
            config.runtime_id.clone(),
        );
        let idle_blocking_threads_total = Gauge::new(
            config.idle_blocking_threads_total.name,
            config.idle_blocking_threads_total.help,
            "id".to_owned(),
            config.runtime_id.clone(),
        );
        let forced_yield_total = Gauge::new(
            config.forced_yield_total.name,
            config.forced_yield_total.help,
            "id".to_owned(),
            config.runtime_id.clone(),
        );
        let injection_queue_size = Gauge::new(
            config.injection_queue_size.name,
            config.injection_queue_size.help,
            "id".to_owned(),
            config.runtime_id.clone(),
        );
        let blocking_queue_depth = Gauge::new(
            config.blocking_queue_depth.name,
            config.blocking_queue_depth.help,
            "id".to_owned(),
            config.runtime_id,
        );
        let mut descs: Vec<String> = Vec::new();
        descs.push(workers_total.name.clone());
        descs.push(blocking_threads_total.name.clone());
        descs.push(active_tasks_total.name.clone());
        descs.push(idle_blocking_threads_total.name.clone());
        descs.push(forced_yield_total.name.clone());
        descs.push(injection_queue_size.name.clone());
        descs.push(blocking_queue_depth.name.clone());
        let collector = Self {
            workers_total,
            blocking_threads_total,
            active_tasks_total,
            idle_blocking_threads_total,
            forced_yield_total,
            injection_queue_size,
            blocking_queue_depth,
            descs,
        };
        proof {
            assert(collector.descs@.map_values(|n: String| n@) =~= seq![
                collector.workers_total.name@,
                collector.blocking_threads_total.name@,
                collector.active_tasks_total.name@,
                collector.idle_blocking_threads_total.name@,
                collector.forced_yield_total.name@,
                collector.injection_queue_size.name@,
                collector.blocking_queue_depth.name@,
            ]);
        }
        Ok(collector)
    }

    /// The names of the gauges this collector describes.
    pub fn desc(&self) -> (r: &Vec<String>)
        ensures
            r@ == self.descs@,
    {
        &self.descs
    }

    /// Collects the seven gauges from the statistics read at this scrape.
    /// The samples are a function of the statistics alone — nothing is
    /// mutated and nothing is cached, so a second collection from the same
    /// statistics returns equal samples.
    pub fn collect(&self, stats: &RuntimeStats) -> (mfs: Vec<GaugeSample>)
        ensures
            mfs@.len() == 7,
            mfs@[0]@ == self.workers_total.spec_sample(stats.workers),
            mfs@[1]@ == self.blocking_threads_total.spec_sample(stats.blocking_threads),
            mfs@[2]@ == self.active_tasks_total.spec_sample(stats.active_tasks),
            mfs@[3]@ == self.idle_blocking_threads_total.spec_sample(stats.idle_blocking_threads),
            mfs@[4]@ == self.forced_yield_total.spec_sample(stats.forced_yields),
            mfs@[5]@ == self.injection_queue_size.spec_sample(stats.injection_queue_size),
            mfs@[6]@ == self.blocking_queue_depth.spec_sample(stats.blocking_queue_depth),
    {
        let mut mfs: Vec<GaugeSample> = Vec::new();
        mfs.push(self.workers_total.sample(stats.workers));
        mfs.push(self.blocking_threads_total.sample(stats.blocking_threads));
        mfs.push(self.active_tasks_total.sample(stats.active_tasks));
        mfs.push(self.idle_blocking_threads_total.sample(stats.idle_blocking_threads));
        mfs.push(self.forced_yield_total.sample(stats.forced_yields));
        mfs.push(self.injection_queue_size.sample(stats.injection_queue_size));
        mfs.push(self.blocking_queue_depth.sample(stats.blocking_queue_depth));
        mfs
    }
}

} // verus!
