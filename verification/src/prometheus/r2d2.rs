//! Pull collector for a pooled connection manager.
//!
//! Sampled synchronously whenever the registry is scraped: every gauge is
//! recomputed from the pool statistics the caller reads off the live pool
//! handle at that moment — nothing is cached between scrapes, and two
//! collections from the same statistics yield equal samples. A statistic
//! the handle cannot report is substituted by zero rather than failing the
//! scrape.

use vstd::prelude::*;

use crate::labels::{is_valid_metric_name, spec_valid_metric_name};
use crate::registry::{Gauge, GaugeSample, MetricOpts, MetricsError};

verus! {

/// Options of the four pool gauges, all labeled with the pool's name.
pub struct PoolMetricCollectorConfig {
    pub pool_name: String,
    pub min_idle: MetricOpts,
    pub max_pool_size: MetricOpts,
    pub total_connections: MetricOpts,
    pub idle_connections: MetricOpts,
}

impl PoolMetricCollectorConfig {
    /// Default configuration for a pool known under `pool_name`.
    pub fn default(pool_name: &str) -> (r: Self)
        ensures
            r.pool_name@ == pool_name@,
            r.min_idle.name@ == "r2d2_min_idle"@,
            r.max_pool_size.name@ == "r2d2_max_pool_size"@,
            r.total_connections.name@ == "r2d2_connections_total"@,
            r.idle_connections.name@ == "r2d2_connections_idle"@,
    {
        Self {
            pool_name: pool_name.to_owned(),
            min_idle: MetricOpts::new(
                "r2d2_min_idle".to_owned(),
                "r2d2 minimum number of idle connections".to_owned(),
            ),
            max_pool_size: MetricOpts::new(
                "r2d2_max_pool_size".to_owned(),
                "r2d2 maximum pool size".to_owned(),
            ),
            total_connections: MetricOpts::new(
                "r2d2_connections_total".to_owned(),
                "number of r2d2 active pool size".to_owned(),
            ),
            idle_connections: MetricOpts::new(
                "r2d2_connections_idle".to_owned(),
                "number of r2d2 idle connections".to_owned(),
            ),
        }
    }
}

/// Statistics read off the live pool handle at one moment.
#[derive(Clone, Copy, Debug, PartialEq, Eq, Structural)]
pub struct PoolState {
    pub connections: u32,
    pub idle_connections: u32,
}

/// The gauge value for an optional statistic: the value where the handle
/// reports one, zero where it does not.
pub open spec fn spec_or_zero(v: Option<u32>) -> u64 {
    match v {
        Some(x) => x as u64,
        None => 0,
    }
}

/// Pull collector over a connection pool: four gauges describing the
/// pool's size and occupancy.
pub struct PoolMetricCollector {
    pub min_idle: Gauge,
    pub max_pool_size: Gauge,
    pub total_connections: Gauge,
    pub idle_connections: Gauge,
    pub descs: Vec<String>,
}

impl PoolMetricCollectorConfig {
    /// Whether every configured gauge name is well-formed.
    pub open spec fn spec_names_valid(&self) -> bool {
        &&& spec_valid_metric_name(self.min_idle.name@)
        &&& spec_valid_metric_name(self.max_pool_size.name@)
        &&& spec_valid_metric_name(self.total_connections.name@)
        &&& spec_valid_metric_name(self.idle_connections.name@)
    }
}

impl PoolMetricCollector {
    /// Creates the collector from its configuration; each gauge is labeled
    /// `name` with the pool's name. A malformed gauge name is fatal and
    /// surfaced to the caller.
    pub fn new(config: PoolMetricCollectorConfig) -> (r: Result<Self, MetricsError>)
        ensures
            !config.spec_names_valid() ==> r == Err::<Self, MetricsError>(
                MetricsError::InvalidName,
            ),
            config.spec_names_valid() ==> (r matches Ok(c) && {
                &&& c.min_idle.name@ == config.min_idle.name@
                &&& c.min_idle.label_key@ == "name"@ && c.min_idle.label_value@
                    == config.pool_name@
                &&& c.max_pool_size.name@ == config.max_pool_size.name@
                &&& c.max_pool_size.label_key@ == "name"@ && c.max_pool_size.label_value@
                    == config.pool_name@
                &&& c.total_connections.name@ == config.total_connections.name@
                &&& c.total_connections.label_key@ == "name"@ && c.total_connections.label_value@
                    == config.pool_name@
                &&& c.idle_connections.name@ == config.idle_connections.name@
                &&& c.idle_connections.label_key@ == "name"@ && c.idle_connections.label_value@
                    == config.pool_name@
                &&& c.descs@.map_values(|n: String| n@) == seq![
                    config.min_idle.name@,
                    config.max_pool_size.name@,
                    config.total_connections.name@,
                    config.idle_connections.name@,
                ]
            }),
    {
        if !(is_valid_metric_name(config.min_idle.name.as_str()) && is_valid_metric_name(
            config.max_pool_size.name.as_str(),
        ) && is_valid_metric_name(config.total_connections.name.as_str())
            && is_valid_metric_name(config.idle_connections.name.as_str())) {
            return Err(MetricsError::InvalidName);
        }
        let min_idle = Gauge::new(
            config.min_idle.name,
            config.min_idle.help,
            "name".to_owned(),
            config.pool_name.clone(),
        );
        let max_pool_size = Gauge::new(
            config.max_pool_size.name,
            config.max_pool_size.help,
            "name".to_owned(),
            config.pool_name.clone(),
        );
        let total_connections = Gauge::new(
            config.total_connections.name,
            config.total_connections.help,
            "name".to_owned(),
            config.pool_name.clone(),
        );
        let idle_connections = Gauge::new(
            config.idle_connections.name,
            config.idle_connections.help,
            "name".to_owned(),
            config.pool_name,
        );
        let mut descs: Vec<String> = Vec::new();
        descs.push(min_idle.name.clone());
        descs.push(max_pool_size.name.clone());
        descs.push(total_connections.name.clone());
        descs.push(idle_connections.name.clone());
        let collector = Self {
            min_idle,
            max_pool_size,
            total_connections,
            idle_connections,
            descs,
        };
        proof {
            assert(collector.descs@.map_values(|n: String| n@) =~= seq![
                collector.min_idle.name@,
                collector.max_pool_size.name@,
                collector.total_connections.name@,
                collector.idle_connections.name@,
            ]);
        }
        Ok(collector)
    }

    /// The names of the gauges this collector describes.
    pub fn desc(&self) -> (r: &Vec<String>)
        ensures
            r@ == self.descs@,
    {
        &self.descs
    }

    /// Collects the four gauges from the statistics read at this scrape:
    /// the configured minimum of idle connections (zero where the handle
    /// reports none), the pool's maximum size, and the current total and
    /// idle connection counts. The samples are a function of the
    /// statistics alone — nothing is mutated and nothing is cached, so a
    /// second collection from the same statistics returns equal samples.
    pub fn collect(&self, min_idle: Option<u32>, max_size: u32, state: PoolState) -> (mfs: Vec<
        GaugeSample,
    >)
        ensures
            mfs@.len() == 4,
            mfs@[0]@ == self.min_idle.spec_sample(spec_or_zero(min_idle)),
            mfs@[1]@ == self.max_pool_size.spec_sample(max_size as u64),
            mfs@[2]@ == self.total_connections.spec_sample(state.connections as u64),
            mfs@[3]@ == self.idle_connections.spec_sample(state.idle_connections as u64),
    {
        let min_idle_value: u64 = match min_idle {
            Some(v) => v as u64,
            None => 0,
        };
        let mut mfs: Vec<GaugeSample> = Vec::new();
        mfs.push(self.min_idle.sample(min_idle_value));
        mfs.push(self.max_pool_size.sample(max_size as u64));
        mfs.push(self.total_connections.sample(state.connections as u64));
        mfs.push(self.idle_connections.sample(state.idle_connections as u64));
        mfs
    }
}

} // verus!
