use valensas_actuator::prometheus::r2d2::{
    PoolMetricCollector, PoolMetricCollectorConfig, PoolState,
};
use valensas_actuator::prometheus::tokio::{
    RuntimeMetricCollector, RuntimeMetricCollectorConfig, RuntimeStats,
};
use valensas_actuator::registry::{GaugeSample, MetricOpts, MetricsError};

fn sample_pairs(samples: &[GaugeSample]) -> Vec<(&str, u64)> {
    samples.iter().map(|s| (s.name.as_str(), s.value)).collect()
}

#[test]
fn pool_config_names_the_four_gauges() {
    let config = PoolMetricCollectorConfig::default("main-db");
    assert_eq!(config.pool_name, "main-db");
    assert_eq!(config.min_idle.name, "r2d2_min_idle");
    assert_eq!(config.max_pool_size.name, "r2d2_max_pool_size");
    assert_eq!(config.total_connections.name, "r2d2_connections_total");
    assert_eq!(config.idle_connections.name, "r2d2_connections_idle");
}

#[test]
fn pool_collector_labels_each_gauge_with_the_pool_name() {
    let collector =
        PoolMetricCollector::new(PoolMetricCollectorConfig::default("main-db")).unwrap();
    assert_eq!(collector.min_idle.label_key, "name");
    assert_eq!(collector.min_idle.label_value, "main-db");
    assert_eq!(collector.idle_connections.label_value, "main-db");
    assert_eq!(
        collector.desc().iter().map(String::as_str).collect::<Vec<_>>(),
        vec![
            "r2d2_min_idle",
            "r2d2_max_pool_size",
            "r2d2_connections_total",
            "r2d2_connections_idle"
        ]
    );
}

#[test]
fn pool_collection_reflects_the_statistics() {
    let collector =
        PoolMetricCollector::new(PoolMetricCollectorConfig::default("main-db")).unwrap();
    let samples = collector.collect(
        Some(2),
        10,
        PoolState { connections: 5, idle_connections: 3 },
    );
    assert_eq!(
        sample_pairs(&samples),
        vec![
            ("r2d2_min_idle", 2),
            ("r2d2_max_pool_size", 10),
            ("r2d2_connections_total", 5),
            ("r2d2_connections_idle", 3)
        ]
    );
    assert!(samples.iter().all(|s| s.label_key == "name" && s.label_value == "main-db"));
}

#[test]
fn pool_collection_substitutes_zero_for_a_missing_statistic() {
    let collector =
        PoolMetricCollector::new(PoolMetricCollectorConfig::default("main-db")).unwrap();
    let samples = collector.collect(
        None,
        10,
        PoolState { connections: 5, idle_connections: 3 },
    );
    assert_eq!(samples[0].value, 0);
    assert_eq!(samples.len(), 4);
}

#[test]
fn pool_collection_is_idempotent_in_effect() {
    let collector =
        PoolMetricCollector::new(PoolMetricCollectorConfig::default("main-db")).unwrap();
    let state = PoolState { connections: 5, idle_connections: 3 };
    let first = collector.collect(Some(2), 10, state);
    let second = collector.collect(Some(2), 10, state);
    assert_eq!(sample_pairs(&first), sample_pairs(&second));
}

#[test]
fn runtime_config_names_the_seven_gauges() {
    let config = RuntimeMetricCollectorConfig::default("0");
    assert_eq!(config.runtime_id, "0");
    assert_eq!(config.workers_total.name, "tokio_workers_total");
    assert_eq!(config.blocking_threads_total.name, "tokio_blocking_threads_total");
    assert_eq!(config.active_tasks_total.name, "tokio_active_tasks_total");
    assert_eq!(
        config.idle_blocking_threads_total.name,
        "tokio_idle_blocking_threads_total"
    );
    assert_eq!(config.forced_yield_total.name, "tokio_forced_yield_total");
    assert_eq!(config.injection_queue_size.name, "tokio_injection_queue_size");
    assert_eq!(config.blocking_queue_depth.name, "tokio_blocking_queue_depth");
}

#[test]
fn runtime_collection_reflects_the_statistics() {
    let collector =
        RuntimeMetricCollector::new(RuntimeMetricCollectorConfig::default("0")).unwrap();
    let stats = RuntimeStats {
        workers: 8,
        blocking_threads: 4,
        active_tasks: 17,
        idle_blocking_threads: 1,
        forced_yields: 0,
        injection_queue_size: 2,
        blocking_queue_depth: 3,
    };
    let samples = collector.collect(&stats);
    assert_eq!(
        sample_pairs(&samples),
        vec![
            ("tokio_workers_total", 8),
            ("tokio_blocking_threads_total", 4),
            ("tokio_active_tasks_total", 17),
            ("tokio_idle_blocking_threads_total", 1),
            ("tokio_forced_yield_total", 0),
            ("tokio_injection_queue_size", 2),
            ("tokio_blocking_queue_depth", 3)
        ]
    );
    assert!(samples.iter().all(|s| s.label_key == "id" && s.label_value == "0"));
}

#[test]
fn runtime_collection_is_idempotent_in_effect() {
    let collector =
        RuntimeMetricCollector::new(RuntimeMetricCollectorConfig::default("0")).unwrap();
    let stats = RuntimeStats {
        workers: 8,
        blocking_threads: 4,
        active_tasks: 17,
        idle_blocking_threads: 1,
        forced_yields: 0,
        injection_queue_size: 2,
        blocking_queue_depth: 3,
    };
    let first = collector.collect(&stats);
    let second = collector.collect(&stats);
    assert_eq!(sample_pairs(&first), sample_pairs(&second));
    assert_eq!(collector.desc().len(), 7);
}

#[test]
fn malformed_gauge_names_fail_collector_creation() {
    let mut config = PoolMetricCollectorConfig::default("main-db");
    config.min_idle = MetricOpts::new("9bad".to_string(), "broken".to_string());
    assert!(matches!(
        PoolMetricCollector::new(config),
        Err(MetricsError::InvalidName)
    ));

    let mut config = RuntimeMetricCollectorConfig::default("0");
    config.blocking_queue_depth = MetricOpts::new("bad name".to_string(), "broken".to_string());
    assert!(matches!(
        RuntimeMetricCollector::new(config),
        Err(MetricsError::InvalidName)
    ));
}
