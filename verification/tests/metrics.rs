use valensas_actuator::grpc_metrics::GrpcMetricLayer;
use valensas_actuator::labels::{
    fq_name, is_valid_metric_name, resolve_grpc_labels, resolve_http_labels, status_label,
    u64_to_dec, LabelValues,
};
use valensas_actuator::metrics::{
    ArcRwLockPrometheus, ArcRwLockPrometheusTrait, PrometheusMetrics, TimerStart,
};
use valensas_actuator::prometheus::endpoint::metrics;
use valensas_actuator::prometheus::{
    Endpoint, HttpRequestCollectorConfig, RocketHttpCollector, TonicGrpcCollectorLayer,
};
use valensas_actuator::registry::{MetricsError, Registry};
use valensas_actuator::Actuator;

#[test]
fn decimal_rendering_is_exact() {
    assert_eq!(u64_to_dec(0), "0");
    assert_eq!(u64_to_dec(7), "7");
    assert_eq!(u64_to_dec(42), "42");
    assert_eq!(u64_to_dec(200), "200");
    assert_eq!(u64_to_dec(65535), "65535");
    assert_eq!(u64_to_dec(u64::MAX), "18446744073709551615");
    assert_eq!(status_label(503), "503");
}

#[test]
fn namespace_prefix_applies_only_when_nonempty() {
    assert_eq!(fq_name("ns", "http_requests_total"), "ns_http_requests_total");
    assert_eq!(fq_name("", "http_requests_total"), "http_requests_total");
}

#[test]
fn http_labels_resolve_route_and_status() {
    let labels = resolve_http_labels(Some("/widgets"), "GET", 200);
    assert_eq!(labels.endpoint, "/widgets");
    assert_eq!(labels.method, "GET");
    assert_eq!(labels.status, "200");
}

#[test]
fn http_labels_fall_back_to_the_unknown_sentinel() {
    let labels = resolve_http_labels(None, "GET", 404);
    assert_eq!(labels.endpoint, "UNKNOWN");
    assert_eq!(labels.status, "404");
}

#[test]
fn grpc_labels_resolve_status_and_sentinel() {
    let present = resolve_grpc_labels("/pkg.Svc/Call", Some("2"));
    assert_eq!(present.endpoint, "/pkg.Svc/Call");
    assert_eq!(present.method, "grpc");
    assert_eq!(present.status, "2");

    let absent = resolve_grpc_labels("/pkg.Svc/Call", None);
    assert_eq!(absent.status, "0");
}

#[test]
fn new_sink_registers_both_families_under_the_namespace() {
    let sink = PrometheusMetrics::new("app");
    let names: Vec<&str> = sink.registry().names().iter().map(String::as_str).collect();
    assert_eq!(
        names,
        vec!["app_http_requests_total", "app_http_requests_duration_seconds"]
    );

    let bare = PrometheusMetrics::new("");
    let names: Vec<&str> = bare.registry().names().iter().map(String::as_str).collect();
    assert_eq!(names, vec!["http_requests_total", "http_requests_duration_seconds"]);
}

#[test]
fn recording_one_exchange_counts_once_and_observes_once() {
    let mut sink = PrometheusMetrics::new("app");
    let labels = resolve_http_labels(Some("/widgets"), "GET", 200);
    let elapsed: u64 = 5_250_000;
    sink.record_exchange(&labels, elapsed);

    assert_eq!(sink.http_requests_total().get(&labels), 1);
    assert_eq!(sink.http_requests_duration_seconds().count(&labels), 1);
    let observed = sink.http_requests_duration_seconds().observation(&labels, 0);
    assert!(observed >= elapsed);
    assert_eq!(observed, elapsed);

    let other = resolve_http_labels(Some("/gadgets"), "GET", 200);
    assert_eq!(sink.http_requests_total().get(&other), 0);
    assert_eq!(sink.http_requests_duration_seconds().count(&other), 0);
}

#[test]
fn repeated_exchanges_accumulate_per_label() {
    let mut sink = PrometheusMetrics::new("");
    let ok = resolve_http_labels(Some("/widgets"), "GET", 200);
    let missing = resolve_http_labels(Some("/widgets"), "GET", 404);
    sink.record_exchange(&ok, 10);
    sink.record_exchange(&ok, 20);
    sink.record_exchange(&missing, 30);

    assert_eq!(sink.http_requests_total().get(&ok), 2);
    assert_eq!(sink.http_requests_total().get(&missing), 1);
    assert_eq!(sink.http_requests_duration_seconds().count(&ok), 2);
    assert_eq!(sink.http_requests_duration_seconds().observation(&ok, 1), 20);
}

#[test]
fn fairing_records_a_routed_exchange() {
    let mut fairing = ArcRwLockPrometheus::new(PrometheusMetrics::new("app"));
    let timer = fairing.on_request();
    fairing.on_response(Some("/widgets"), "GET", 200, &timer);

    let labels = resolve_http_labels(Some("/widgets"), "GET", 200);
    assert_eq!(fairing.rw_lock.http_requests_total().get(&labels), 1);
    assert_eq!(fairing.rw_lock.http_requests_duration_seconds().count(&labels), 1);
}

#[test]
fn fairing_records_unrouted_exchanges_under_the_sentinel() {
    let mut fairing = ArcRwLockPrometheus::new(PrometheusMetrics::new("app"));
    let timer = fairing.on_request();
    fairing.on_response(None, "GET", 404, &timer);

    let labels = resolve_http_labels(None, "GET", 404);
    assert_eq!(labels.endpoint, "UNKNOWN");
    assert_eq!(fairing.rw_lock.http_requests_total().get(&labels), 1);
}

#[test]
fn without_a_start_mark_only_the_counter_moves() {
    let mut fairing = ArcRwLockPrometheus::new(PrometheusMetrics::new("app"));
    fairing.on_response(Some("/widgets"), "GET", 200, &TimerStart::absent());

    let labels = resolve_http_labels(Some("/widgets"), "GET", 200);
    assert_eq!(fairing.rw_lock.http_requests_total().get(&labels), 1);
    assert_eq!(fairing.rw_lock.http_requests_duration_seconds().count(&labels), 0);
}

#[test]
fn grpc_layer_records_counter_and_histogram() {
    let layer = GrpcMetricLayer::new(PrometheusMetrics::new("app"));
    let mut service = layer.layer(());
    let timer = service.on_request();
    service.on_response("/pkg.Svc/Call", Some("2"), &timer);

    let labels = resolve_grpc_labels("/pkg.Svc/Call", Some("2"));
    assert_eq!(service.prometheus.http_requests_total().get(&labels), 1);
    assert_eq!(service.prometheus.http_requests_duration_seconds().count(&labels), 1);
}

#[test]
fn grpc_layer_defaults_a_missing_status_to_zero() {
    let layer = GrpcMetricLayer::new(PrometheusMetrics::new("app"));
    let mut service = layer.layer(());
    let timer = service.on_request();
    service.on_response("/pkg.Svc/Call", None, &timer);

    let labels = resolve_grpc_labels("/pkg.Svc/Call", None);
    assert_eq!(labels.status, "0");
    assert_eq!(service.prometheus.http_requests_total().get(&labels), 1);
}

#[test]
fn registering_a_name_twice_is_refused_and_harmless() {
    let mut registry = Registry::new();
    assert!(registry.register("some_gauge".to_string()).is_ok());
    assert_eq!(
        registry.register("some_gauge".to_string()),
        Err(MetricsError::AlreadyRegistered)
    );
    assert_eq!(registry.names().len(), 1);
    assert!(registry.contains(&"some_gauge".to_string()));
}

#[test]
fn attaching_a_collector_twice_keeps_the_prior_registration() {
    let mut config = HttpRequestCollectorConfig::default(Registry::new());
    let first = RocketHttpCollector::new(&mut config);
    assert!(first.is_ok());
    let second = RocketHttpCollector::new(&mut config);
    assert!(second.is_ok());
    assert_eq!(
        config.registry().names().iter().map(String::as_str).collect::<Vec<_>>(),
        vec!["http_requests_total", "http_requests_duration_seconds"]
    );

    // The prior collector stays usable after the duplicate registration.
    let mut collector = first.unwrap();
    let timer = collector.on_request();
    collector.on_response(Some("/widgets"), "GET", 200, &timer);
    let labels = resolve_http_labels(Some("/widgets"), "GET", 200);
    assert_eq!(collector.metrics().counter().get(&labels), 1);
    assert_eq!(collector.metrics().histogram().count(&labels), 1);
}

#[test]
fn collector_counts_an_exchange_without_a_start_mark_but_skips_its_duration() {
    let mut config = HttpRequestCollectorConfig::default(Registry::new());
    let mut collector = RocketHttpCollector::new(&mut config).unwrap();
    collector.on_response(Some("/widgets"), "GET", 200, &TimerStart::absent());
    let labels = resolve_http_labels(Some("/widgets"), "GET", 200);
    assert_eq!(collector.metrics().counter().get(&labels), 1);
    assert_eq!(collector.metrics().histogram().count(&labels), 0);
}

#[test]
fn collector_records_unrouted_exchanges_under_the_sentinel() {
    let mut config = HttpRequestCollectorConfig::default(Registry::new());
    let mut collector = RocketHttpCollector::new(&mut config).unwrap();
    let timer = collector.on_request();
    collector.on_response(None, "POST", 500, &timer);
    let labels = resolve_http_labels(None, "POST", 500);
    assert_eq!(labels.endpoint, "UNKNOWN");
    assert_eq!(collector.metrics().counter().get(&labels), 1);
    assert_eq!(collector.metrics().histogram().count(&labels), 1);
}

#[test]
fn grpc_collector_counts_and_times_each_call() {
    let mut config = HttpRequestCollectorConfig::default(Registry::new());
    let layer = TonicGrpcCollectorLayer::new(&mut config).unwrap();
    let mut service = layer.layer(());
    let timer = service.on_request();
    service.on_response("/pkg.Svc/Call", None, &timer);
    let labels = resolve_grpc_labels("/pkg.Svc/Call", None);
    assert_eq!(service.metrics().counter().get(&labels), 1);
    assert_eq!(service.metrics().histogram().count(&labels), 1);
}


#[test]
fn scrape_endpoint_serves_or_reports() {
    let served = metrics(Ok("# HELP x\n".to_string()));
    assert_eq!(served.status, 200);
    assert_eq!(served.body, "# HELP x\n");

    let failed = metrics(Err("encoder broke".to_string()));
    assert_eq!(failed.status, 500);
    assert_eq!(failed.body, "Could not collect metrics: encoder broke");
}

#[test]
fn endpoint_route_and_registry() {
    let mut registry = Registry::new();
    registry.register("a_family".to_string()).unwrap();
    let endpoint = Endpoint::new(registry);
    assert_eq!(Endpoint::route(), "/metrics");
    assert_eq!(endpoint.registry().names().len(), 1);
}

#[test]
fn actuator_mounts_metrics_routes_and_collector() {
    let mut config = HttpRequestCollectorConfig::default(Registry::new());
    let actuator = Actuator::new()
        .with_rocket_metrics_collector(&mut config)
        .unwrap()
        .with_metrics_endpoint(config.into_registry());
    assert_eq!(
        actuator.routes().iter().map(String::as_str).collect::<Vec<_>>(),
        vec!["/metrics"]
    );
    assert!(actuator.collector.is_some());
    assert!(actuator.endpoint.is_some());
}

#[test]
fn counters_compare_label_triples_by_value() {
    let mut sink = PrometheusMetrics::new("");
    let built = LabelValues::new("/widgets".to_string(), "GET".to_string(), "200".to_string());
    sink.record_exchange(&built, 1);
    let resolved = resolve_http_labels(Some("/widgets"), "GET", 200);
    assert!(built.same_as(&resolved));
    assert_eq!(sink.http_requests_total().get(&resolved), 1);
    assert_eq!(sink.http_requests_total().get(&built.clone()), 1);
}

#[test]
fn shared_handle_hands_out_an_equal_sink() {
    let fairing = ArcRwLockPrometheus::new(PrometheusMetrics::new("app"));
    let copy = ArcRwLockPrometheusTrait::clone(&fairing);
    assert_eq!(
        copy.registry().names().len(),
        fairing.rw_lock.registry().names().len()
    );
    assert_eq!(copy.registry().names()[0], "app_http_requests_total");
}

#[test]
fn malformed_names_are_refused_at_registration() {
    assert!(is_valid_metric_name("http_requests_total"));
    assert!(is_valid_metric_name("ns:subsystem:total"));
    assert!(is_valid_metric_name("a9"));
    assert!(!is_valid_metric_name(""));
    assert!(!is_valid_metric_name("9starts_with_digit"));
    assert!(!is_valid_metric_name("has-dash"));
    assert!(!is_valid_metric_name("has space"));

    let mut registry = Registry::new();
    assert_eq!(
        registry.register("9bad".to_string()),
        Err(MetricsError::InvalidName)
    );
    assert!(registry.names().is_empty());
}
