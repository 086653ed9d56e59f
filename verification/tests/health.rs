use valensas_actuator::health::check::tonic::ServingStatus;
use valensas_actuator::health::check::{Diesel, FixedIndicator, Liveness, Readiness, Tonic};
use valensas_actuator::health::{
    aggregate, evaluate, AggregateVerdict, IndicatorResult, IndicatorStatus, OverallStatus,
};
use valensas_actuator::Actuator;

fn result_for<'a>(verdict: &'a AggregateVerdict, name: &str) -> &'a IndicatorResult {
    &verdict
        .results
        .iter()
        .find(|(n, _)| n == name)
        .expect("missing indicator result")
        .1
}

#[test]
fn indicator_result_from_success_is_up_without_message() {
    let r = IndicatorResult::from(Ok(()));
    assert!(matches!(r.status, IndicatorStatus::Up));
    assert!(r.message.is_none());
}

#[test]
fn indicator_result_from_failure_is_down_with_reason() {
    let r = IndicatorResult::from(Err("db unreachable".to_string()));
    assert!(matches!(r.status, IndicatorStatus::Down));
    assert_eq!(r.message.as_deref(), Some("db unreachable"));
}

#[test]
fn empty_indicator_set_is_available() {
    let verdict = evaluate(&Vec::<FixedIndicator>::new());
    assert!(matches!(verdict.overall, OverallStatus::Available));
    assert!(verdict.results.is_empty());
    assert_eq!(verdict.overall.code(), 200);
}

#[test]
fn all_up_indicators_are_available() {
    let indicators = vec![
        FixedIndicator::up("a".to_string()),
        FixedIndicator::up("b".to_string()),
    ];
    let verdict = evaluate(&indicators);
    assert!(matches!(verdict.overall, OverallStatus::Available));
    assert_eq!(verdict.results.len(), 2);
}

#[test]
fn one_down_indicator_makes_service_unavailable() {
    let indicators = vec![
        FixedIndicator::up("a".to_string()),
        FixedIndicator::down("b".to_string(), "db unreachable".to_string()),
    ];
    let verdict = evaluate(&indicators);
    assert!(matches!(verdict.overall, OverallStatus::ServiceUnavailable));
    assert_eq!(verdict.overall.code(), 503);

    let a = result_for(&verdict, "a");
    assert!(matches!(a.status, IndicatorStatus::Up));
    assert!(a.message.is_none());

    let b = result_for(&verdict, "b");
    assert!(matches!(b.status, IndicatorStatus::Down));
    assert_eq!(b.message.as_deref(), Some("db unreachable"));
}

#[test]
fn verdict_covers_every_indicator_name() {
    let indicators = vec![
        FixedIndicator::up("first".to_string()),
        FixedIndicator::down("second".to_string(), "late".to_string()),
        FixedIndicator::up("third".to_string()),
    ];
    let verdict = evaluate(&indicators);
    let names: Vec<&str> = verdict.results.iter().map(|(n, _)| n.as_str()).collect();
    assert_eq!(names, vec!["first", "second", "third"]);
}

#[test]
fn registration_order_does_not_affect_the_verdict() {
    let forward = vec![
        FixedIndicator::up("a".to_string()),
        FixedIndicator::down("b".to_string(), "late".to_string()),
        FixedIndicator::up("c".to_string()),
    ];
    let backward = vec![
        FixedIndicator::up("c".to_string()),
        FixedIndicator::down("b".to_string(), "late".to_string()),
        FixedIndicator::up("a".to_string()),
    ];
    let v1 = evaluate(&forward);
    let v2 = evaluate(&backward);
    assert_eq!(v1.overall.code(), v2.overall.code());
    for name in ["a", "b", "c"] {
        let r1 = result_for(&v1, name);
        let r2 = result_for(&v2, name);
        assert_eq!(
            matches!(r1.status, IndicatorStatus::Down),
            matches!(r2.status, IndicatorStatus::Down)
        );
        assert_eq!(r1.message, r2.message);
    }
}

#[test]
fn aggregate_reduces_given_results() {
    let results = vec![
        ("a".to_string(), IndicatorResult::from(Ok(()))),
        ("b".to_string(), IndicatorResult::from(Err("down".to_string()))),
    ];
    let verdict = aggregate(results);
    assert!(matches!(verdict.overall, OverallStatus::ServiceUnavailable));
    assert_eq!(verdict.results.len(), 2);

    let all_up = vec![("a".to_string(), IndicatorResult::from(Ok(())))];
    assert!(matches!(aggregate(all_up).overall, OverallStatus::Available));
}

#[test]
fn liveness_check_reduces_its_indicators() {
    let liveness = Liveness::new(vec![
        FixedIndicator::up("a".to_string()),
        FixedIndicator::down("b".to_string(), "db unreachable".to_string()),
    ]);
    assert_eq!(liveness.indicators().len(), 2);
    let verdict = liveness.check();
    assert!(matches!(verdict.overall, OverallStatus::ServiceUnavailable));
    assert_eq!(result_for(&verdict, "b").message.as_deref(), Some("db unreachable"));
}

#[test]
fn readiness_check_reduces_its_indicators() {
    let readiness = Readiness::new(vec![FixedIndicator::up("a".to_string())]);
    let verdict = readiness.check();
    assert!(matches!(verdict.overall, OverallStatus::Available));
}

#[test]
fn probe_routes_are_fixed() {
    assert_eq!(Liveness::<FixedIndicator>::route(), "/health/liveness");
    assert_eq!(Readiness::<FixedIndicator>::route(), "/health/readiness");
}

#[test]
fn actuator_mounts_probe_routes() {
    let actuator = Actuator::new()
        .with_liveness(Liveness::new(vec![FixedIndicator::up("a".to_string())]))
        .with_readiness(Readiness::new(Vec::<FixedIndicator>::new()));
    assert_eq!(
        actuator.routes().iter().map(String::as_str).collect::<Vec<_>>(),
        vec!["/health/liveness", "/health/readiness"]
    );
}

#[test]
fn diesel_defaults_to_select_one() {
    let probe = Diesel::new("db".to_string());
    assert_eq!(probe.name(), "db");
    assert_eq!(probe.query(), "select 1");
}

#[test]
fn diesel_accepts_a_custom_query() {
    let probe = Diesel::new_with_query("db".to_string(), "select version()".to_string());
    assert_eq!(probe.name(), "db");
    assert_eq!(probe.query(), "select version()");
    let copy = probe.clone();
    assert_eq!(copy.name(), "db");
    assert_eq!(copy.query(), "select version()");
}

#[test]
fn diesel_interpret_folds_both_stages() {
    assert_eq!(Diesel::interpret(Ok(Ok(()))), Ok(()));
    assert_eq!(
        Diesel::interpret(Ok(Err("query failed".to_string()))),
        Err("query failed".to_string())
    );
    assert_eq!(
        Diesel::interpret(Err("no connection".to_string())),
        Err("no connection".to_string())
    );
}

#[test]
fn tonic_carries_name_and_service() {
    let probe = Tonic::new("upstream".to_string(), "svc.Health".to_string());
    assert_eq!(probe.name(), "upstream");
    assert_eq!(probe.service(), "svc.Health");
    let copy = probe.clone();
    assert_eq!(copy.name(), "upstream");
    assert_eq!(copy.service(), "svc.Health");
}

#[test]
fn serving_status_wire_names() {
    assert_eq!(ServingStatus::Unknown.as_str_name(), "UNKNOWN");
    assert_eq!(ServingStatus::Serving.as_str_name(), "SERVING");
    assert_eq!(ServingStatus::NotServing.as_str_name(), "NOT_SERVING");
    assert_eq!(ServingStatus::ServiceUnknown.as_str_name(), "SERVICE_UNKNOWN");
}

#[test]
fn tonic_interpret_serving_is_healthy() {
    assert_eq!(Tonic::interpret(Ok(ServingStatus::Serving)), Ok(()));
}

#[test]
fn tonic_interpret_other_statuses_name_the_status() {
    assert_eq!(
        Tonic::interpret(Ok(ServingStatus::NotServing)),
        Err("grpc health check returned status NOT_SERVING".to_string())
    );
    assert_eq!(
        Tonic::interpret(Ok(ServingStatus::Unknown)),
        Err("grpc health check returned status UNKNOWN".to_string())
    );
}

#[test]
fn tonic_interpret_passes_transport_failures_through() {
    assert_eq!(
        Tonic::interpret(Err("status: Unavailable, message: refused".to_string())),
        Err("status: Unavailable, message: refused".to_string())
    );
}
