use relayer_metrics::endpoints::{
    db_health_status_code, health_status_code, liveness_label, liveness_status_code,
    metrics_content_type, readiness_error_label, readiness_label, readiness_status_code,
};
use relayer_metrics::health::{
    uptime_seconds, ComponentHealth, DetailValue, HealthChecker, HealthStatus, SystemHealth,
};
use relayer_metrics::shutdown::ShutdownCoordinator;

fn probe(name: &str, health: ComponentHealth) -> (String, ComponentHealth) {
    (String::from(name), health)
}

#[test]
fn all_healthy_probes_give_healthy_overall() {
    let checker = HealthChecker::new();
    let probes = vec![
        probe("database", ComponentHealth::healthy("Database connection active")),
        probe("rpc", ComponentHealth::healthy("RPC reachable")),
    ];
    let system = checker.check_system_health(probes, 3600);
    assert!(matches!(system.overall_status, HealthStatus::Healthy));
    assert_eq!(system.components.len(), 2);
    assert_eq!(system.uptime_seconds, 3600);
}

#[test]
fn one_unhealthy_probe_dominates() {
    let checker = HealthChecker::new();
    let probes = vec![
        probe("database", ComponentHealth::healthy("ok")),
        probe("rpc", ComponentHealth::unhealthy("probe timed out")),
        probe("queue", ComponentHealth::degraded("slow")),
    ];
    let system = checker.check_system_health(probes, 10);
    assert!(matches!(system.overall_status, HealthStatus::Unhealthy));
}

#[test]
fn degraded_without_unhealthy_gives_degraded() {
    let checker = HealthChecker::new();
    let probes = vec![
        probe("database", ComponentHealth::healthy("ok")),
        probe("queue", ComponentHealth::degraded("slow")),
    ];
    let system = checker.check_system_health(probes, 10);
    assert!(matches!(system.overall_status, HealthStatus::Degraded));
}

#[test]
fn no_probes_give_healthy_overall() {
    let checker = HealthChecker::new();
    let system = checker.check_system_health(Vec::new(), 0);
    assert!(matches!(system.overall_status, HealthStatus::Healthy));
}

#[test]
fn component_health_builders_fill_fields() {
    let h = ComponentHealth::healthy("Database connection active")
        .with_response_time(5)
        .with_detail("active_connections", DetailValue::Integer(10));
    assert!(matches!(h.status, HealthStatus::Healthy));
    assert_eq!(h.message, "Database connection active");
    assert_eq!(h.response_time_ms, Some(5));
    assert_eq!(h.details.len(), 1);
    assert_eq!(h.details[0].0, "active_connections");
    assert!(matches!(h.details[0].1, DetailValue::Integer(10)));
}

#[test]
fn with_detail_replaces_an_existing_key() {
    let h = ComponentHealth::healthy("ok")
        .with_detail("mode", DetailValue::Text(String::from("warm")))
        .with_detail("mode", DetailValue::Text(String::from("hot")));
    assert_eq!(h.details.len(), 1);
    assert_eq!(h.details[0].0, "mode");
    match &h.details[0].1 {
        DetailValue::Text(t) => assert_eq!(t, "hot"),
        _ => panic!("detail must be text"),
    }
}

#[test]
fn add_component_replaces_an_existing_name() {
    let mut system = SystemHealth::new(42);
    system.add_component("database", ComponentHealth::healthy("first"));
    system.add_component("database", ComponentHealth::unhealthy("second"));
    assert_eq!(system.components.len(), 1);
    assert!(matches!(system.components[0].1.status, HealthStatus::Unhealthy));
    assert_eq!(system.uptime_seconds, 42);
}

#[test]
fn readiness_follows_the_db_probe() {
    assert_eq!(readiness_status_code(true), 200);
    assert_eq!(readiness_status_code(false), 503);
    assert_eq!(readiness_label(true), "ready");
    assert_eq!(readiness_label(false), "not_ready");
    assert_eq!(readiness_error_label(), "Database connection failed");
}

#[test]
fn liveness_is_unconditional() {
    assert_eq!(liveness_status_code(), 200);
    assert_eq!(liveness_label(), "alive");
}

#[test]
fn db_health_follows_the_ping() {
    assert_eq!(db_health_status_code(true), 200);
    assert_eq!(db_health_status_code(false), 500);
}

#[test]
fn health_endpoint_rejects_only_unhealthy() {
    assert_eq!(health_status_code(HealthStatus::Healthy), 200);
    assert_eq!(health_status_code(HealthStatus::Degraded), 200);
    assert_eq!(health_status_code(HealthStatus::Unhealthy), 503);
}

#[test]
fn metrics_response_content_type() {
    assert_eq!(metrics_content_type(), "text/plain; version=0.0.4; charset=utf-8");
}

#[test]
fn shutdown_runs_exactly_once() {
    let mut coordinator = ShutdownCoordinator::new();
    assert!(coordinator.request_shutdown());
    assert!(!coordinator.request_shutdown());
    assert!(!coordinator.request_shutdown());
}

#[test]
fn uptime_counts_whole_seconds() {
    assert_eq!(uptime_seconds(1000, 4500), 3);
    assert_eq!(uptime_seconds(0, 0), 0);
    assert_eq!(uptime_seconds(5000, 1000), 0);
}
