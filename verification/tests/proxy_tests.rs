use spectre::auth::{authenticate, jwt_secret, AuthError, Claims};
use spectre::circuit::{CircuitBreaker, CircuitConfig, CircuitState};
use spectre::error::SpectreError;
use spectre::events::EventType;
use spectre::observability::{
    choose_log_filter, log_filter, logging_format, plan_observability, request_labels, LogFormat,
};
use spectre::proxy::{admit_publication, publication, settle_publication, AppError};

fn breaker(threshold: usize, timeout_nanos: u128) -> CircuitBreaker {
    CircuitBreaker::new(CircuitConfig { failure_threshold: threshold, reset_timeout_nanos: timeout_nanos })
}

#[test]
fn circuit_opens_after_threshold_failures() {
    let mut cb = breaker(3, 1_000_000_000);
    assert_eq!(cb.state(), CircuitState::Closed);
    cb.record_failure();
    cb.record_failure();
    assert_eq!(cb.state(), CircuitState::Closed);
    assert!(cb.allow_request());
    cb.record_failure();
    assert_eq!(cb.state(), CircuitState::Open);
    assert_eq!(cb.failure_count(), 3);
    // Just failed: the timeout has not passed.
    assert!(!cb.allow_request());
    assert_eq!(cb.state(), CircuitState::Open);
}

#[test]
fn circuit_probe_and_recovery() {
    let mut cb = breaker(1, 1_000);
    cb.record_failure();
    assert_eq!(cb.state(), CircuitState::Open);
    assert!(!cb.allow_request_after(999));
    assert_eq!(cb.state(), CircuitState::Open);
    assert!(cb.allow_request_after(1_000));
    assert_eq!(cb.state(), CircuitState::HalfOpen);
    assert!(cb.allow_request_after(0));
    cb.record_success();
    assert_eq!(cb.state(), CircuitState::Closed);
    assert_eq!(cb.failure_count(), 0);
}

#[test]
fn circuit_probe_failure_reopens() {
    let mut cb = breaker(1, 0);
    cb.record_failure();
    assert!(cb.allow_request());
    assert_eq!(cb.state(), CircuitState::HalfOpen);
    cb.record_failure();
    assert_eq!(cb.state(), CircuitState::Open);
    assert_eq!(cb.failure_count(), 2);
}

#[test]
fn success_resets_count_without_closing_open_circuit() {
    let mut cb = breaker(2, 1_000_000_000_000);
    cb.record_failure();
    cb.record_failure();
    assert_eq!(cb.state(), CircuitState::Open);
    cb.record_success();
    assert_eq!(cb.failure_count(), 0);
    assert_eq!(cb.state(), CircuitState::Open);
}

#[test]
fn circuit_default_config() {
    let c = CircuitConfig::default();
    assert_eq!(c.failure_threshold, 5);
    assert_eq!(c.reset_timeout_nanos, 30_000_000_000);
    let mut cb = CircuitBreaker::new(c);
    for _ in 0..4 {
        cb.record_failure();
    }
    assert_eq!(cb.state(), CircuitState::Closed);
    cb.record_failure();
    assert_eq!(cb.state(), CircuitState::Open);
}

#[test]
fn zero_threshold_opens_on_first_failure() {
    let mut cb = breaker(0, 10);
    assert!(cb.allow_request());
    cb.record_failure();
    assert_eq!(cb.state(), CircuitState::Open);
}

#[test]
fn authentication_outcomes() {
    assert_eq!(authenticate(None).err(), Some(AuthError::MissingCredentials));
    assert_eq!(authenticate(Some(None)).err(), Some(AuthError::InvalidToken));
    let claims = Claims { sub: "test-user".to_string(), exp: 10_000_000_000, role: "admin".to_string() };
    let user = authenticate(Some(Some(claims))).ok().unwrap();
    assert_eq!(user.0.sub, "test-user");
    assert_eq!(AuthError::MissingCredentials.status_code(), 401);
    assert_eq!(AuthError::InvalidToken.status_code(), 401);
    assert_eq!(AuthError::MissingCredentials.message_text(), "Missing credentials");
    assert_eq!(AuthError::InvalidToken.message_text(), "Invalid token");
    assert_eq!(jwt_secret(None), "secret");
    assert_eq!(jwt_secret(Some("s3".to_string())), "s3");
}

#[test]
fn app_error_response_parts() {
    let e = AppError(SpectreError::not_found("model", "gpt-4"));
    assert_eq!(e.status_code(), 404);
    assert_eq!(e.message(), "model not found: gpt-4");
    let e = AppError(SpectreError::internal("boom"));
    assert_eq!(e.status_code(), 500);
}

#[test]
fn publication_through_the_breaker() {
    let mut cb = breaker(1, 1_000_000_000_000);
    assert!(admit_publication(&mut cb).is_ok());
    let claims = Claims { sub: "svc-a".to_string(), exp: 1, role: "r".to_string() };
    let user = authenticate(Some(Some(claims))).ok().unwrap();
    let ev = publication("test.integration".to_string(), user, "{\"foo\":\"bar\"}".to_string());
    assert_eq!(ev.event_type, EventType::Custom("test.integration".to_string()));
    assert_eq!(ev.subject(), "test.integration");
    assert_eq!(ev.source.as_str(), "svc-a");
    assert_eq!(ev.payload, "{\"foo\":\"bar\"}");
    assert_eq!(ev.cost_tag, None);
    assert_eq!(ev.auth, None);
    assert_eq!(ev.correlation_id.as_hyphenated().as_bytes()[14], b'4');

    let failed = settle_publication(&mut cb, Err(SpectreError::event_bus("down")));
    assert!(failed.is_err());
    assert_eq!(cb.state(), CircuitState::Open);
    let rejected = admit_publication(&mut cb).unwrap_err();
    assert_eq!(rejected.status_code(), 503);
    assert_eq!(rejected.to_string(), "Service 'NATS Event Bus' unavailable: Circuit Open");
}

#[test]
fn settled_success_closes_half_open() {
    let mut cb = breaker(1, 0);
    cb.record_failure();
    assert!(admit_publication(&mut cb).is_ok());
    assert_eq!(cb.state(), CircuitState::HalfOpen);
    assert!(settle_publication(&mut cb, Ok(())).is_ok());
    assert_eq!(cb.state(), CircuitState::Closed);
}

#[test]
fn observability_choices() {
    let p = plan_observability(None, None, None);
    assert_eq!(p.log_level, "info");
    assert_eq!(p.format, LogFormat::Pretty);
    assert!(p.otlp_endpoint.is_none());
    let p = plan_observability(
        Some("debug".to_string()),
        Some("json".to_string()),
        Some("http://otel:4317".to_string()),
    );
    assert_eq!(p.log_level, "debug");
    assert_eq!(p.format, LogFormat::Json);
    assert_eq!(p.otlp_endpoint.as_deref(), Some("http://otel:4317"));
    assert_eq!(plan_observability(None, Some("JSON".to_string()), None).format, LogFormat::Pretty);
}

#[test]
fn logging_format_follows_environment() {
    let env = spectre::config::EnvVars {
        spectre_service_id: Some("svc".to_string()),
        spectre_service_name: None,
        spectre_env: Some("prod".to_string()),
        nats_url: Some("nats://localhost:4222".to_string()),
        rust_log: None,
        timescaledb_url: None,
        neo4j_uri: None,
    };
    let mut c = spectre::config::Config::from_env(env).unwrap();
    assert_eq!(logging_format(&c), LogFormat::Json);
    c.service.environment = "dev".to_string();
    assert_eq!(logging_format(&c), LogFormat::Pretty);
}

#[test]
fn log_filter_falls_back_to_valid_directives() {
    let env = spectre::config::EnvVars {
        spectre_service_id: Some("svc".to_string()),
        spectre_service_name: None,
        spectre_env: None,
        nats_url: Some("nats://localhost:4222".to_string()),
        rust_log: Some("debug".to_string()),
        timescaledb_url: None,
        neo4j_uri: None,
    };
    let mut c = spectre::config::Config::from_env(env).unwrap();
    assert_eq!(log_filter(None, &c), "debug");
    assert_eq!(log_filter(Some("warn,hyper=error".to_string()), &c), "warn,hyper=error");
    assert_eq!(log_filter(Some("app=notalevel".to_string()), &c), "debug");
    c.observability.log_level = "x=verbose".to_string();
    assert_eq!(log_filter(None, &c), "info");
    assert_eq!(log_filter(Some("app=notalevel".to_string()), &c), "info");
    assert_eq!(log_filter(Some(String::new()), &c), "");
    assert_eq!(choose_log_filter(Some("a".to_string()), false, "b", true), "b");
    assert_eq!(choose_log_filter(Some("a".to_string()), true, "b", true), "a");
    assert_eq!(choose_log_filter(None, true, "b", false), "info");
}

#[test]
fn request_metric_labels() {
    let (m, p, s) = request_labels("POST", "/api/v1/publish", 200);
    assert_eq!((m.as_str(), p.as_str(), s.as_str()), ("POST", "/api/v1/publish", "200"));
    assert_eq!(request_labels("GET", "/health", 503).2, "503");
}
