use spectre::bus::{plan_connection, request_timeout_error, seed_from_file, NatsEnv, NkeySource};
use spectre::events::{Event, EventBusConfig, EventType, DURATION_MAX_NANOS};
use spectre::types::{CorrelationId, ServiceId};

fn no_env() -> NatsEnv {
    NatsEnv { nkey_seed: None, nkey_seed_file: None, ca_file: None, client_cert_file: None, client_key_file: None }
}

#[test]
fn test_subscriber_creation() {
    // This test just verifies the structure compiles
    // Actual subscription testing requires NATS server
}

#[test]
fn test_07_correlation_id_propagation() {
    let correlation_id = CorrelationId::generate();

    let event1 = Event::with_correlation(
        EventType::LlmRequest,
        ServiceId::new("service-1"),
        correlation_id,
        "{\"step\":1}".to_string(),
    );

    let event2 = Event::with_correlation(
        EventType::LlmResponse,
        ServiceId::new("service-2"),
        correlation_id,
        "{\"step\":2}".to_string(),
    );

    assert_eq!(event1.correlation_id, event2.correlation_id);
}

#[test]
fn test_08_all_event_types() {
    let event_types = vec![
        EventType::LlmRequest,
        EventType::LlmResponse,
        EventType::InferenceRequest,
        EventType::InferenceResponse,
        EventType::VramStatus,
        EventType::AnalysisRequest,
        EventType::AnalysisResponse,
        EventType::SystemMetrics,
        EventType::CostIncurred,
    ];

    for event_type in event_types {
        let event = Event::new(event_type.clone(), ServiceId::new("test"), "{}".to_string());
        let subject = event.subject();
        assert!(!subject.is_empty(), "Subject should not be empty");
    }
}

#[test]
fn event_subjects() {
    assert_eq!(EventType::SystemMetrics.subject(), "system.metrics.v1");
    assert_eq!(EventType::LlmRequest.subject(), "llm.request.v1");
    assert_eq!(EventType::Custom("test.event.v1".to_string()).subject(), "test.event.v1");
}

#[test]
fn event_builders() {
    let cid = CorrelationId::from_uuid(5);
    let e = Event::new(EventType::SystemMetrics, ServiceId::new("test"), "{\"cpu\":75.5}".to_string())
        .with_cost_tag("project-alpha")
        .with_auth("spectre-proxy")
        .with_correlation_id(cid);
    assert_eq!(e.cost_tag.as_deref(), Some("project-alpha"));
    assert_eq!(e.auth.as_deref(), Some("spectre-proxy"));
    assert_eq!(e.correlation_id, cid);
    assert_eq!(e.payload, "{\"cpu\":75.5}");
    let a = Event::new(EventType::SystemMetrics, ServiceId::new("t"), "{}".to_string());
    let b = Event::new(EventType::SystemMetrics, ServiceId::new("t"), "{}".to_string());
    assert_ne!(a.event_id, b.event_id);
    assert_ne!(a.correlation_id, b.correlation_id);
}

#[test]
fn event_bus_config_defaults() {
    let c = EventBusConfig::default();
    assert_eq!(c.urls, vec!["nats://localhost:4222".to_string()]);
    assert_eq!(c.max_reconnects, 10);
    assert_eq!(c.reconnect_delay_nanos, 1_000_000_000);
    assert_eq!(c.name, "spectre-event-bus");
    let c = EventBusConfig::for_url("nats://other:4222".to_string());
    assert_eq!(c.urls, vec!["nats://other:4222".to_string()]);
    assert_eq!(c.reconnect_delay_for(0), 0);
    assert_eq!(c.reconnect_delay_for(1), 1_000_000_000);
    assert_eq!(c.reconnect_delay_for(3), 4_000_000_000);
}

#[test]
fn reconnect_backoff_is_exponential() {
    let mut c = EventBusConfig::default();
    let delays: Vec<u128> = (1..=10).map(|n| c.reconnect_delay_for(n)).collect();
    let expected: Vec<u128> = (0..10).map(|k| 1_000_000_000u128 << k).collect();
    assert_eq!(delays, expected);
    assert_eq!(c.reconnect_delay_for(10), 512_000_000_000);
    assert_eq!(c.reconnect_delay_for(40), 549_755_813_888_000_000_000);
    // Held at the longest Duration only once it no longer fits in one.
    assert_eq!(c.reconnect_delay_for(usize::MAX), DURATION_MAX_NANOS);
    assert_eq!(DURATION_MAX_NANOS, std::time::Duration::MAX.as_nanos());
    c.reconnect_delay_nanos = 250_000_000;
    assert_eq!(c.reconnect_delay_for(2), 500_000_000);
    assert_eq!(c.reconnect_delay_for(9), 64_000_000_000);
    c.reconnect_delay_nanos = u128::MAX;
    assert_eq!(c.reconnect_delay_for(1), DURATION_MAX_NANOS);
    c.reconnect_delay_nanos = 0;
    assert_eq!(c.reconnect_delay_for(40), 0);
    assert_eq!(c.reconnect_delay_for(usize::MAX), 0);
}

#[test]
fn connection_plan_filters_urls() {
    let mut c = EventBusConfig::default();
    c.urls = vec![
        "nats://a:4222".to_string(),
        "http://bad:80".to_string(),
        "b:4222".to_string(),
        "tls://secure:4222".to_string(),
    ];
    let p = plan_connection(&c, &no_env()).unwrap();
    assert_eq!(p.max_reconnects, c.max_reconnects);
    assert_eq!(p.urls, vec!["nats://a:4222".to_string(), "b:4222".to_string(), "tls://secure:4222".to_string()]);
    assert!(p.require_tls);
    assert_eq!(p.name, "spectre-event-bus");
    assert!(p.nkey.is_none());

    c.urls = vec!["http://x".to_string()];
    let e = plan_connection(&c, &no_env()).unwrap_err();
    assert_eq!(e.to_string(), "Event bus error: No valid NATS URLs provided");

    c.urls = vec!["nats://a:4222".to_string()];
    assert!(!plan_connection(&c, &no_env()).unwrap().require_tls);
}

#[test]
fn connection_plan_credentials() {
    let c = EventBusConfig::default();
    let env = NatsEnv {
        nkey_seed: Some("  SUAKEY  ".to_string()),
        nkey_seed_file: Some("/etc/seed".to_string()),
        ca_file: Some(" /etc/ca.pem ".to_string()),
        client_cert_file: Some("cert.pem".to_string()),
        client_key_file: Some("  ".to_string()),
    };
    let p = plan_connection(&c, &env).unwrap();
    match p.nkey {
        Some(NkeySource::Seed(s)) => assert_eq!(s, "SUAKEY"),
        other => panic!("unexpected {:?}", other),
    }
    assert_eq!(p.root_certificates.as_deref(), Some("/etc/ca.pem"));
    assert!(p.client_certificate.is_none());

    let env = NatsEnv {
        nkey_seed: Some("   ".to_string()),
        nkey_seed_file: Some(" /etc/seed ".to_string()),
        ca_file: Some("".to_string()),
        client_cert_file: Some("cert.pem".to_string()),
        client_key_file: Some("key.pem".to_string()),
    };
    let p = plan_connection(&c, &env).unwrap();
    match p.nkey {
        Some(NkeySource::File(f)) => assert_eq!(f, "/etc/seed"),
        other => panic!("unexpected {:?}", other),
    }
    assert!(p.root_certificates.is_none());
    assert_eq!(p.client_certificate, Some(("cert.pem".to_string(), "key.pem".to_string())));
}

#[test]
fn seed_file_lines() {
    assert_eq!(seed_from_file("# comment\n\n  SUASEED  \nother\n").as_deref(), Some("SUASEED"));
    assert_eq!(seed_from_file("   # indented comment\r\nSEED2\r\n").as_deref(), Some("SEED2"));
    assert_eq!(seed_from_file("LAST"), Some("LAST".to_string()));
    assert_eq!(seed_from_file("# only\n   \n"), None);
    assert_eq!(seed_from_file(""), None);
}

#[test]
fn request_timeouts() {
    let e = request_timeout_error("llm.request.v1", 30);
    assert_eq!(e.to_string(), "Operation timed out after 30s: request to llm.request.v1");
    assert!(e.is_retryable());
}
