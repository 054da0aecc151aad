use pg_otel::config::{
    get_otlp_authorization, get_otlp_ca_certificate, get_otlp_endpoint, get_otlp_protocol,
    get_otlp_service_name, get_otlp_traceparent, ExporterConfig, GucContext, GucKind, GucValues,
};
use pg_otel::worker::{
    after_reload, build_exporter_plan, queue_disposal, select_protocol, ExportProtocol, ExporterTransport,
    PlanRefusal, QueueDisposal,
};

fn values() -> GucValues {
    GucValues {
        endpoint: Some(b"http://collector:4317".to_vec()),
        protocol: Some(b"grpc".to_vec()),
        timeout_ms: 5000,
        authorization: None,
        ca_certificate: None,
        service_name: None,
        traceparent: None,
    }
}

fn config(protocol: &str, authorization: Option<&str>) -> ExporterConfig {
    ExporterConfig {
        endpoint: "https://localhost:4317".to_string(),
        protocol: protocol.to_string(),
        timeout_ms: 5000,
        authorization: authorization.map(|a| a.to_string()),
        ca_certificate: Some("/etc/ssl/ca.pem".to_string()),
        service_name: "postgresql".to_string(),
    }
}

#[test]
fn guc_definitions() {
    let gucs = ExporterConfig::define_gucs();
    let names: Vec<&str> = gucs.iter().map(|g| g.name).collect();
    assert_eq!(
        names,
        vec![
            "pg_otel.otlp_endpoint",
            "pg_otel.otlp_protocol",
            "pg_otel.otlp_timeout_ms",
            "pg_otel.otlp_authorization",
            "pg_otel.otlp_ca_certificate",
            "otel.service.name",
            "pg_otel.traceparent",
        ]
    );
    assert_eq!(gucs[0].kind, GucKind::Text { default_text: Some("http://localhost:4317") });
    assert_eq!(gucs[1].kind, GucKind::Text { default_text: Some("grpc") });
    assert_eq!(gucs[2].kind, GucKind::Integer { default_int: 10_000, min: 1, max: 86_400_000 });
    assert_eq!(gucs[5].kind, GucKind::Text { default_text: Some("postgresql") });
    assert_eq!(gucs[6].context, GucContext::Userset);
    assert!(gucs[6].disallow_in_file);
    assert!(gucs[..6].iter().all(|g| g.context == GucContext::Sighup && !g.disallow_in_file));
}

#[test]
fn setting_getters() {
    let mut v = values();
    v.protocol = Some(b"\xff".to_vec());
    v.authorization = Some(b"ApiKey k".to_vec());
    v.service_name = Some(b"billing-db".to_vec());
    v.traceparent = Some(b"00-4bf92f3577b34da6a3ce929d0e0e4736-00f067aa0ba902b7-01".to_vec());
    assert_eq!(get_otlp_endpoint(&v), Some("http://collector:4317".to_string()));
    assert_eq!(get_otlp_protocol(&v), None);
    assert_eq!(get_otlp_authorization(&v), Some("ApiKey k".to_string()));
    assert_eq!(get_otlp_ca_certificate(&v), None);
    assert_eq!(
        get_otlp_traceparent(&v),
        Some("00-4bf92f3577b34da6a3ce929d0e0e4736-00f067aa0ba902b7-01".to_string())
    );
    assert_eq!(get_otlp_service_name(&v), "billing-db");
    v.endpoint = None;
    v.traceparent = None;
    assert_eq!(get_otlp_endpoint(&v), None);
    assert_eq!(get_otlp_traceparent(&v), None);
    v.service_name = None;
    assert_eq!(get_otlp_service_name(&v), "postgresql");
    v.service_name = Some(b"\xc0".to_vec());
    assert_eq!(get_otlp_service_name(&v), "postgresql");
}

#[test]
fn load_requires_endpoint_and_protocol() {
    let config = ExporterConfig::load(&values()).unwrap();
    assert_eq!(config.endpoint, "http://collector:4317");
    assert_eq!(config.protocol, "grpc");
    assert_eq!(config.timeout_ms, 5000);
    assert_eq!(config.authorization, None);
    assert_eq!(config.service_name, "postgresql");
    let mut v = values();
    v.endpoint = None;
    assert!(ExporterConfig::load(&v).is_none());
    let mut v = values();
    v.protocol = Some(b"\xff\xfe".to_vec());
    assert!(ExporterConfig::load(&v).is_none());
    let mut v = values();
    v.timeout_ms = -1;
    v.authorization = Some(b"Bearer t".to_vec());
    v.ca_certificate = Some(b"/ca.pem".to_vec());
    let config = ExporterConfig::load(&v).unwrap();
    assert_eq!(config.timeout_ms, u32::MAX);
    assert_eq!(config.authorization.as_deref(), Some("Bearer t"));
    assert_eq!(config.ca_certificate.as_deref(), Some("/ca.pem"));
}

#[test]
fn protocols_are_matched_case_insensitively() {
    assert_eq!(select_protocol("grpc"), Some(ExportProtocol::Grpc));
    assert_eq!(select_protocol("GRPC-Tonic"), Some(ExportProtocol::Grpc));
    assert_eq!(select_protocol("http"), Some(ExportProtocol::Http));
    assert_eq!(select_protocol("HTTP/Protobuf"), Some(ExportProtocol::Http));
    assert_eq!(select_protocol("http-binary"), Some(ExportProtocol::Http));
    assert_eq!(select_protocol("http/json"), None);
    assert_eq!(select_protocol(""), None);
    assert_eq!(select_protocol("grpc "), None);
}

#[test]
fn grpc_plan_keeps_metadata_and_certificate() {
    let plan = build_exporter_plan(config("gRPC", Some("ApiKey secret"))).unwrap();
    assert_eq!(plan.endpoint, "https://localhost:4317");
    assert_eq!(plan.timeout_ms, 5000);
    assert_eq!(plan.service_name, "postgresql");
    match plan.transport {
        ExporterTransport::Grpc { ca_certificate, authorization } => {
            assert_eq!(ca_certificate.as_deref(), Some("/etc/ssl/ca.pem"));
            assert_eq!(authorization.as_deref(), Some("ApiKey secret"));
        }
        _ => panic!("a gRPC exporter"),
    }
}

#[test]
fn grpc_plan_refuses_invalid_authorization() {
    assert_eq!(
        build_exporter_plan(config("grpc", Some("bad\nvalue"))).unwrap_err(),
        PlanRefusal::InvalidAuthorization
    );
    assert_eq!(build_exporter_plan(config("grpc", Some("tab\tok"))).is_ok(), true);
}

#[test]
fn http_plan_sends_authorization_header() {
    let plan = build_exporter_plan(config("http/protobuf", Some("bad\nvalue"))).unwrap();
    match plan.transport {
        ExporterTransport::Http { headers } => {
            assert_eq!(headers, vec![("Authorization".to_string(), "bad\nvalue".to_string())]);
        }
        _ => panic!("an HTTP exporter"),
    }
    let plan = build_exporter_plan(config("http", None)).unwrap();
    match plan.transport {
        ExporterTransport::Http { headers } => assert!(headers.is_empty()),
        _ => panic!("an HTTP exporter"),
    }
}

#[test]
fn unsupported_protocol_gives_no_exporter() {
    assert_eq!(build_exporter_plan(config("zipkin", None)).unwrap_err(), PlanRefusal::UnsupportedProtocol);
}

#[test]
fn reload_failure_keeps_the_exporter() {
    assert_eq!(after_reload(Some(1), None), (Some(1), false));
    assert_eq!(after_reload(Some(1), Some(2)), (Some(2), true));
    assert_eq!(after_reload(None::<u8>, None), (None, false));
}

#[test]
fn queue_is_discarded_without_exporter() {
    assert_eq!(queue_disposal(true), QueueDisposal::Export);
    assert_eq!(queue_disposal(false), QueueDisposal::Discard);
}

#[test]
fn empty_ca_certificate_means_no_custom_ca() {
    let mut c = config("grpc", None);
    c.ca_certificate = Some(String::new());
    match build_exporter_plan(c).unwrap().transport {
        ExporterTransport::Grpc { ca_certificate, .. } => assert_eq!(ca_certificate, None),
        _ => panic!("a gRPC exporter"),
    }
}
