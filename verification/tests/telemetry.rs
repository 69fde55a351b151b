use codex_sdk::error::Error;
use codex_sdk::observability::{
    env_bool, exporter_from_env, exporter_kind, first_env, first_non_empty, merged_headers, parse_key_value_list,
    Observability, ObservabilityBuilder, ObservabilityGuard, OtelExporter, OtelHttpProtocol, Signal,
};
use codex_sdk::text_map::TextMap;
use std::path::PathBuf;

fn environment(entries: &[(&str, &str)]) -> TextMap<String> {
    let mut map: TextMap<String> = TextMap::new();
    for (key, value) in entries {
        let _ = map.insert(key.to_string(), value.to_string());
    }
    map
}

fn builder() -> ObservabilityBuilder {
    Observability::builder(PathBuf::from("."))
}

fn from_env(entries: &[(&str, &str)]) -> ObservabilityBuilder {
    match Observability::from_env(PathBuf::from("."), &environment(entries)) {
        Ok(builder) => builder,
        Err(error) => panic!("environment should apply: {}", error.message()),
    }
}

fn text(map: &TextMap<String>, key: &str) -> Option<String> {
    map.get(key).cloned()
}

#[test]
fn first_non_empty_skips_empty_higher_priority_values() {
    assert_eq!(
        first_non_empty(vec!["  ".to_string(), "fallback".to_string()]),
        Some("fallback".to_string())
    );
}

#[test]
fn key_value_list_rejects_malformed_entries() {
    assert!(parse_key_value_list("valid=one,invalid").is_err());
}

#[test]
fn builder_debug_redacts_exporter_endpoints_and_headers() {
    let builder = builder().logs_exporter(OtelExporter::OtlpHttp {
        endpoint: "https://collector.test/path-secret".to_string(),
        headers: environment(&[("authorization", "header-secret")]),
        protocol: OtelHttpProtocol::Binary,
        tls: None,
    });

    let debug = builder.debug_text();
    assert!(debug.contains("otlp_http"));
    assert!(!debug.contains("path-secret"));
    assert!(!debug.contains("header-secret"));
}

#[test]
fn the_debug_text_is_exact() {
    let builder = builder().span_attribute("a".to_string(), "b".to_string()).no_env_filter().fmt_layer(false);
    assert_eq!(
        builder.debug_text(),
        "ObservabilityBuilder { environment: \"development\", service_name: \"codex-sdk-rs\", service_version: \"0.1.0\", logs_exporter: \"none\", traces_exporter: \"none\", metrics_exporter: \"none\", runtime_metrics: false, span_attribute_count: 1, tracestate_count: 0, env_filter: None, install_subscriber: true, fmt_layer: false }"
    );
}

#[test]
fn key_value_lists_are_trimmed_and_may_have_gaps() {
    let pairs = match parse_key_value_list(" a = 1 ,, b=x=y ,\tc=\u{a0}") {
        Ok(pairs) => pairs,
        Err(error) => panic!("list should parse: {}", error.message()),
    };
    let expected: Vec<(String, String)> = vec![
        ("a".to_string(), "1".to_string()),
        ("b".to_string(), "x=y".to_string()),
        ("c".to_string(), String::new()),
    ];
    assert_eq!(pairs, expected);
    assert!(matches!(parse_key_value_list(" , "), Ok(pairs) if pairs.is_empty()));
    assert!(matches!(
        parse_key_value_list("a=1, \"bad\" ,worse"),
        Err(Error::Observability { source })
            if source == "expected key=value entry in comma-separated list: \"\\\"bad\\\"\""
    ));
}

#[test]
fn truth_values_have_their_spellings() {
    let env = environment(&[("A", " YES "), ("B", "off"), ("C", "maybe"), ("D", "1")]);
    assert_eq!(env_bool(&env, "A"), Some(true));
    assert_eq!(env_bool(&env, "B"), Some(false));
    assert_eq!(env_bool(&env, "C"), None);
    assert_eq!(env_bool(&env, "D"), Some(true));
    assert_eq!(env_bool(&env, "E"), None);
}

#[test]
fn earlier_variables_win_unless_blank() {
    let env = environment(&[("A", " "), ("B", " b "), ("C", "c")]);
    assert_eq!(first_env(&env, &vec!["A", "B", "C"]), Some(" b ".to_string()));
    assert_eq!(first_env(&env, &vec!["C", "B"]), Some("c".to_string()));
    assert_eq!(first_env(&env, &vec!["X", "A"]), None);
}

#[test]
fn signal_variables_win_over_common_ones() {
    let env = environment(&[
        ("OTEL_EXPORTER_OTLP_ENDPOINT", "https://common"),
        ("OTEL_EXPORTER_OTLP_TRACES_ENDPOINT", "https://traces"),
        ("OTEL_EXPORTER_OTLP_TRACES_PROTOCOL", "grpc"),
        ("OTEL_EXPORTER_OTLP_PROTOCOL", "http/json"),
        ("OTEL_EXPORTER_OTLP_HEADERS", "a=1,b=1"),
        ("OTEL_EXPORTER_OTLP_TRACES_HEADERS", "b=2"),
    ]);
    match exporter_from_env(&env, Signal::Traces) {
        Ok(OtelExporter::OtlpGrpc { endpoint, headers, tls }) => {
            assert_eq!(endpoint, "https://traces");
            assert_eq!(text(&headers, "a").as_deref(), Some("1"));
            assert_eq!(text(&headers, "b").as_deref(), Some("2"));
            assert!(tls.is_none());
        }
        _ => panic!("traces go out over gRPC"),
    }
    match exporter_from_env(&env, Signal::Logs) {
        Ok(OtelExporter::OtlpHttp { endpoint, headers, protocol, .. }) => {
            assert_eq!(endpoint, "https://common");
            assert_eq!(text(&headers, "b").as_deref(), Some("1"));
            assert_eq!(protocol, OtelHttpProtocol::Json);
        }
        _ => panic!("logs go out over HTTP"),
    }
    assert!(matches!(merged_headers(&env, Signal::Metrics), Ok(headers) if headers.len() == 2));
}

#[test]
fn exporters_without_endpoint_are_disabled() {
    let env = environment(&[("OTEL_EXPORTER_OTLP_PROTOCOL", "nonsense")]);
    assert!(matches!(exporter_from_env(&env, Signal::Metrics), Ok(OtelExporter::Disabled)));
}

#[test]
fn unknown_protocols_and_bad_headers_are_refused() {
    let env = environment(&[
        ("OTEL_EXPORTER_OTLP_ENDPOINT", "https://common"),
        ("OTEL_EXPORTER_OTLP_PROTOCOL", "carrier pigeon"),
    ]);
    assert!(matches!(
        exporter_from_env(&env, Signal::Logs),
        Err(Error::Observability { source }) if source == "unsupported OTEL protocol \"carrier pigeon\""
    ));
    let env = environment(&[
        ("OTEL_EXPORTER_OTLP_ENDPOINT", "https://common"),
        ("OTEL_EXPORTER_OTLP_PROTOCOL", "carrier pigeon"),
        ("OTEL_EXPORTER_OTLP_LOGS_HEADERS", "broken"),
    ]);
    assert!(matches!(
        exporter_from_env(&env, Signal::Logs),
        Err(Error::Observability { source })
            if source == "expected key=value entry in comma-separated list: \"broken\""
    ));
}

#[test]
fn a_disabled_environment_only_disables() {
    let env = environment(&[("OTEL_SDK_DISABLED", "true"), ("OTEL_SERVICE_NAME", "other")]);
    let applied = builder().otlp_http("https://common".to_string()).with_env(&env);
    let builder = match applied {
        Ok(builder) => builder,
        Err(error) => panic!("environment should apply: {}", error.message()),
    };
    assert_eq!(builder.settings().service_name, "codex-sdk-rs");
    assert_eq!(exporter_kind(&builder.settings().exporter), "none");
}

#[test]
fn the_environment_names_the_service() {
    let builder = from_env(&[
        ("OTEL_SERVICE_NAME", "named"),
        ("OTEL_SERVICE_VERSION", "2"),
        ("CODEX_ENV", "staging"),
        ("APP_ENV", "ignored"),
        ("RUST_LOG", "debug"),
        ("CODEX_SDK_OTEL_RUNTIME_METRICS", "on"),
        ("OTEL_RESOURCE_ATTRIBUTES", "service.name=attribute,team=sdk,deployment.environment.name=prod"),
    ]);
    let settings = builder.settings();
    assert_eq!(settings.service_name, "attribute");
    assert_eq!(settings.service_version, "2");
    assert_eq!(settings.environment, "prod");
    assert!(settings.runtime_metrics);
    assert_eq!(text(&settings.span_attributes, "team").as_deref(), Some("sdk"));
    assert_eq!(settings.span_attributes.len(), 1);
    assert_eq!(builder.env_filter.as_deref(), Some("debug"));
}

#[test]
fn the_environment_replaces_exporters() {
    let applied = builder().otlp_grpc("https://common".to_string()).with_env(&environment(&[]));
    match applied {
        Ok(builder) => assert_eq!(exporter_kind(&builder.settings().trace_exporter), "none"),
        Err(error) => panic!("environment should apply: {}", error.message()),
    }
}

#[test]
fn setters_change_what_they_name() {
    let mut builder = builder()
        .environment("prod".to_string())
        .service_name("svc".to_string())
        .service_version("3".to_string())
        .codex_home(PathBuf::from("/home"))
        .traces_exporter(OtelExporter::Statsig)
        .metrics_exporter(OtelExporter::Disabled)
        .runtime_metrics(true)
        .tracestate_field("vendor".to_string(), "a".to_string(), "1".to_string())
        .tracestate_field("vendor".to_string(), "b".to_string(), "2".to_string())
        .env_filter("warn".to_string())
        .install_subscriber(false);
    assert_eq!(builder.settings().environment, "prod");
    assert_eq!(exporter_kind(&builder.settings().trace_exporter), "statsig");
    assert_eq!(builder.settings().tracestate.len(), 1);
    assert_eq!(builder.settings().tracestate.get("vendor").map(|fields| fields.len()), Some(2));
    assert!(!builder.install_subscriber);
    builder.settings_mut().service_name = "renamed".to_string();
    assert_eq!(builder.settings().service_name, "renamed");
    let grpc = builder.otlp_grpc("https://g".to_string());
    assert_eq!(exporter_kind(&grpc.settings().metrics_exporter), "otlp_grpc");
    let http = grpc.all_exporters(OtelExporter::Statsig).otlp_http("https://h".to_string());
    assert_eq!(exporter_kind(&http.settings().exporter), "otlp_http");
}

#[test]
fn a_provider_is_shut_down_once() {
    let mut guard = ObservabilityGuard::new(true);
    assert!(guard.provider());
    assert!(guard.shutdown());
    assert!(!guard.shutdown());
    let mut empty = ObservabilityGuard::new(false);
    assert!(!empty.shutdown());
}

#[test]
fn white_space_is_what_unicode_says() {
    let spaced = "\u{2003}\t a b\u{85}=\u{3000}1 \u{1680}";
    let pairs = match parse_key_value_list(spaced) {
        Ok(pairs) => pairs,
        Err(error) => panic!("list should parse: {}", error.message()),
    };
    assert_eq!(pairs, vec![("a b".to_string(), "1".to_string())]);
    assert_eq!(first_non_empty(vec![" \u{a0}\u{2028}\n".to_string()]), None);
    assert_eq!(first_non_empty(vec!["\u{200b}".to_string()]), Some("\u{200b}".to_string()));
}

#[test]
fn only_ascii_letters_lose_their_case() {
    let env = environment(&[("A", "o\u{4e}"), ("B", "\u{212a}"), ("C", "\u{ff4f}n")]);
    assert_eq!(env_bool(&env, "A"), Some(true));
    assert_eq!(env_bool(&env, "B"), None);
    assert_eq!(env_bool(&env, "C"), None);
}

#[test]
fn a_cloned_builder_keeps_its_settings() {
    let builder = builder()
        .span_attribute("a".to_string(), "b".to_string())
        .tracestate_field("m".to_string(), "k".to_string(), "v".to_string());
    let mut copy = builder.clone();
    assert_eq!(copy.debug_text(), builder.debug_text());
    let fields = copy.settings.tracestate.remove("m");
    assert_eq!(fields.and_then(|mut fields| fields.remove("k")).as_deref(), Some("v"));
    assert_eq!(builder.settings.tracestate.len(), 1);
}
