use std::time::Duration;

use adp_config::config_system::translate::{
    build_endpoints, parse_listen_address, resolve_intake_url, CompressionConfig, CompressionKind, PipelineGates,
    PrivateKnobs, TlsMinimumVersion, Translator,
};
use adp_config::data_plane::ListenAddress;

fn private_for_datadog_agent() -> PrivateKnobs {
    PrivateKnobs {
        compression: CompressionConfig { kind: CompressionKind::Zstd, zstd_level: 3 },
        otlp_context_string_interner_bytes: 2 * 1024 * 1024,
        otlp_cached_contexts_limit: 500_000,
        otlp_cached_tagsets_limit: 500_000,
        otlp_allow_context_heap_allocations: true,
        mapper_string_interner_bytes: 512 * 1024,
        mapper_cache_size: 1000,
    }
}

#[test]
fn translates_supported_keys_into_native_config() {
    let private = private_for_datadog_agent();
    let gates = PipelineGates { enabled: true, dogstatsd_enabled: true, checks_enabled: false, otlp_enabled: false };

    let mut t = Translator::new(&private, gates);
    t.consume_dogstatsd_port(8200);
    t.consume_api_key(Some("test-api-key".to_string()));
    t.consume_forwarder_timeout(30);
    t.consume_serializer_compressor_kind(Some("zstd".to_string()));
    t.consume_skip_ssl_validation(true);
    let saluki = t.finish();

    // Witnessed Datadog keys land in their native destinations.
    assert_eq!(saluki.dogstatsd.port, Some(8200));
    assert_eq!(saluki.forwarder.request_timeout, Some(Duration::from_secs(30)));
    assert!(saluki.skip_ssl_validation);
    assert_eq!(saluki.metrics_compression.kind, CompressionKind::Zstd);

    // The primary endpoint is assembled from the API key plus the default intake URL.
    assert_eq!(saluki.endpoints.len(), 1);
    let endpoint = &saluki.endpoints[0];
    assert_eq!(endpoint.api_keys.len(), 1);
    assert_eq!(endpoint.api_keys[0], "test-api-key");
    assert_eq!(endpoint.dd_url, "https://app.datadoghq.com");

    // Pipeline gates flow through to the data-plane settings.
    assert!(saluki.data_plane.enabled);
    assert!(saluki.data_plane.dogstatsd);
    assert!(!saluki.data_plane.otlp);

    // Private supplemental settings are folded into the native model.
    assert_eq!(saluki.otlp.context_string_interner_bytes, 2 * 1024 * 1024);
}

#[test]
fn no_api_key_yields_no_endpoints() {
    let private = private_for_datadog_agent();
    let saluki = Translator::new(&private, PipelineGates::default()).finish();
    assert!(saluki.endpoints.is_empty());
}

#[test]
fn empty_api_key_yields_no_endpoints() {
    assert!(build_endpoints(Some(""), None, None).is_empty());
}

#[test]
fn intake_url_prefers_dd_url_then_site() {
    assert_eq!(resolve_intake_url(Some("https://custom.example.com"), Some("datadoghq.eu")), "https://custom.example.com");
    assert_eq!(resolve_intake_url(Some(""), Some("datadoghq.eu")), "https://app.datadoghq.eu");
    assert_eq!(resolve_intake_url(None, None), "https://app.datadoghq.com");
    let endpoints = build_endpoints(Some("key"), None, Some("datadoghq.eu"));
    assert_eq!(endpoints.len(), 1);
    assert_eq!(endpoints[0].dd_url, "https://app.datadoghq.eu");
    assert_eq!(endpoints[0].api_keys, vec!["key".to_string()]);
}

#[test]
fn compression_is_shared_by_every_encoder() {
    let private = private_for_datadog_agent();
    let mut t = Translator::new(&private, PipelineGates::default());
    t.consume_serializer_compressor_kind(Some("zlib".to_string()));
    let n = t.finish();
    assert_eq!(n.metrics_compression.kind, CompressionKind::Zlib);
    assert_eq!(n.logs_compression, n.metrics_compression);
    assert_eq!(n.events_compression, n.metrics_compression);
    assert_eq!(n.service_checks_compression, n.metrics_compression);
    assert_eq!(n.traces_compression, n.metrics_compression);
}

#[test]
fn min_tls_version_names_1_3_or_clamps_to_1_2() {
    let private = private_for_datadog_agent();
    let mut t = Translator::new(&private, PipelineGates::default());
    t.consume_min_tls_version(Some("TLSv1.3".to_string()));
    assert_eq!(t.finish().min_tls_version, TlsMinimumVersion::Tls1_3);
    let mut t = Translator::new(&private, PipelineGates::default());
    t.consume_min_tls_version(Some("tlsv1.3".to_string()));
    assert_eq!(t.finish().min_tls_version, TlsMinimumVersion::Tls1_3);
    let mut t = Translator::new(&private, PipelineGates::default());
    t.consume_min_tls_version(Some("tlsv1.1".to_string()));
    assert_eq!(t.finish().min_tls_version, TlsMinimumVersion::Tls1_2);
}

#[test]
fn empty_dogstatsd_socket_disables_the_socket() {
    let private = private_for_datadog_agent();
    let mut t = Translator::new(&private, PipelineGates::default());
    t.consume_dogstatsd_socket(Some(String::new()));
    assert_eq!(t.finish().dogstatsd.socket_path, Some(None));
}

#[test]
fn checks_listen_for_the_agent_on_every_interface() {
    let n = Translator::new(&private_for_datadog_agent(), PipelineGates::default()).finish();
    assert_eq!(n.checks.ipc_endpoint, adp_config::data_plane::ListenAddress::AnyTcp { port: 5004 });
}

#[test]
fn last_compression_settings_consumed_reach_every_encoder() {
    let private = private_for_datadog_agent();
    let mut t = Translator::new(&private, PipelineGates::default());
    t.consume_serializer_compressor_kind(Some("zlib".to_string()));
    t.consume_serializer_zstd_compressor_level(9);
    t.consume_api_key(Some("key".to_string()));
    t.consume_serializer_compressor_kind(Some("zstd".to_string()));
    let n = t.finish();
    let expected = CompressionConfig { kind: CompressionKind::Zstd, zstd_level: 9 };
    assert_eq!(n.metrics_compression, expected);
    assert_eq!(n.logs_compression, expected);
    assert_eq!(n.events_compression, expected);
    assert_eq!(n.service_checks_compression, expected);
    assert_eq!(n.traces_compression, expected);
}

#[test]
fn data_plane_follows_gates_and_the_last_failover_switch() {
    let private = private_for_datadog_agent();
    let gates = PipelineGates { enabled: true, dogstatsd_enabled: false, checks_enabled: true, otlp_enabled: true };
    let mut t = Translator::new(&private, gates);
    t.consume_multi_region_failover_enabled(true);
    t.consume_dogstatsd_port(8125);
    t.consume_multi_region_failover_enabled(false);
    let n = t.finish();
    assert!(n.data_plane.enabled);
    assert!(!n.data_plane.dogstatsd);
    assert!(n.data_plane.checks);
    assert!(n.data_plane.otlp);
    assert!(!n.data_plane.otlp_proxy_enabled);
    assert!(n.otlp.proxy.is_none());
    assert!(n.multi_region_failover.is_none());
}

#[test]
fn failover_forwarder_copies_the_primary_tuning_and_tls() {
    let private = private_for_datadog_agent();
    let mut t = Translator::new(&private, PipelineGates::default());
    t.consume_forwarder_timeout(45);
    t.consume_skip_ssl_validation(true);
    t.consume_min_tls_version(Some("tlsv1.3".to_string()));
    t.consume_sslkeylogfile(Some("/tmp/keys.log".to_string()));
    t.consume_multi_region_failover_enabled(true);
    t.consume_multi_region_failover_api_key(Some("mrf-key".to_string()));
    t.consume_multi_region_failover_site(Some("datadoghq.eu".to_string()));
    let n = t.finish();
    let mrf = n.multi_region_failover.unwrap();
    assert_eq!(mrf.forwarder.request_timeout, Some(Duration::from_secs(45)));
    assert!(mrf.skip_ssl_validation);
    assert_eq!(mrf.min_tls_version, TlsMinimumVersion::Tls1_3);
    assert_eq!(mrf.ssl_key_log_file.as_deref(), Some("/tmp/keys.log"));
    assert_eq!(mrf.endpoints.len(), 1);
    assert_eq!(mrf.endpoints[0].api_keys, vec!["mrf-key".to_string()]);
}

#[test]
fn unparsable_listen_address_falls_back_to_any_tcp() {
    let configured = parse_listen_address(Some("not an address".to_string()), 5100);
    assert_eq!(configured.settle(None), ListenAddress::AnyTcp { port: 5100 });
    let configured = parse_listen_address(Some("127.0.0.1:9000".to_string()), 5100);
    let parsed = ListenAddress::Configured { address: "127.0.0.1:9000".to_string() };
    assert_eq!(configured.settle(Some(parsed.clone())), parsed);
    assert_eq!(parse_listen_address(Some(String::new()), 5101).settle(None), ListenAddress::AnyTcp { port: 5101 });
    assert_eq!(parse_listen_address(None, 5101).settle(None), ListenAddress::AnyTcp { port: 5101 });
}
