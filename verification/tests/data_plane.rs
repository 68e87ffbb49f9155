use adp_config::data_plane::{listen_address_or, DataPlaneConfiguration, DataPlaneSettings, ListenAddress};
use adp_config::runtime::{keeps_running, otlp_logs_enabled, otlp_private_knobs, should_bootstrap_remote_agent, uses_config_stream};

fn enabled_with(settings: DataPlaneSettings) -> DataPlaneConfiguration {
    DataPlaneConfiguration::from_settings(DataPlaneSettings { enabled: Some(true), ..settings })
}

#[test]
fn default_enables_dogstatsd() {
    let dp = enabled_with(DataPlaneSettings::default());
    assert!(dp.enabled());
    assert!(dp.dogstatsd().enabled());
}

#[test]
fn explicit_false_disables_dogstatsd() {
    let dp = enabled_with(DataPlaneSettings { dogstatsd_enabled: Some(false), ..Default::default() });
    assert!(dp.enabled());
    assert!(!dp.dogstatsd().enabled());
}

#[test]
fn defaults_when_nothing_is_set() {
    let dp = DataPlaneConfiguration::from_settings(DataPlaneSettings::default());
    assert!(!dp.enabled());
    assert!(!dp.standalone_mode());
    assert!(dp.remote_agent_enabled());
    assert!(dp.use_new_config_stream_endpoint());
    assert_eq!(dp.api_listen_address(), &ListenAddress::AnyTcp { port: 5100 });
    assert_eq!(dp.secure_api_listen_address(), &ListenAddress::AnyTcp { port: 5101 });
    assert!(!dp.checks().enabled());
    assert!(!dp.otlp().enabled());
    assert!(dp.otlp().proxy().enabled(), "OTLP proxying defaults to on");
}

#[test]
fn configured_listen_addresses_are_kept_as_written() {
    assert_eq!(
        listen_address_or(Some("unix:///var/run/adp.sock".to_string()), 5100),
        ListenAddress::Configured { address: "unix:///var/run/adp.sock".to_string() }
    );
    assert_eq!(listen_address_or(None, 7), ListenAddress::AnyTcp { port: 7 });
}

#[test]
fn no_pipeline_requires_no_forwarder() {
    let dp = enabled_with(DataPlaneSettings { dogstatsd_enabled: Some(false), ..Default::default() });
    assert!(!dp.data_pipelines_enabled());
    assert!(!dp.metrics_pipeline_required());
    assert!(!dp.logs_pipeline_required());
    assert!(!dp.events_pipeline_required());
    assert!(!dp.service_checks_pipeline_required());
    assert!(!dp.traces_pipeline_required());
    assert!(!dp.requires_datadog_forwarder());
}

#[test]
fn a_fully_proxied_otlp_pipeline_needs_no_forwarder() {
    let dp = enabled_with(DataPlaneSettings {
        dogstatsd_enabled: Some(false),
        otlp_enabled: Some(true),
        otlp_proxy_enabled: Some(true),
        ..Default::default()
    });
    assert!(dp.data_pipelines_enabled());
    assert!(!dp.metrics_pipeline_required());
    assert!(!dp.traces_pipeline_required());
    assert!(!dp.requires_datadog_forwarder());

    let partial = enabled_with(DataPlaneSettings {
        dogstatsd_enabled: Some(false),
        otlp_enabled: Some(true),
        otlp_proxy_enabled: Some(true),
        otlp_proxy_traces: Some(false),
        ..Default::default()
    });
    assert!(partial.traces_pipeline_required());
    assert!(partial.requires_datadog_forwarder());
}

#[test]
fn checks_need_every_baseline_pipeline_but_traces() {
    let dp = enabled_with(DataPlaneSettings { checks_enabled: Some(true), dogstatsd_enabled: Some(false), ..Default::default() });
    assert!(dp.metrics_pipeline_required());
    assert!(dp.logs_pipeline_required());
    assert!(dp.events_pipeline_required());
    assert!(dp.service_checks_pipeline_required());
    assert!(!dp.traces_pipeline_required());
}

#[test]
fn remote_agent_bootstrap_follows_standalone_and_stream_flags() {
    let attached = DataPlaneConfiguration::from_settings(DataPlaneSettings::default());
    assert!(should_bootstrap_remote_agent(&attached));
    assert!(uses_config_stream(true, &attached));
    assert!(!uses_config_stream(false, &attached));

    let standalone = DataPlaneConfiguration::from_settings(DataPlaneSettings { standalone_mode: Some(true), ..Default::default() });
    assert!(!should_bootstrap_remote_agent(&standalone));

    let neither = DataPlaneConfiguration::from_settings(DataPlaneSettings {
        remote_agent_enabled: Some(false),
        use_new_config_stream_endpoint: Some(false),
        ..Default::default()
    });
    assert!(!should_bootstrap_remote_agent(&neither));
}

#[test]
fn a_disabled_data_plane_stops_unless_standalone() {
    let disabled = DataPlaneConfiguration::from_settings(DataPlaneSettings::default());
    assert!(!keeps_running(false, &disabled));
    assert!(keeps_running(true, &disabled));
    let enabled = enabled_with(DataPlaneSettings::default());
    assert!(keeps_running(false, &enabled));
}

#[test]
fn logs_enabled_absent_preserves_legacy_on() {
    assert!(otlp_logs_enabled(None, false));
}

#[test]
fn logs_enabled_explicit_values_are_honored() {
    assert!(!otlp_logs_enabled(Some(false), false));
    assert!(otlp_logs_enabled(Some(true), true));
}

#[test]
fn otlp_private_knobs_default_when_unset() {
    let k = otlp_private_knobs(None, None, None, None, None, None, None);
    assert_eq!(k.context_interner_bytes, 2 * 1024 * 1024);
    assert_eq!(k.cached_contexts_limit, 500_000);
    assert_eq!(k.cached_tagsets_limit, 500_000);
    assert!(k.allow_context_heap_allocs);
    assert_eq!(k.traces_string_interner_bytes, 512 * 1024);
    assert!(!k.ignore_missing_datadog_fields);
    assert!(k.enable_otlp_compute_top_level_by_span_kind);
}

#[test]
fn saluki_private_knobs_are_read() {
    let k = otlp_private_knobs(Some(4096), Some(7), Some(8), Some(false), Some(1024), Some(true), Some(false));
    assert_eq!(k.context_interner_bytes, 4096);
    assert_eq!(k.cached_contexts_limit, 7);
    assert_eq!(k.cached_tagsets_limit, 8);
    assert!(!k.allow_context_heap_allocs);
    assert_eq!(k.traces_string_interner_bytes, 1024);
    assert!(k.ignore_missing_datadog_fields);
    assert!(!k.enable_otlp_compute_top_level_by_span_kind);
}
