use adp_config::config::authority::{ConfigStreamAuthority, RuntimeConfigAuthority, RuntimeConfigLanguage};
use adp_config::config_system::bootstrap::{
    parse_bootstrap, read_otlp_proxy, read_pipeline_gates, read_pipeline_gates_value, BootstrapSources, LoggingSources,
};
use adp_config::config_system::dynamic::replace_if_changed;
use adp_config::config_system::logging::{
    first_party_log_level_filter, parse_adp_log_level, parse_optional_log_level_raw, plain_log_level,
    LoggingConfigurationTranslator,
};
use adp_config::config_system::registration::{
    flavor, registration_step, relay_action, ConfigEventKind, RegistrationEvent, RegistrationProgress, RelayAction,
};
use adp_config::config_system::system::{
    initial_snapshot_step, startup_plan, unsupported_language_error, SnapshotWait, StartupPlan, StreamDelivery,
};
use adp_config::config_system::validate::{
    active_pipelines, validate_classifications, validation_result, Classification, Finding, Pipeline,
    PipelineAffinity, Severity, SupportLevel,
};
use adp_config::config_system::translate::PipelineGates;
use adp_config::data_plane::ListenAddress;
use adp_config::json::JsonValue;

fn no_logging() -> LoggingSources {
    LoggingSources {
        log_level: None,
        log_format_json: None,
        log_format_rfc3339: None,
        log_to_console: None,
        log_to_syslog: None,
        syslog_rfc: None,
        syslog_uri: None,
        data_plane_log_file: None,
        log_file_max_size: None,
        log_file_max_rolls: None,
        disable_file_logging: None,
    }
}

const INFO_DIRECTIVES: &str = "agent_data_plane=info,containerd_protos=info,datadog_protos=info,datadog_agent_commons=info,ddsketch=info,resource_accounting=info,otlp_protos=info,ottl=info,process_memory=info,prometheus_exposition=info,saluki_api=info,saluki_app=info,saluki_common=info,saluki_components=info,saluki_config=info,saluki_context=info,saluki_core=info,saluki_env=info,saluki_error=info,saluki_io=info,saluki_metadata=info,saluki_metrics=info,saluki_tls=info,stringtheory=info";

#[test]
fn plain_levels_expand_to_first_party_directives() {
    assert_eq!(first_party_log_level_filter("info"), INFO_DIRECTIVES);
    assert_eq!(parse_adp_log_level(" INFO "), INFO_DIRECTIVES);
    assert_eq!(parse_optional_log_level_raw(None), INFO_DIRECTIVES);
    assert_eq!(plain_log_level("Warn"), Some("warn"));
    assert_eq!(plain_log_level("verbose"), None);
}

#[test]
fn directive_strings_pass_through() {
    assert_eq!(parse_adp_log_level("saluki_core=trace"), "saluki_core=trace");
    assert_eq!(parse_optional_log_level_raw(Some("x=debug".to_string())), "x=debug");
}

#[test]
fn logging_translation_applies_platform_defaults() {
    let t = LoggingConfigurationTranslator::translate(no_logging(), false, "unixgram:///dev/log", "/var/log/adp.log");
    assert_eq!(t.log_level_directives, INFO_DIRECTIVES);
    assert_eq!(t.syslog_uri, None);
    assert_eq!(t.log_file, "/var/log/adp.log");

    let t = LoggingConfigurationTranslator::translate(
        LoggingSources {
            log_to_syslog: Some(true),
            syslog_uri: Some(String::new()),
            disable_file_logging: Some(true),
            ..no_logging()
        },
        false,
        "unixgram:///dev/log",
        "/var/log/adp.log",
    );
    assert_eq!(t.syslog_uri.as_deref(), Some("unixgram:///dev/log"));
    assert_eq!(t.log_file, "");
}

#[test]
fn bootstrap_defaults_when_empty_config() {
    let b = parse_bootstrap(BootstrapSources {
        standalone_mode: None,
        secure_api_listen_address: None,
        metrics_level: None,
        logging: no_logging(),
    });
    assert_eq!(b.startup.runtime_config_authority, RuntimeConfigAuthority::ConfigStream(ConfigStreamAuthority::DatadogAgent));
    assert_eq!(b.startup.secure_api_listen_address, ListenAddress::AnyTcp { port: 5101 });
    assert!(b.logging.log_level.is_none());
    assert!(b.logging.log_to_console);
    assert_eq!(b.logging.log_file_max_size, 10 * 1024 * 1024);
    assert!(b.telemetry.metrics_level.is_none());
}

#[test]
fn bootstrap_reads_standalone_mode_and_levels() {
    let b = parse_bootstrap(BootstrapSources {
        standalone_mode: Some(true),
        secure_api_listen_address: Some("127.0.0.1:9999".to_string()),
        metrics_level: Some("debug".to_string()),
        logging: LoggingSources { log_level: Some("debug".to_string()), log_format_json: Some(true), ..no_logging() },
    });
    assert_eq!(b.startup.runtime_config_authority, RuntimeConfigAuthority::LocalSnapshot(RuntimeConfigLanguage::DatadogAgent));
    assert_eq!(b.startup.secure_api_listen_address, ListenAddress::Configured { address: "127.0.0.1:9999".to_string() });
    assert_eq!(b.telemetry.metrics_level.as_deref(), Some("debug"));
    assert_eq!(b.logging.log_level.as_deref(), Some("debug"));
    assert!(b.logging.log_format_json);
}

#[test]
fn pipeline_gates_default_to_dogstatsd_only() {
    let g = read_pipeline_gates(None, None, None, None);
    assert!(!g.enabled && g.dogstatsd_enabled && !g.checks_enabled && !g.otlp_enabled);

    let snapshot = JsonValue::Object(vec![(
        "data_plane".to_string(),
        JsonValue::Object(vec![
            ("enabled".to_string(), JsonValue::Bool(true)),
            ("dogstatsd".to_string(), JsonValue::Object(vec![("enabled".to_string(), JsonValue::Bool(false))])),
            ("otlp".to_string(), JsonValue::Object(vec![("enabled".to_string(), JsonValue::String("true".to_string()))])),
        ]),
    )]);
    let g = read_pipeline_gates_value(&snapshot);
    assert!(g.enabled);
    assert!(!g.dogstatsd_enabled);
    assert!(!g.checks_enabled);
    assert!(!g.otlp_enabled, "a non-boolean value keeps the default");
}

#[test]
fn otlp_proxy_settings_only_when_enabled() {
    assert!(read_otlp_proxy(None, None, None, None, None, None).is_none());
    let p = read_otlp_proxy(Some(true), Some(String::new()), Some(70000), None, Some(false), None).unwrap();
    assert_eq!(p.core_agent_otlp_grpc_endpoint, "http://localhost:4319");
    assert_eq!(p.core_agent_traces_internal_port, u16::MAX);
    assert!(p.proxy_metrics && !p.proxy_logs && p.proxy_traces);
}

#[test]
fn the_initial_registration_outcome_is_reported_once() {
    let start = RegistrationProgress { registered: false, initial_pending: true };
    let (after, action) = registration_step(start, RegistrationEvent::Registered { refresh_interval_secs: 17 });
    assert_eq!(action.report_initial, Some(true));
    assert_eq!(action.reset_after_secs, Some(17));
    assert!(action.store_session && !action.clear_session);
    assert!(after.registered && !after.initial_pending);

    let (after2, action2) = registration_step(after, RegistrationEvent::RegistrationFailed);
    assert_eq!(action2.report_initial, None);
    assert_eq!(action2.reset_after_secs, Some(30));
    assert!(after2.registered);

    let (after3, action3) = registration_step(after2, RegistrationEvent::RefreshFailed);
    assert!(action3.clear_session);
    assert_eq!(action3.reset_after_secs, Some(5));
    assert!(!after3.registered);
}

#[test]
fn a_failed_first_registration_is_reported_as_failure() {
    let start = RegistrationProgress { registered: false, initial_pending: true };
    let (after, action) = registration_step(start, RegistrationEvent::RegistrationFailed);
    assert_eq!(action.report_initial, Some(false));
    assert!(!after.initial_pending);
    let (_, action) = registration_step(after, RegistrationEvent::InvalidSessionId);
    assert_eq!(action.reset_after_secs, Some(30));
    assert_eq!(action.report_initial, None);
}

#[test]
fn flavors_are_lowercase_with_underscores() {
    assert_eq!(flavor("Agent Data Plane"), "agent_data_plane");
}

#[test]
fn config_events_are_relayed_by_kind() {
    assert_eq!(relay_action(ConfigEventKind::Snapshot), RelayAction::ForwardSnapshot);
    assert_eq!(relay_action(ConfigEventKind::Update { has_setting: true }), RelayAction::ForwardPartial);
    assert_eq!(relay_action(ConfigEventKind::Update { has_setting: false }), RelayAction::Skip);
    assert_eq!(relay_action(ConfigEventKind::Empty), RelayAction::ReportEmpty);
}

#[test]
fn startup_follows_the_authority() {
    assert_eq!(
        startup_plan(&RuntimeConfigAuthority::LocalSnapshot(RuntimeConfigLanguage::DatadogAgent)),
        StartupPlan::TranslateLocalSnapshot
    );
    assert_eq!(startup_plan(&RuntimeConfigAuthority::ConfigStream(ConfigStreamAuthority::DatadogAgent)), StartupPlan::ConnectToAgent);
    assert_eq!(
        startup_plan(&RuntimeConfigAuthority::LocalSnapshot(RuntimeConfigLanguage::SalukiNative)),
        StartupPlan::Unsupported(RuntimeConfigLanguage::SalukiNative)
    );
    assert_eq!(
        unsupported_language_error(RuntimeConfigLanguage::OpenTelemetryCollector),
        "Runtime config language OpenTelemetryCollector is not yet supported by the configuration system."
    );
}

#[test]
fn only_a_snapshot_ends_the_initial_wait() {
    assert_eq!(initial_snapshot_step(StreamDelivery::Snapshot), SnapshotWait::Ready);
    assert_eq!(initial_snapshot_step(StreamDelivery::Partial), SnapshotWait::KeepWaiting);
    assert_eq!(initial_snapshot_step(StreamDelivery::Closed), SnapshotWait::StreamClosed);
}

#[test]
fn only_non_default_high_severity_keys_of_active_pipelines_block() {
    let gates = PipelineGates { enabled: true, dogstatsd_enabled: true, checks_enabled: false, otlp_enabled: false };
    assert_eq!(active_pipelines(gates), vec![Pipeline::DogStatsD]);
    let high = |pipelines: PipelineAffinity, is_default: bool| {
        Some(Classification { support_level: SupportLevel::Incompatible(Severity::High), pipeline_affinity: pipelines, is_default })
    };
    let cs = vec![
        high(PipelineAffinity::Pipelines(vec![Pipeline::DogStatsD]), false),
        high(PipelineAffinity::Pipelines(vec![Pipeline::Checks]), false),
        high(PipelineAffinity::CrossCutting, true),
        Some(Classification { support_level: SupportLevel::Partial, pipeline_affinity: PipelineAffinity::CrossCutting, is_default: false }),
        None,
        high(PipelineAffinity::CrossCutting, false),
    ];
    let (findings, blocking) = validate_classifications(&cs, gates);
    assert_eq!(
        findings,
        vec![Finding::Blocking, Finding::Unaffected, Finding::Default, Finding::Partial, Finding::Unaffected, Finding::Blocking]
    );
    assert_eq!(blocking, 2);
    assert_eq!(
        validation_result(blocking).unwrap_err(),
        "2 incompatible configuration detected. ADP cannot start. Review error logs for details."
    );
    assert!(validation_result(0).is_ok());
}

#[test]
fn a_slice_is_replaced_only_when_it_changed() {
    let mut current = 5u32;
    assert!(!replace_if_changed(&mut current, 5));
    assert!(replace_if_changed(&mut current, 6));
    assert_eq!(current, 6);
}
