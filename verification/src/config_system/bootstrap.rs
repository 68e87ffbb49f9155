//! Bootstrap inputs, and the typed bootstrap configuration parsed from local sources.
//!
//! The caller merges the local sources and reads each key; the values arrive here as `Option`s,
//! `None` meaning that the key is absent.

use std::path::PathBuf;

use vstd::prelude::*;

use crate::config::authority::{ConfigStreamAuthority, RuntimeConfigAuthority, RuntimeConfigLanguage};
use crate::config::bootstrap::{
    BootstrapConfiguration, BootstrapStartupConfiguration, BootstrapTelemetryConfiguration,
};
use crate::config::logging::{is_default_logging, RuntimeLoggingConfig};
use crate::config_system::translate::{
    clamp_port, is_set, opt_string_view, port_of, OtlpProxySettings, PipelineGates,
};
use crate::data_plane::{flag_or, listen_address_or, ListenAddress};
use crate::json::{bool_at, path_view, read_bool, JsonValue};
use crate::text::owned;

verus! {

/// Process-local inputs used to start configuration resolution: where local sources come from.
#[derive(Debug)]
pub struct BootstrapInputs {
    /// Path to the local configuration file, if any.
    pub config_file_path: Option<PathBuf>,
    /// Environment variable prefix for local environment sources.
    pub env_var_prefix: &'static str,
}

impl Default for BootstrapInputs {
    fn default() -> (r: Self)
        ensures
            r.config_file_path is None,
            r.env_var_prefix@ == "DD"@,
    {
        BootstrapInputs { config_file_path: None, env_var_prefix: "DD" }
    }
}

/// The logging keys of the local sources, each `None` when absent.
#[derive(Debug)]
pub struct LoggingSources {
    /// `log_level`
    pub log_level: Option<String>,
    /// `log_format_json`
    pub log_format_json: Option<bool>,
    /// `log_format_rfc3339`
    pub log_format_rfc3339: Option<bool>,
    /// `log_to_console`
    pub log_to_console: Option<bool>,
    /// `log_to_syslog`
    pub log_to_syslog: Option<bool>,
    /// `syslog_rfc`
    pub syslog_rfc: Option<bool>,
    /// `syslog_uri`
    pub syslog_uri: Option<String>,
    /// `data_plane.log_file`
    pub data_plane_log_file: Option<String>,
    /// `log_file_max_size`, in bytes
    pub log_file_max_size: Option<u64>,
    /// `log_file_max_rolls`
    pub log_file_max_rolls: Option<usize>,
    /// `disable_file_logging`
    pub disable_file_logging: Option<bool>,
}

/// The bootstrap keys of the local sources, each `None` when absent.
#[derive(Debug)]
pub struct BootstrapSources {
    /// `data_plane.standalone_mode`
    pub standalone_mode: Option<bool>,
    /// `data_plane.secure_api_listen_address`
    pub secure_api_listen_address: Option<String>,
    /// `metrics_level`
    pub metrics_level: Option<String>,
    /// The logging keys.
    pub logging: LoggingSources,
}

/// The authority a standalone setting selects: a local Datadog snapshot without an Agent
/// attachment when standalone, and otherwise the Datadog Agent's config stream.
pub open spec fn authority_for(standalone: bool) -> RuntimeConfigAuthority {
    if standalone {
        RuntimeConfigAuthority::LocalSnapshot(RuntimeConfigLanguage::DatadogAgent)
    } else {
        RuntimeConfigAuthority::ConfigStream(ConfigStreamAuthority::DatadogAgent)
    }
}

/// A value overriding a default when present.
pub open spec fn or_else<T>(value: Option<T>, default: T) -> T {
    match value {
        Some(v) => v,
        None => default,
    }
}

/// Whether `c` is the default logging configuration with the bootstrap sources' overrides.
pub open spec fn bootstrap_logging_of(s: LoggingSources, d: RuntimeLoggingConfig, c: RuntimeLoggingConfig) -> bool {
    &&& c.log_level == s.log_level
    &&& c.log_format_json == or_else(s.log_format_json, d.log_format_json)
    &&& c.log_format_rfc3339 == or_else(s.log_format_rfc3339, d.log_format_rfc3339)
    &&& c.log_to_console == or_else(s.log_to_console, d.log_to_console)
    &&& c.log_to_syslog == or_else(s.log_to_syslog, d.log_to_syslog)
    &&& c.syslog_rfc == or_else(s.syslog_rfc, d.syslog_rfc)
    &&& c.syslog_uri == or_else(s.syslog_uri, d.syslog_uri)
    &&& c.log_file == or_else(s.data_plane_log_file, d.log_file)
    &&& c.log_file_max_size == or_else(s.log_file_max_size, d.log_file_max_size)
    &&& c.log_file_max_rolls == or_else(s.log_file_max_rolls, d.log_file_max_rolls)
}

fn override_flag(slot: &mut bool, value: Option<bool>)
    ensures
        *final(slot) == or_else(value, *old(slot)),
{
    if let Some(v) = value {
        *slot = v;
    }
}

/// Parses the bootstrap logging configuration: the defaults, with each key that is present
/// overriding its field; the log level is taken as it is.
pub fn parse_bootstrap_logging(sources: LoggingSources) -> (c: RuntimeLoggingConfig)
    ensures
        exists|d: RuntimeLoggingConfig| is_default_logging(d) && #[trigger] bootstrap_logging_of(sources, d, c),
{
    let mut logging = RuntimeLoggingConfig::default();
    let ghost d = logging;
    logging.log_level = sources.log_level;
    override_flag(&mut logging.log_format_json, sources.log_format_json);
    override_flag(&mut logging.log_format_rfc3339, sources.log_format_rfc3339);
    override_flag(&mut logging.log_to_console, sources.log_to_console);
    override_flag(&mut logging.log_to_syslog, sources.log_to_syslog);
    override_flag(&mut logging.syslog_rfc, sources.syslog_rfc);
    if let Some(v) = sources.syslog_uri {
        logging.syslog_uri = v;
    }
    if let Some(v) = sources.data_plane_log_file {
        logging.log_file = v;
    }
    if let Some(v) = sources.log_file_max_size {
        logging.log_file_max_size = v;
    }
    if let Some(v) = sources.log_file_max_rolls {
        logging.log_file_max_rolls = v;
    }
    assert(bootstrap_logging_of(sources, d, logging));
    logging
}

/// Parses the typed bootstrap configuration from the local sources.
///
/// Standalone mode selects a local Datadog snapshot with no Agent attachment; otherwise the
/// authority is the Datadog Agent config stream. The privileged API listens on TCP port 5101
/// unless configured otherwise.
pub fn parse_bootstrap(sources: BootstrapSources) -> (b: BootstrapConfiguration)
    ensures
        b.startup.runtime_config_authority == authority_for(flag_or(sources.standalone_mode, false)),
        sources.secure_api_listen_address matches Some(a) ==> b.startup.secure_api_listen_address
            == (ListenAddress::Configured { address: a }),
        sources.secure_api_listen_address is None ==> b.startup.secure_api_listen_address
            == (ListenAddress::AnyTcp { port: 5101 }),
        b.telemetry.metrics_level == sources.metrics_level,
        exists|d: RuntimeLoggingConfig|
            is_default_logging(d) && #[trigger] bootstrap_logging_of(sources.logging, d, b.logging),
{
    let standalone_mode = match sources.standalone_mode {
        Some(v) => v,
        None => false,
    };
    let runtime_config_authority = if standalone_mode {
        RuntimeConfigAuthority::LocalSnapshot(RuntimeConfigLanguage::DatadogAgent)
    } else {
        RuntimeConfigAuthority::ConfigStream(ConfigStreamAuthority::DatadogAgent)
    };
    let secure_api_listen_address = listen_address_or(sources.secure_api_listen_address, 5101);
    BootstrapConfiguration {
        startup: BootstrapStartupConfiguration { runtime_config_authority, secure_api_listen_address },
        logging: parse_bootstrap_logging(sources.logging),
        telemetry: BootstrapTelemetryConfiguration { metrics_level: sources.metrics_level },
    }
}

/// Reads the pipeline gates from the values of `data_plane.enabled` and
/// `data_plane.{dogstatsd,checks,otlp}.enabled`: DogStatsD is on unless disabled, the rest off
/// unless enabled.
pub fn read_pipeline_gates(
    enabled: Option<bool>,
    dogstatsd_enabled: Option<bool>,
    checks_enabled: Option<bool>,
    otlp_enabled: Option<bool>,
) -> (g: PipelineGates)
    ensures
        g.enabled == flag_or(enabled, false),
        g.dogstatsd_enabled == flag_or(dogstatsd_enabled, true),
        g.checks_enabled == flag_or(checks_enabled, false),
        g.otlp_enabled == flag_or(otlp_enabled, false),
{
    PipelineGates {
        enabled: or_flag(enabled, false),
        dogstatsd_enabled: or_flag(dogstatsd_enabled, true),
        checks_enabled: or_flag(checks_enabled, false),
        otlp_enabled: or_flag(otlp_enabled, false),
    }
}

fn or_flag(value: Option<bool>, default: bool) -> (r: bool)
    ensures
        r == flag_or(value, default),
{
    match value {
        Some(v) => v,
        None => default,
    }
}

/// The path of a gate below `data_plane`.
pub open spec fn gate_path(pipeline: Seq<char>) -> Seq<Seq<char>> {
    if pipeline.len() == 0 {
        seq!["data_plane"@, "enabled"@]
    } else {
        seq!["data_plane"@, pipeline, "enabled"@]
    }
}

fn gate(snapshot: &JsonValue, pipeline: &str, default: bool) -> (r: bool)
    ensures
        r == bool_at(*snapshot, gate_path(pipeline@), default),
{
    let mut path: Vec<&str> = Vec::new();
    path.push("data_plane");
    if pipeline.unicode_len() > 0 {
        path.push(pipeline);
    }
    path.push("enabled");
    proof {
        assert(path_view(path@) =~= gate_path(pipeline@));
    }
    read_bool(snapshot, &path, default)
}

/// Reads the pipeline gates from an authoritative snapshot: a gate that is absent, or is not a
/// boolean, takes its default.
pub fn read_pipeline_gates_value(snapshot: &JsonValue) -> (g: PipelineGates)
    ensures
        g.enabled == bool_at(*snapshot, seq!["data_plane"@, "enabled"@], false),
        g.dogstatsd_enabled == bool_at(*snapshot, seq!["data_plane"@, "dogstatsd"@, "enabled"@], true),
        g.checks_enabled == bool_at(*snapshot, seq!["data_plane"@, "checks"@, "enabled"@], false),
        g.otlp_enabled == bool_at(*snapshot, seq!["data_plane"@, "otlp"@, "enabled"@], false),
{
    proof {
        reveal_strlit("");
        reveal_strlit("dogstatsd");
        reveal_strlit("checks");
        reveal_strlit("otlp");
    }
    PipelineGates {
        enabled: gate(snapshot, "", false),
        dogstatsd_enabled: gate(snapshot, "dogstatsd", true),
        checks_enabled: gate(snapshot, "checks", false),
        otlp_enabled: gate(snapshot, "otlp", false),
    }
}

/// The Core Agent endpoint that OTLP signals are proxied to by default.
pub open spec fn default_proxy_endpoint() -> Seq<char> {
    "http://localhost:4319"@
}

/// Reads OTLP proxying from the values of `data_plane.otlp.proxy.enabled`, its gRPC endpoint,
/// `otlp_config.traces.internal_port` and the three per-signal flags; `None` when proxying is
/// disabled.
///
/// An empty endpoint counts as absent; the internal port is clamped into the port range; each
/// signal is proxied unless disabled.
pub fn read_otlp_proxy(
    enabled: Option<bool>,
    grpc_endpoint: Option<String>,
    traces_internal_port: Option<i64>,
    proxy_metrics: Option<bool>,
    proxy_logs: Option<bool>,
    proxy_traces: Option<bool>,
) -> (r: Option<OtlpProxySettings>)
    ensures
        r is Some <==> flag_or(enabled, false),
        r matches Some(p) ==> {
            &&& p.core_agent_otlp_grpc_endpoint@ == (if is_set(opt_string_view(grpc_endpoint)) {
                grpc_endpoint.unwrap()@
            } else {
                default_proxy_endpoint()
            })
            &&& p.core_agent_traces_internal_port == port_of(or_else(traces_internal_port, 0))
            &&& p.proxy_metrics == flag_or(proxy_metrics, true)
            &&& p.proxy_logs == flag_or(proxy_logs, true)
            &&& p.proxy_traces == flag_or(proxy_traces, true)
        },
{
    if !or_flag(enabled, false) {
        return None;
    }
    let endpoint = match grpc_endpoint {
        Some(e) => {
            if e.as_str().unicode_len() > 0 {
                e
            } else {
                owned("http://localhost:4319")
            }
        },
        None => owned("http://localhost:4319"),
    };
    let port: i64 = match traces_internal_port {
        Some(p) => p,
        None => 0,
    };
    Some(
        OtlpProxySettings {
            core_agent_otlp_grpc_endpoint: endpoint,
            proxy_metrics: or_flag(proxy_metrics, true),
            proxy_logs: or_flag(proxy_logs, true),
            proxy_traces: or_flag(proxy_traces, true),
            core_agent_traces_internal_port: clamp_port(port),
        },
    )
}

} // verus!
