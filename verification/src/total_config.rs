//! The total native configuration's plain sections, and the rules by which Datadog source values
//! become native values: TLS versions, unset sentinels, and log levels.
//!
//! The sections carry values, not key names; each supported Datadog key has exactly one
//! destination field.

use vstd::prelude::*;

use crate::text::{ascii_lowercase, str_eq, to_ascii_lowercase, to_lowercase, trim, trimmed, unicode_lowercase};

verus! {

/// The minimum TLS version of outbound connections.
#[derive(Debug, Clone, Copy, PartialEq, Eq, Default)]
pub enum TlsVersion {
    /// TLS 1.2, the default.
    #[default]
    Tls12,
    /// TLS 1.3.
    Tls13,
}

/// Data plane settings.
#[derive(Debug, Default, Clone, PartialEq)]
pub struct DataPlaneConfig {
    /// The capacity of the aggregator's tag filter cache.
    pub aggregator_tag_filter_cache_capacity: u64,
}

/// Outbound proxy settings.
#[derive(Debug, Default, Clone, PartialEq)]
pub struct ProxyConfig {
    /// The HTTP proxy, if any.
    pub http: Option<String>,
    /// The HTTPS proxy, if any.
    pub https: Option<String>,
    /// Hosts reached without the proxy.
    pub no_proxy: Vec<String>,
}

/// A metrics integration forwarded to another intake.
#[derive(Debug, Default, Clone, PartialEq)]
pub struct ForwardingIntegration {
    /// Whether forwarding is enabled.
    pub enabled: bool,
    /// The intake URL.
    pub url: String,
}

/// Traces settings.
#[derive(Debug, Default, Clone, PartialEq)]
pub struct TracesConfig {
    /// The environment traces are tagged with.
    pub env: String,
    /// Whether payloads are logged.
    pub log_payloads: bool,
    /// Obfuscation of sensitive values.
    pub obfuscation: ObfuscationConfig,
}

/// Obfuscation of sensitive values in traces.
#[derive(Debug, Default, Clone, PartialEq)]
pub struct ObfuscationConfig {
    /// Credit card numbers.
    pub credit_cards: CreditCardObfuscation,
    /// HTTP URLs.
    pub http: HttpObfuscation,
    /// Elasticsearch queries.
    pub elasticsearch: SqlBackendObfuscation,
    /// MongoDB queries.
    pub mongodb: SqlBackendObfuscation,
    /// OpenSearch queries.
    pub opensearch: SqlBackendObfuscation,
    /// Memcached commands.
    pub memcached: MemcachedObfuscation,
    /// Redis commands.
    pub redis: KvCommandObfuscation,
    /// Valkey commands.
    pub valkey: KvCommandObfuscation,
}

/// Credit card obfuscation.
#[derive(Debug, Default, Clone, PartialEq)]
pub struct CreditCardObfuscation {
    /// Whether credit card numbers are obfuscated.
    pub enabled: bool,
    /// Values kept as they are.
    pub keep_values: Vec<String>,
    /// Whether the Luhn check is applied.
    pub luhn: bool,
}

/// HTTP obfuscation.
#[derive(Debug, Default, Clone, PartialEq)]
pub struct HttpObfuscation {
    /// Whether path segments with digits are removed.
    pub remove_paths_with_digits: bool,
    /// Whether query strings are removed.
    pub remove_query_string: bool,
}

/// Obfuscation of a query backend.
#[derive(Debug, Default, Clone, PartialEq)]
pub struct SqlBackendObfuscation {
    /// Whether queries are obfuscated.
    pub enabled: bool,
    /// Values kept as they are.
    pub keep_values: Vec<String>,
    /// Values obfuscated as SQL.
    pub obfuscate_sql_values: Vec<String>,
}

/// Memcached obfuscation.
#[derive(Debug, Default, Clone, PartialEq)]
pub struct MemcachedObfuscation {
    /// Whether commands are obfuscated.
    pub enabled: bool,
    /// Whether the command itself is kept.
    pub keep_command: bool,
}

/// Obfuscation of key-value store commands.
#[derive(Debug, Default, Clone, PartialEq)]
pub struct KvCommandObfuscation {
    /// Whether commands are obfuscated.
    pub enabled: bool,
    /// Whether all arguments are removed.
    pub remove_all_args: bool,
}

/// OTLP gRPC receiver settings.
#[derive(Debug, Default, Clone, PartialEq)]
pub struct OtlpGrpcConfig {
    /// The endpoint.
    pub endpoint: String,
    /// The transport.
    pub transport: String,
    /// The maximum received message size, in mebibytes.
    pub max_recv_msg_size_mib: u64,
}

/// OTLP HTTP receiver settings.
#[derive(Debug, Default, Clone, PartialEq)]
pub struct OtlpHttpConfig {
    /// The endpoint.
    pub endpoint: String,
}

/// Logs settings.
#[derive(Debug, Default, Clone, PartialEq)]
pub struct LogsConfig {
    /// The log level, lowercase.
    pub log_level: String,
    /// Whether timestamps are RFC 3339.
    pub log_format_rfc3339: bool,
    /// Whether the RFC-style syslog header is used.
    pub syslog_rfc: bool,
    /// The syslog URI.
    pub syslog_uri: String,
}

/// Settings that several subsystems share.
#[derive(Debug, Default, Clone, PartialEq)]
pub struct CrossCuttingConfig {
    /// The Agent command port.
    pub cmd_port: u16,
    /// The vsock address.
    pub vsock_addr: String,
    /// The container runtime connection timeout, in seconds.
    pub cri_connection_timeout_secs: u64,
    /// The container runtime query timeout, in seconds.
    pub cri_query_timeout_secs: u64,
}

/// The minimum TLS version a source value names, matched ignoring surrounding whitespace and
/// ASCII case: 1.3 for `tlsv1.3`, and 1.2 for anything else, which clamps 1.0 and 1.1 up to the
/// oldest version outbound connections can negotiate.
pub open spec fn tls_version_of(value: Seq<char>) -> TlsVersion {
    if ascii_lowercase(trimmed(value)) == "tlsv1.3"@ {
        TlsVersion::Tls13
    } else {
        TlsVersion::Tls12
    }
}

/// Reads a minimum TLS version.
pub fn min_tls_version(value: &str) -> (r: TlsVersion)
    ensures
        r == tls_version_of(value@),
{
    let t = trim(value);
    let lower = to_ascii_lowercase(t.as_str());
    if str_eq(lower.as_str(), "tlsv1.3") {
        TlsVersion::Tls13
    } else {
        TlsVersion::Tls12
    }
}

/// Maps a non-empty string to `Some`, and the empty string, which the schema uses as its unset
/// sentinel, to `None`.
pub fn non_empty(value: String) -> (r: Option<String>)
    ensures
        value@.len() > 0 ==> r == Some(value),
        value@.len() == 0 ==> r is None,
{
    if value.as_str().unicode_len() > 0 {
        Some(value)
    } else {
        None
    }
}

/// Normalizes a log level to lowercase, so that `INFO` and `info` are the same setting.
pub fn log_level(value: &str) -> (r: String)
    ensures
        r@ == unicode_lowercase(value@),
{
    to_lowercase(value)
}

/// Assembles the proxy settings from the three proxy keys; an empty URL is unset.
pub fn proxy_config(http: String, https: String, no_proxy: Vec<String>) -> (r: ProxyConfig)
    ensures
        http@.len() > 0 ==> r.http == Some(http),
        http@.len() == 0 ==> r.http is None,
        https@.len() > 0 ==> r.https == Some(https),
        https@.len() == 0 ==> r.https is None,
        r.no_proxy == no_proxy,
{
    ProxyConfig { http: non_empty(http), https: non_empty(https), no_proxy }
}

} // verus!
