//! Native settings for the Datadog source model.
//!
//! A [`Translator`] receives each supported Datadog key's value through one `consume_*` method,
//! stages what it needs, and [`Translator::finish`] assembles the native settings. Settings that a
//! component defines its own default for are carried as overrides: `None` keeps the component's
//! default.

use std::time::Duration;

use vstd::prelude::*;

use crate::config::domains::checks::Domain;
use crate::data_plane::ListenAddress;
use crate::json::JsonValue;
use crate::config::logging::{is_default_logging, RuntimeLoggingConfig};
use crate::prefix_filter::PrefixFilterConfig;
use crate::text::{owned, push_str};
use crate::time::{from_secs, seconds};

verus! {

/// The pipeline enable/disable gates, resolved outside the Datadog schema.
#[derive(Clone, Copy, Debug)]
pub struct PipelineGates {
    /// Whether the data plane is enabled at all.
    pub enabled: bool,
    /// Whether the DogStatsD pipeline is enabled.
    pub dogstatsd_enabled: bool,
    /// Whether the checks pipeline is enabled.
    pub checks_enabled: bool,
    /// Whether the OTLP pipeline is enabled.
    pub otlp_enabled: bool,
}

impl Default for PipelineGates {
    fn default() -> (r: Self)
        ensures
            !r.enabled && !r.dogstatsd_enabled && !r.checks_enabled && !r.otlp_enabled,
    {
        PipelineGates {
            enabled: false,
            dogstatsd_enabled: false,
            checks_enabled: false,
            otlp_enabled: false,
        }
    }
}

/// The minimum TLS version for outbound connections.
#[derive(Clone, Copy, Debug, PartialEq, Eq, Structural)]
pub enum TlsMinimumVersion {
    /// TLS 1.2.
    Tls1_2,
    /// TLS 1.3.
    Tls1_3,
}

/// The compression algorithm of the encoders.
#[derive(Clone, Copy, Debug, PartialEq, Eq, Structural)]
pub enum CompressionKind {
    /// zlib (deflate).
    Zlib,
    /// zstd.
    Zstd,
}

/// Compression shared by every encoder.
#[derive(Clone, Copy, Debug, PartialEq, Eq, Structural)]
pub struct CompressionConfig {
    /// The algorithm.
    pub kind: CompressionKind,
    /// The zstd level.
    pub zstd_level: i32,
}

/// An intake endpoint of the forwarder.
#[derive(Debug)]
pub struct Endpoint {
    /// The intake URL.
    pub dd_url: String,
    /// The API keys sent to it.
    pub api_keys: Vec<String>,
}

/// An optional string's text.
pub open spec fn opt_view(s: Option<&str>) -> Option<Seq<char>> {
    match s {
        Some(t) => Some(t@),
        None => None,
    }
}

/// An optional owned string's text.
pub open spec fn opt_string_view(s: Option<String>) -> Option<Seq<char>> {
    match s {
        Some(t) => Some(t@),
        None => None,
    }
}

/// Whether an optional text is present and non-empty.
pub open spec fn is_set(s: Option<Seq<char>>) -> bool {
    s matches Some(t) && t.len() > 0
}

/// The intake URL: `dd_url` when it is set, else `https://app.` followed by `site` when that is
/// set, else `https://app.datadoghq.com`.
pub open spec fn intake_url(dd_url: Option<Seq<char>>, site: Option<Seq<char>>) -> Seq<char> {
    if is_set(dd_url) {
        dd_url.unwrap()
    } else if is_set(site) {
        "https://app."@ + site.unwrap()
    } else {
        "https://app.datadoghq.com"@
    }
}

/// Resolves the intake URL from the configured `dd_url` and `site`.
pub fn resolve_intake_url(dd_url: Option<&str>, site: Option<&str>) -> (r: String)
    ensures
        r@ == intake_url(opt_view(dd_url), opt_view(site)),
{
    match dd_url {
        Some(url) if url.unicode_len() > 0 => {
            return owned(url);
        },
        _ => {},
    }
    match site {
        Some(s) if s.unicode_len() > 0 => {
            let mut r = owned("https://app.");
            push_str(&mut r, s);
            r
        },
        _ => owned("https://app.datadoghq.com"),
    }
}

/// The forwarder's endpoints: none without an API key; otherwise the one intake endpoint, with
/// that key.
pub open spec fn endpoints_of(
    api_key: Option<Seq<char>>,
    dd_url: Option<Seq<char>>,
    site: Option<Seq<char>>,
) -> Seq<(Seq<char>, Seq<Seq<char>>)> {
    if is_set(api_key) {
        seq![(intake_url(dd_url, site), seq![api_key.unwrap()])]
    } else {
        Seq::empty()
    }
}

/// Endpoints as plain values: each one's URL and keys.
pub open spec fn endpoints_view(e: Seq<Endpoint>) -> Seq<(Seq<char>, Seq<Seq<char>>)> {
    e.map_values(|x: Endpoint| (x.dd_url@, x.api_keys@.map_values(|k: String| k@)))
}

/// Builds the forwarder's endpoints from the API key and the intake URL settings.
pub fn build_endpoints(api_key: Option<&str>, dd_url: Option<&str>, site: Option<&str>) -> (r: Vec<
    Endpoint,
>)
    ensures
        endpoints_view(r@) == endpoints_of(opt_view(api_key), opt_view(dd_url), opt_view(site)),
{
    let mut r: Vec<Endpoint> = Vec::new();
    match api_key {
        Some(key) if key.unicode_len() > 0 => {
            let url = resolve_intake_url(dd_url, site);
            let mut keys: Vec<String> = Vec::new();
            keys.push(owned(key));
            r.push(Endpoint { dd_url: url, api_keys: keys });
            proof {
                assert(r@[0].api_keys@.map_values(|k: String| k@) =~= seq![key@]);
                assert(endpoints_view(r@) =~= endpoints_of(
                    opt_view(api_key),
                    opt_view(dd_url),
                    opt_view(site),
                ));
            }
        },
        _ => {
            assert(endpoints_view(r@) =~= endpoints_of(
                opt_view(api_key),
                opt_view(dd_url),
                opt_view(site),
            ));
        },
    }
    r
}

/// How a listen address is chosen: a configured address, which the caller parses and replaces
/// by TCP on every interface at the fallback port when it does not parse; or that default.
#[derive(Debug)]
pub enum ListenChoice {
    /// TCP on every interface, at the given port.
    Default {
        /// The port.
        port: u16,
    },
    /// A configured address.
    Parse {
        /// The address, as configured.
        address: String,
        /// The port used when the address does not parse.
        fallback_port: u16,
    },
}

/// The listen address a choice settles on, given what parsing its configured address gave:
/// the parsed address, or TCP on every interface at the fallback port when it did not parse.
pub open spec fn settled_address(choice: ListenChoice, parsed: Option<ListenAddress>) -> ListenAddress {
    match choice {
        ListenChoice::Default { port } => ListenAddress::AnyTcp { port },
        ListenChoice::Parse { fallback_port, .. } => match parsed {
            Some(a) => a,
            None => ListenAddress::AnyTcp { port: fallback_port },
        },
    }
}

impl ListenChoice {
    /// Settles the choice, given `parsed`, the result of parsing the configured address (`None`
    /// when it does not parse; unused for a default): a configured address that does not parse
    /// falls back to TCP on every interface at the fallback port.
    pub fn settle(self, parsed: Option<ListenAddress>) -> (r: ListenAddress)
        ensures
            r == settled_address(self, parsed),
    {
        match self {
            ListenChoice::Default { port } => ListenAddress::AnyTcp { port },
            ListenChoice::Parse { fallback_port, .. } => match parsed {
                Some(a) => a,
                None => ListenAddress::AnyTcp { port: fallback_port },
            },
        }
    }
}

/// The listen address chosen from `raw`: the configured one when it is set, else the default.
pub open spec fn listen_choice(raw: Option<String>, default_port: u16) -> ListenChoice {
    if is_set(opt_string_view(raw)) {
        ListenChoice::Parse { address: raw.unwrap(), fallback_port: default_port }
    } else {
        ListenChoice::Default { port: default_port }
    }
}

/// Chooses a listen address: the configured one when it is set, else the default port.
pub fn parse_listen_address(raw: Option<String>, default_port: u16) -> (r: ListenChoice)
    ensures
        r == listen_choice(raw, default_port),
{
    match raw {
        Some(value) => {
            if value.as_str().unicode_len() > 0 {
                ListenChoice::Parse { address: value, fallback_port: default_port }
            } else {
                ListenChoice::Default { port: default_port }
            }
        },
        None => ListenChoice::Default { port: default_port },
    }
}

/// A count of whole seconds, negatives counting as zero.
pub open spec fn clamped_secs(value: i64) -> u64 {
    if value < 0 {
        0
    } else {
        value as u64
    }
}

/// The duration of `value` seconds, negatives counting as zero.
pub fn secs(value: i64) -> (d: Duration)
    ensures
        d == seconds(clamped_secs(value)),
{
    let s: u64 = if value < 0 {
        0
    } else {
        value as u64
    };
    from_secs(s)
}

/// `value` as a size, negatives counting as zero and the rest converted as `as usize` does.
pub open spec fn size_of_count(value: i64) -> usize {
    (if value < 0 {
        0
    } else {
        value
    }) as usize
}

/// Converts a count to a size, negatives counting as zero.
pub fn non_negative_size(value: i64) -> (r: usize)
    ensures
        r == size_of_count(value),
{
    let v: i64 = if value < 0 {
        0
    } else {
        value
    };
    v as usize
}

/// `value` as a size of at least one.
pub open spec fn at_least_one(value: i64) -> usize {
    (if value < 1 {
        1
    } else {
        value
    }) as usize
}

/// Converts a count to a size of at least one.
pub fn positive_size(value: i64) -> (r: usize)
    ensures
        r == at_least_one(value),
{
    let v: i64 = if value < 1 {
        1
    } else {
        value
    };
    v as usize
}

/// `value` clamped into the port range.
pub open spec fn port_of(value: i64) -> u16 {
    if value < 0 {
        0
    } else if value > 65535 {
        65535
    } else {
        value as u16
    }
}

/// Clamps a number into the port range.
pub fn clamp_port(value: i64) -> (r: u16)
    ensures
        r == port_of(value),
{
    if value < 0 {
        0
    } else if value > 65535 {
        65535
    } else {
        value as u16
    }
}

/// The minimum TLS version a source value names: 1.3 for `tlsv1.3` or `TLSv1.3`, and 1.2 for
/// anything else, which clamps the versions outbound connections cannot negotiate up to 1.2.
pub open spec fn tls_version_of(value: Option<Seq<char>>) -> TlsMinimumVersion {
    if value == Some("tlsv1.3"@) || value == Some("TLSv1.3"@) {
        TlsMinimumVersion::Tls1_3
    } else {
        TlsMinimumVersion::Tls1_2
    }
}

/// Reads the minimum TLS version.
pub fn min_tls_version(value: Option<&str>) -> (r: TlsMinimumVersion)
    ensures
        r == tls_version_of(opt_view(value)),
{
    match value {
        Some(v) => {
            if crate::text::str_eq(v, "tlsv1.3") || crate::text::str_eq(v, "TLSv1.3") {
                TlsMinimumVersion::Tls1_3
            } else {
                TlsMinimumVersion::Tls1_2
            }
        },
        None => TlsMinimumVersion::Tls1_2,
    }
}

/// The compression a source value names: zlib for `zlib` or `deflate`, and zstd otherwise.
pub open spec fn compression_kind_of(value: Option<Seq<char>>) -> CompressionKind {
    if value == Some("zlib"@) || value == Some("deflate"@) {
        CompressionKind::Zlib
    } else {
        CompressionKind::Zstd
    }
}

/// Reads the serializer's compressor kind.
pub fn compressor_kind(value: Option<&str>) -> (r: CompressionKind)
    ensures
        r == compression_kind_of(opt_view(value)),
        value matches Some(v) && (v@ == "zlib"@ || v@ == "deflate"@) ==> r == CompressionKind::Zlib,
        !(value matches Some(v) && (v@ == "zlib"@ || v@ == "deflate"@)) ==> r == CompressionKind::Zstd,
{
    match value {
        Some(v) => {
            if crate::text::str_eq(v, "zlib") || crate::text::str_eq(v, "deflate") {
                CompressionKind::Zlib
            } else {
                CompressionKind::Zstd
            }
        },
        None => CompressionKind::Zstd,
    }
}

/// The compressor names: `zlib` and its alias `deflate` select zlib, and any other value, or
/// none, selects zstd.
pub proof fn compressor_names(value: Option<Seq<char>>)
    ensures
        compression_kind_of(Some("zlib"@)) == CompressionKind::Zlib,
        compression_kind_of(Some("deflate"@)) == CompressionKind::Zlib,
        compression_kind_of(None) == CompressionKind::Zstd,
        value != Some("zlib"@) && value != Some("deflate"@) ==> compression_kind_of(value)
            == CompressionKind::Zstd,
{
}

/// How the translator converts source values: a configured TLS version of `tlsv1.3` or
/// `TLSv1.3` selects TLS 1.3 and anything else TLS 1.2; counts of seconds and sizes keep their
/// value when it is in range, negatives counting as zero (or one, for sizes of at least one);
/// ports are clamped into `0..=65535`; and the intake URL is `dd_url` when set, else the site's
/// `https://app.` URL when set, else `https://app.datadoghq.com`.
pub proof fn source_value_conversions(value: i64, text: Option<Seq<char>>, dd_url: Option<Seq<char>>, site: Option<Seq<char>>)
    ensures
        tls_version_of(Some("tlsv1.3"@)) == TlsMinimumVersion::Tls1_3,
        tls_version_of(Some("TLSv1.3"@)) == TlsMinimumVersion::Tls1_3,
        text != Some("tlsv1.3"@) && text != Some("TLSv1.3"@) ==> tls_version_of(text)
            == TlsMinimumVersion::Tls1_2,
        value >= 0 ==> clamped_secs(value) == value,
        value < 0 ==> clamped_secs(value) == 0,
        0 <= value <= usize::MAX ==> size_of_count(value) == value,
        value < 0 ==> size_of_count(value) == 0,
        1 <= value <= usize::MAX ==> at_least_one(value) == value,
        value < 1 ==> at_least_one(value) == 1,
        0 <= value <= 65535 ==> port_of(value) == value,
        value < 0 ==> port_of(value) == 0,
        value > 65535 ==> port_of(value) == 65535,
        (dd_url matches Some(u) && u.len() > 0) ==> intake_url(dd_url, site) == dd_url.unwrap(),
        !(dd_url matches Some(u) && u.len() > 0) && (site matches Some(t) && t.len() > 0) ==> intake_url(
            dd_url,
            site,
        ) == "https://app."@ + site.unwrap(),
        !(dd_url matches Some(u) && u.len() > 0) && !(site matches Some(t) && t.len() > 0) ==> intake_url(
            dd_url,
            site,
        ) == "https://app.datadoghq.com"@,
{
}

/// Keeps a string only when it is non-empty.
pub fn non_empty(value: Option<String>) -> (r: Option<String>)
    ensures
        is_set(opt_string_view(value)) ==> r == value,
        !is_set(opt_string_view(value)) ==> r is None,
{
    match value {
        Some(s) => {
            if s.as_str().unicode_len() > 0 {
                Some(s)
            } else {
                None
            }
        },
        None => None,
    }
}

/// Settings ADP's private configuration supplies, which the Datadog language cannot express.
#[derive(Debug)]
pub struct PrivateKnobs {
    /// Compression shared by every encoder.
    pub compression: CompressionConfig,
    /// The OTLP context string interner size, in bytes.
    pub otlp_context_string_interner_bytes: u64,
    /// The OTLP cached contexts limit.
    pub otlp_cached_contexts_limit: usize,
    /// The OTLP cached tagsets limit.
    pub otlp_cached_tagsets_limit: usize,
    /// Whether OTLP contexts may allocate on the heap.
    pub otlp_allow_context_heap_allocations: bool,
    /// The DogStatsD mapper string interner size, in bytes.
    pub mapper_string_interner_bytes: u64,
    /// The DogStatsD mapper cache size.
    pub mapper_cache_size: usize,
}

/// Overrides of the forwarder's tuning; `None` keeps the forwarder's default.
#[derive(Clone, Copy, Debug)]
pub struct ForwarderOverrides {
    /// Whether arbitrary tags are allowed.
    pub allow_arbitrary_tags: Option<bool>,
    /// Concurrent requests per endpoint.
    pub endpoint_concurrency: Option<usize>,
    /// Multiplier of the concurrency.
    pub endpoint_concurrency_multiplier: Option<usize>,
    /// Request timeout.
    pub request_timeout: Option<Duration>,
    /// Per-endpoint buffer size.
    pub endpoint_buffer_size: Option<usize>,
    /// Connection reset interval; an inner `None` disables resets.
    pub connection_reset_interval: Option<Option<Duration>>,
    /// Retry base backoff.
    pub retry_base_backoff: Option<Duration>,
    /// Retry maximum backoff.
    pub retry_max_backoff: Option<Duration>,
    /// Whether retries persist to disk.
    pub disk_persistence_enabled: Option<bool>,
}

/// Overrides of the encoders' payload settings; `None` keeps an encoder's default.
#[derive(Debug)]
pub struct EncoderOverrides {
    /// Maximum compressed payload size (metrics, events and service checks).
    pub max_payload_size: Option<usize>,
    /// Maximum uncompressed payload size (metrics, events and service checks).
    pub max_uncompressed_payload_size: Option<usize>,
    /// Maximum compressed series payload size.
    pub max_series_payload_size: Option<usize>,
    /// Maximum uncompressed series payload size.
    pub max_series_uncompressed_payload_size: Option<usize>,
    /// Maximum series points per payload.
    pub max_series_points_per_payload: Option<usize>,
    /// Whether the v2 series API is used.
    pub use_v2_api_series: Option<bool>,
    /// Whether payloads are logged (metrics, events and service checks).
    pub log_payloads: Option<bool>,
}

/// Overrides of the DogStatsD source, aggregation and mapper; `None` keeps the default.
#[derive(Debug)]
pub struct DogStatsDOverrides {
    /// The UDP port.
    pub port: Option<u16>,
    /// The receive buffer size.
    pub buffer_size: Option<usize>,
    /// The socket receive buffer size; an inner `None` keeps the system's.
    pub socket_receive_buffer_size: Option<Option<usize>>,
    /// The datagram socket path; an inner `None` disables it.
    pub socket_path: Option<Option<String>>,
    /// The stream socket path; an inner `None` disables it.
    pub socket_stream_path: Option<Option<String>>,
    /// Whether non-local traffic is accepted.
    pub non_local_traffic: Option<bool>,
    /// Whether origin detection is enabled (source and enrichment).
    pub origin_detection: Option<bool>,
    /// Whether series payloads are enabled.
    pub series: Option<bool>,
    /// Whether sketch payloads are enabled.
    pub sketches: Option<bool>,
    /// Whether event payloads are enabled.
    pub events: Option<bool>,
    /// Whether service check payloads are enabled.
    pub service_checks: Option<bool>,
    /// Counter expiry; an inner `None` keeps counters forever.
    pub counter_expiry: Option<Option<Duration>>,
    /// Whether open windows are flushed.
    pub flush_open_windows: Option<bool>,
    /// Whether timestamped metrics bypass aggregation.
    pub passthrough_timestamped_metrics: Option<bool>,
    /// Histogram statistics.
    pub histogram_statistics: Option<Vec<String>>,
    /// Whether histograms are copied to distributions.
    pub histogram_copy_to_distribution: Option<bool>,
    /// The prefix of copied distributions.
    pub histogram_copy_to_distribution_prefix: Option<String>,
}

/// The DogStatsD debug-log destination.
#[derive(Debug)]
pub struct DebugLogSettings {
    /// Whether per-metric stats are logged.
    pub metrics_stats_enabled: bool,
    /// Whether the debug log is written.
    pub logging_enabled: bool,
    /// The log file, empty for none.
    pub log_file: String,
    /// The maximum log file size, in bytes.
    pub log_file_max_size: u64,
    /// The maximum number of rolled log files.
    pub log_file_max_rolls: usize,
}

/// Proxying of OTLP signals to the Core Agent.
#[derive(Debug)]
pub struct OtlpProxySettings {
    /// The Core Agent's OTLP gRPC endpoint.
    pub core_agent_otlp_grpc_endpoint: String,
    /// Whether metrics are proxied.
    pub proxy_metrics: bool,
    /// Whether logs are proxied.
    pub proxy_logs: bool,
    /// Whether traces are proxied.
    pub proxy_traces: bool,
    /// The Core Agent's internal traces port.
    pub core_agent_traces_internal_port: u16,
}

/// OTLP settings.
#[derive(Debug)]
pub struct OtlpSettings {
    /// Private knob: context string interner size, in bytes.
    pub context_string_interner_bytes: u64,
    /// Private knob: cached contexts limit.
    pub cached_contexts_limit: usize,
    /// Private knob: cached tagsets limit.
    pub cached_tagsets_limit: usize,
    /// Private knob: whether contexts may allocate on the heap.
    pub allow_context_heap_allocations: bool,
    /// Whether metrics are received; `None` keeps the default.
    pub metrics_enabled: Option<bool>,
    /// Whether logs are received; `None` keeps the default.
    pub logs_enabled: Option<bool>,
    /// Whether traces are received; `None` keeps the default.
    pub traces_enabled: Option<bool>,
    /// The gRPC endpoint; an inner `None` disables it, `None` keeps the default.
    pub grpc_endpoint: Option<Option<String>>,
    /// The HTTP endpoint; an inner `None` disables it, `None` keeps the default.
    pub http_endpoint: Option<Option<String>>,
    /// Proxying to the Core Agent, present only when a proxy endpoint is configured.
    pub proxy: Option<OtlpProxySettings>,
}

/// Multi-region failover settings: the failover forwarder is the primary forwarder's
/// configuration, tuning and TLS included, with endpoints of its own.
#[derive(Debug)]
pub struct MultiRegionFailoverSettings {
    /// Whether metrics fail over.
    pub failover_metrics: bool,
    /// The metrics that fail over.
    pub metric_allowlist: Vec<String>,
    /// The failover forwarder's endpoints.
    pub endpoints: Vec<Endpoint>,
    /// The failover forwarder's tuning.
    pub forwarder: ForwarderOverrides,
    /// Whether the failover forwarder skips TLS validation.
    pub skip_ssl_validation: bool,
    /// The failover forwarder's minimum TLS version.
    pub min_tls_version: TlsMinimumVersion,
    /// The failover forwarder's TLS key log file, if any.
    pub ssl_key_log_file: Option<String>,
}

/// The data plane's top-level decisions.
#[derive(Debug)]
pub struct DataPlaneSettings {
    /// Whether the data plane runs.
    pub enabled: bool,
    /// The unprivileged API listen address.
    pub api_listen_address: ListenChoice,
    /// The privileged API listen address.
    pub secure_api_listen_address: ListenChoice,
    /// Whether DogStatsD runs.
    pub dogstatsd: bool,
    /// Whether Checks runs.
    pub checks: bool,
    /// Whether OTLP runs.
    pub otlp: bool,
    /// Whether OTLP proxies to the Core Agent.
    pub otlp_proxy_enabled: bool,
    /// Whether OTLP traces are proxied.
    pub otlp_proxy_traces: bool,
}

/// The native settings a translation assembles.
#[derive(Debug)]
pub struct NativeSettings {
    /// Runtime logging.
    pub logging: RuntimeLoggingConfig,
    /// Top-level decisions.
    pub data_plane: DataPlaneSettings,
    /// The forwarder's endpoints.
    pub endpoints: Vec<Endpoint>,
    /// The forwarder's tuning.
    pub forwarder: ForwarderOverrides,
    /// Whether TLS validation is skipped.
    pub skip_ssl_validation: bool,
    /// The minimum TLS version.
    pub min_tls_version: TlsMinimumVersion,
    /// The TLS key log file, if any.
    pub ssl_key_log_file: Option<String>,
    /// Compression of the metrics encoder.
    pub metrics_compression: CompressionConfig,
    /// Compression of the logs encoder.
    pub logs_compression: CompressionConfig,
    /// Compression of the events encoder.
    pub events_compression: CompressionConfig,
    /// Compression of the service checks encoder.
    pub service_checks_compression: CompressionConfig,
    /// Compression of the traces encoder.
    pub traces_compression: CompressionConfig,
    /// The encoders' payload settings.
    pub encoders: EncoderOverrides,
    /// Multi-region failover, present only when enabled.
    pub multi_region_failover: Option<MultiRegionFailoverSettings>,
    /// The environment traces are tagged with.
    pub default_env: String,
    /// Whether credit card numbers are scrubbed from traces.
    pub scrub_credit_cards: Option<bool>,
    /// The checks domain, whose IPC endpoint is TCP on every interface.
    pub checks: Domain,
    /// The DogStatsD source, aggregation and mapper.
    pub dogstatsd: DogStatsDOverrides,
    /// The DogStatsD mapper's string interner size, in bytes.
    pub mapper_string_interner_bytes: u64,
    /// The DogStatsD mapper's cache size.
    pub mapper_cache_size: usize,
    /// The DogStatsD prefix and blocklist filters.
    pub prefix_filter: PrefixFilterConfig,
    /// The DogStatsD debug log, present only when stats or logging is enabled.
    pub debug_log: Option<DebugLogSettings>,
    /// OTLP.
    pub otlp: OtlpSettings,
}

/// Accumulates native settings while a Datadog configuration is driven over it.
#[derive(Debug)]
pub struct Translator {
    /// The pipeline gates.
    pub gates: PipelineGates,
    /// Runtime logging.
    pub logging: RuntimeLoggingConfig,
    /// Forwarder tuning.
    pub forwarder: ForwarderOverrides,
    /// Encoder payload settings.
    pub encoders: EncoderOverrides,
    /// DogStatsD source, aggregation and mapper.
    pub dogstatsd: DogStatsDOverrides,
    /// The DogStatsD mapper's string interner size, in bytes.
    pub mapper_string_interner_bytes: u64,
    /// The DogStatsD mapper's cache size.
    pub mapper_cache_size: usize,
    /// DogStatsD prefix and blocklist filters.
    pub prefix_filter: PrefixFilterConfig,
    /// Whether per-metric stats are logged.
    pub dsd_metrics_stats_enabled: bool,
    /// Whether the DogStatsD debug log is written.
    pub dsd_logging_enabled: bool,
    /// The DogStatsD debug log file.
    pub dsd_log_file: String,
    /// The DogStatsD debug log's maximum file size, in bytes.
    pub dsd_log_file_max_size: u64,
    /// The DogStatsD debug log's maximum number of rolled files.
    pub dsd_log_file_max_rolls: usize,
    /// OTLP.
    pub otlp: OtlpSettings,
    /// Compression shared by every encoder, applied at `finish`.
    pub compression: CompressionConfig,
    /// The environment traces are tagged with.
    pub default_env: String,
    /// Whether credit card numbers are scrubbed from traces.
    pub scrub_credit_cards: Option<bool>,
    /// Staged API key.
    pub api_key: Option<String>,
    /// Staged intake URL.
    pub dd_url: Option<String>,
    /// Staged site.
    pub site: Option<String>,
    /// Staged additional endpoints, as configured.
    pub additional_endpoints: JsonValue,
    /// Whether multi-region failover is enabled.
    pub mrf_enabled: bool,
    /// Whether metrics fail over.
    pub mrf_failover_metrics: bool,
    /// The metrics that fail over.
    pub mrf_metric_allowlist: Vec<String>,
    /// The failover API key.
    pub mrf_api_key: Option<String>,
    /// The failover intake URL.
    pub mrf_dd_url: Option<String>,
    /// The failover site.
    pub mrf_site: Option<String>,
    /// Staged API listen address.
    pub api_listen_address: Option<String>,
    /// Staged privileged API listen address.
    pub secure_api_listen_address: Option<String>,
    /// Whether TLS validation is skipped.
    pub skip_ssl_validation: bool,
    /// The minimum TLS version.
    pub min_tls_version: TlsMinimumVersion,
    /// The TLS key log file.
    pub ssl_key_log_file: Option<String>,
    /// Whether OTLP metrics are proxied.
    pub otlp_proxy_metrics: bool,
    /// Whether OTLP logs are proxied.
    pub otlp_proxy_logs: bool,
    /// Whether OTLP traces are proxied.
    pub otlp_proxy_traces: bool,
    /// The Core Agent's OTLP gRPC endpoint to proxy to.
    pub otlp_proxy_grpc_endpoint: Option<String>,
    /// The Core Agent's internal traces port.
    pub otlp_traces_internal_port: u16,
}

/// Whether a translator is as [`Translator::new`] makes it for the given knobs and gates.
pub open spec fn is_fresh(t: Translator, private: PrivateKnobs, gates: PipelineGates) -> bool {
    &&& t.gates == gates
    &&& is_default_logging(t.logging)
    &&& t.compression == private.compression
    &&& t.mapper_string_interner_bytes == private.mapper_string_interner_bytes
    &&& t.mapper_cache_size == private.mapper_cache_size
    &&& t.otlp.context_string_interner_bytes == private.otlp_context_string_interner_bytes
    &&& t.otlp.cached_contexts_limit == private.otlp_cached_contexts_limit
    &&& t.otlp.cached_tagsets_limit == private.otlp_cached_tagsets_limit
    &&& t.otlp.allow_context_heap_allocations == private.otlp_allow_context_heap_allocations
    &&& t.otlp.proxy is None
    &&& !t.dsd_metrics_stats_enabled && !t.dsd_logging_enabled
    &&& t.dsd_log_file@.len() == 0
    &&& t.dsd_log_file_max_size == 10485760
    &&& t.dsd_log_file_max_rolls == 1
    &&& t.api_key is None && t.dd_url is None && t.site is None
    &&& !t.mrf_enabled && !t.mrf_failover_metrics && t.mrf_metric_allowlist@.len() == 0
    &&& t.mrf_api_key is None && t.mrf_dd_url is None && t.mrf_site is None
    &&& t.api_listen_address is None && t.secure_api_listen_address is None
    &&& !t.skip_ssl_validation
    &&& t.min_tls_version == TlsMinimumVersion::Tls1_2
    &&& t.ssl_key_log_file is None
    &&& t.otlp_proxy_metrics && t.otlp_proxy_logs && t.otlp_proxy_traces
    &&& t.otlp_proxy_grpc_endpoint is None
    &&& t.otlp_traces_internal_port == 0
    &&& t.default_env@.len() == 0
    &&& t.scrub_credit_cards is None
    &&& t.prefix_filter.metric_filterlist@.len() == 0
    &&& t.prefix_filter.metric_blocklist@.len() == 0
    &&& !t.prefix_filter.metric_filterlist_match_prefix
    &&& !t.prefix_filter.metric_blocklist_match_prefix
    &&& t.additional_endpoints == JsonValue::Null
    &&& t.forwarder == (ForwarderOverrides {
        allow_arbitrary_tags: None,
        endpoint_concurrency: None,
        endpoint_concurrency_multiplier: None,
        request_timeout: None,
        endpoint_buffer_size: None,
        connection_reset_interval: None,
        retry_base_backoff: None,
        retry_max_backoff: None,
        disk_persistence_enabled: None,
    })
    &&& t.encoders == (EncoderOverrides {
        max_payload_size: None,
        max_uncompressed_payload_size: None,
        max_series_payload_size: None,
        max_series_uncompressed_payload_size: None,
        max_series_points_per_payload: None,
        use_v2_api_series: None,
        log_payloads: None,
    })
    &&& t.dogstatsd == (DogStatsDOverrides {
        port: None,
        buffer_size: None,
        socket_receive_buffer_size: None,
        socket_path: None,
        socket_stream_path: None,
        non_local_traffic: None,
        origin_detection: None,
        series: None,
        sketches: None,
        events: None,
        service_checks: None,
        counter_expiry: None,
        flush_open_windows: None,
        passthrough_timestamped_metrics: None,
        histogram_statistics: None,
        histogram_copy_to_distribution: None,
        histogram_copy_to_distribution_prefix: None,
    })
    &&& t.otlp.metrics_enabled is None && t.otlp.logs_enabled is None && t.otlp.traces_enabled is None
    &&& t.otlp.grpc_endpoint is None && t.otlp.http_endpoint is None
}

impl Translator {
    /// Creates a translator seeded with defaults plus the private knobs the Datadog language
    /// cannot express.
    pub fn new(private: &PrivateKnobs, gates: PipelineGates) -> (t: Self)
        ensures
            is_fresh(t, *private, gates),
    {
        proof {
            reveal_strlit("");
        }
        Translator {
            gates,
            logging: RuntimeLoggingConfig::default(),
            forwarder: ForwarderOverrides {
                allow_arbitrary_tags: None,
                endpoint_concurrency: None,
                endpoint_concurrency_multiplier: None,
                request_timeout: None,
                endpoint_buffer_size: None,
                connection_reset_interval: None,
                retry_base_backoff: None,
                retry_max_backoff: None,
                disk_persistence_enabled: None,
            },
            encoders: EncoderOverrides {
                max_payload_size: None,
                max_uncompressed_payload_size: None,
                max_series_payload_size: None,
                max_series_uncompressed_payload_size: None,
                max_series_points_per_payload: None,
                use_v2_api_series: None,
                log_payloads: None,
            },
            dogstatsd: DogStatsDOverrides {
                port: None,
                buffer_size: None,
                socket_receive_buffer_size: None,
                socket_path: None,
                socket_stream_path: None,
                non_local_traffic: None,
                origin_detection: None,
                series: None,
                sketches: None,
                events: None,
                service_checks: None,
                counter_expiry: None,
                flush_open_windows: None,
                passthrough_timestamped_metrics: None,
                histogram_statistics: None,
                histogram_copy_to_distribution: None,
                histogram_copy_to_distribution_prefix: None,
            },
            mapper_string_interner_bytes: private.mapper_string_interner_bytes,
            mapper_cache_size: private.mapper_cache_size,
            prefix_filter: PrefixFilterConfig {
                metric_filterlist: Vec::new(),
                metric_filterlist_match_prefix: false,
                metric_blocklist: Vec::new(),
                metric_blocklist_match_prefix: false,
            },
            dsd_metrics_stats_enabled: false,
            dsd_logging_enabled: false,
            dsd_log_file: owned(""),
            dsd_log_file_max_size: 10485760,
            dsd_log_file_max_rolls: 1,
            otlp: OtlpSettings {
                context_string_interner_bytes: private.otlp_context_string_interner_bytes,
                cached_contexts_limit: private.otlp_cached_contexts_limit,
                cached_tagsets_limit: private.otlp_cached_tagsets_limit,
                allow_context_heap_allocations: private.otlp_allow_context_heap_allocations,
                metrics_enabled: None,
                logs_enabled: None,
                traces_enabled: None,
                grpc_endpoint: None,
                http_endpoint: None,
                proxy: None,
            },
            compression: private.compression,
            default_env: owned(""),
            scrub_credit_cards: None,
            api_key: None,
            dd_url: None,
            site: None,
            additional_endpoints: JsonValue::Null,
            mrf_enabled: false,
            mrf_failover_metrics: false,
            mrf_metric_allowlist: Vec::new(),
            mrf_api_key: None,
            mrf_dd_url: None,
            mrf_site: None,
            api_listen_address: None,
            secure_api_listen_address: None,
            skip_ssl_validation: false,
            min_tls_version: TlsMinimumVersion::Tls1_2,
            ssl_key_log_file: None,
            otlp_proxy_metrics: true,
            otlp_proxy_logs: true,
            otlp_proxy_traces: true,
            otlp_proxy_grpc_endpoint: None,
            otlp_traces_internal_port: 0,
        }
    }
}

/// Copies an optional string.
fn copy_text(o: &Option<String>) -> (r: Option<String>)
    ensures
        r == *o,
{
    match o {
        Some(s) => Some(s.clone()),
        None => None,
    }
}

/// Borrows an optional string's text.
fn as_deref(o: &Option<String>) -> (r: Option<&str>)
    ensures
        opt_view(r) == opt_string_view(*o),
{
    match o {
        Some(s) => Some(s.as_str()),
        None => None,
    }
}

/// Whether the DogStatsD debug log is written: when per-metric stats or debug logging is on.
pub open spec fn debug_log_wanted(t: Translator) -> bool {
    t.dsd_metrics_stats_enabled || t.dsd_logging_enabled
}

/// What `finish` assembles from the staged values, beside the settings it carries over.
pub open spec fn assembled(t: Translator, n: NativeSettings) -> bool {
    &&& endpoints_view(n.endpoints@) == endpoints_of(
        opt_string_view(t.api_key),
        opt_string_view(t.dd_url),
        opt_string_view(t.site),
    )
    &&& n.metrics_compression == t.compression
    &&& n.logs_compression == t.compression
    &&& n.events_compression == t.compression
    &&& n.service_checks_compression == t.compression
    &&& n.traces_compression == t.compression
    &&& n.skip_ssl_validation == t.skip_ssl_validation
    &&& n.min_tls_version == t.min_tls_version
    &&& n.ssl_key_log_file == t.ssl_key_log_file
    &&& (n.otlp.proxy is Some <==> t.otlp_proxy_grpc_endpoint is Some)
    &&& (t.otlp_proxy_grpc_endpoint matches Some(e) ==> (n.otlp.proxy matches Some(p) && p == (
        OtlpProxySettings {
            core_agent_otlp_grpc_endpoint: e,
            proxy_metrics: t.otlp_proxy_metrics,
            proxy_logs: t.otlp_proxy_logs,
            proxy_traces: t.otlp_proxy_traces,
            core_agent_traces_internal_port: t.otlp_traces_internal_port,
        })))
    &&& n.data_plane.enabled == t.gates.enabled
    &&& n.data_plane.api_listen_address == listen_choice(t.api_listen_address, 5100)
    &&& n.data_plane.secure_api_listen_address == listen_choice(t.secure_api_listen_address, 5101)
    &&& n.data_plane.dogstatsd == t.gates.dogstatsd_enabled
    &&& n.data_plane.checks == t.gates.checks_enabled
    &&& n.data_plane.otlp == t.gates.otlp_enabled
    &&& n.data_plane.otlp_proxy_enabled == (t.otlp_proxy_grpc_endpoint is Some)
    &&& n.data_plane.otlp_proxy_traces == t.otlp_proxy_traces
    &&& (n.multi_region_failover is Some <==> t.mrf_enabled)
    &&& (n.multi_region_failover matches Some(m) ==> {
        &&& m.failover_metrics == t.mrf_failover_metrics
        &&& m.metric_allowlist == t.mrf_metric_allowlist
        &&& m.forwarder == t.forwarder
        &&& m.skip_ssl_validation == t.skip_ssl_validation
        &&& m.min_tls_version == t.min_tls_version
        &&& m.ssl_key_log_file == t.ssl_key_log_file
        &&& endpoints_view(m.endpoints@) == endpoints_of(
            opt_string_view(t.mrf_api_key),
            opt_string_view(t.mrf_dd_url),
            opt_string_view(t.mrf_site),
        )
    })
    &&& (n.debug_log is Some <==> debug_log_wanted(t))
    &&& (n.debug_log matches Some(d) ==> d == (DebugLogSettings {
        metrics_stats_enabled: t.dsd_metrics_stats_enabled,
        logging_enabled: t.dsd_logging_enabled,
        log_file: t.dsd_log_file,
        log_file_max_size: t.dsd_log_file_max_size,
        log_file_max_rolls: t.dsd_log_file_max_rolls,
    }))
    &&& n.checks.ipc_endpoint == (ListenAddress::AnyTcp { port: 5004 })
}

/// What `finish` carries over unchanged.
pub open spec fn carried(t: Translator, n: NativeSettings) -> bool {
    &&& n.logging == t.logging
    &&& n.forwarder == t.forwarder
    &&& n.encoders == t.encoders
    &&& n.default_env == t.default_env
    &&& n.scrub_credit_cards == t.scrub_credit_cards
    &&& n.dogstatsd == t.dogstatsd
    &&& n.mapper_string_interner_bytes == t.mapper_string_interner_bytes
    &&& n.mapper_cache_size == t.mapper_cache_size
    &&& n.prefix_filter == t.prefix_filter
    &&& n.otlp.context_string_interner_bytes == t.otlp.context_string_interner_bytes
    &&& n.otlp.cached_contexts_limit == t.otlp.cached_contexts_limit
    &&& n.otlp.cached_tagsets_limit == t.otlp.cached_tagsets_limit
    &&& n.otlp.allow_context_heap_allocations == t.otlp.allow_context_heap_allocations
    &&& n.otlp.metrics_enabled == t.otlp.metrics_enabled
    &&& n.otlp.logs_enabled == t.otlp.logs_enabled
    &&& n.otlp.traces_enabled == t.otlp.traces_enabled
    &&& n.otlp.grpc_endpoint == t.otlp.grpc_endpoint
    &&& n.otlp.http_endpoint == t.otlp.http_endpoint
}

impl Translator {
    /// Assembles the accumulated state into the native settings.
    ///
    /// Compression is applied to every encoder; the forwarder's endpoints come from the staged
    /// API key and intake URL; OTLP proxying is present only when a proxy endpoint was
    /// configured; multi-region failover only when enabled, as the primary forwarder's tuning and
    /// TLS with endpoints of its own; and the DogStatsD debug log only when per-metric stats or
    /// debug logging is on.
    pub fn finish(self) -> (n: NativeSettings)
        ensures
            assembled(self, n),
            carried(self, n),
    {
        let endpoints = build_endpoints(
            as_deref(&self.api_key),
            as_deref(&self.dd_url),
            as_deref(&self.site),
        );
        let proxy = match self.otlp_proxy_grpc_endpoint {
            Some(endpoint) => Some(
                OtlpProxySettings {
                    core_agent_otlp_grpc_endpoint: endpoint,
                    proxy_metrics: self.otlp_proxy_metrics,
                    proxy_logs: self.otlp_proxy_logs,
                    proxy_traces: self.otlp_proxy_traces,
                    core_agent_traces_internal_port: self.otlp_traces_internal_port,
                },
            ),
            None => None,
        };
        let otlp_proxy_enabled = proxy.is_some();
        let multi_region_failover = if self.mrf_enabled {
            let mrf_endpoints = build_endpoints(
                as_deref(&self.mrf_api_key),
                as_deref(&self.mrf_dd_url),
                as_deref(&self.mrf_site),
            );
            Some(
                MultiRegionFailoverSettings {
                    failover_metrics: self.mrf_failover_metrics,
                    metric_allowlist: self.mrf_metric_allowlist,
                    endpoints: mrf_endpoints,
                    forwarder: self.forwarder,
                    skip_ssl_validation: self.skip_ssl_validation,
                    min_tls_version: self.min_tls_version,
                    ssl_key_log_file: copy_text(&self.ssl_key_log_file),
                },
            )
        } else {
            None
        };
        let data_plane = DataPlaneSettings {
            enabled: self.gates.enabled,
            api_listen_address: parse_listen_address(self.api_listen_address, 5100),
            secure_api_listen_address: parse_listen_address(self.secure_api_listen_address, 5101),
            dogstatsd: self.gates.dogstatsd_enabled,
            checks: self.gates.checks_enabled,
            otlp: self.gates.otlp_enabled,
            otlp_proxy_enabled,
            otlp_proxy_traces: self.otlp_proxy_traces,
        };
        let debug_log = if self.dsd_metrics_stats_enabled || self.dsd_logging_enabled {
            Some(
                DebugLogSettings {
                    metrics_stats_enabled: self.dsd_metrics_stats_enabled,
                    logging_enabled: self.dsd_logging_enabled,
                    log_file: self.dsd_log_file,
                    log_file_max_size: self.dsd_log_file_max_size,
                    log_file_max_rolls: self.dsd_log_file_max_rolls,
                },
            )
        } else {
            None
        };
        let otlp = OtlpSettings {
            context_string_interner_bytes: self.otlp.context_string_interner_bytes,
            cached_contexts_limit: self.otlp.cached_contexts_limit,
            cached_tagsets_limit: self.otlp.cached_tagsets_limit,
            allow_context_heap_allocations: self.otlp.allow_context_heap_allocations,
            metrics_enabled: self.otlp.metrics_enabled,
            logs_enabled: self.otlp.logs_enabled,
            traces_enabled: self.otlp.traces_enabled,
            grpc_endpoint: self.otlp.grpc_endpoint,
            http_endpoint: self.otlp.http_endpoint,
            proxy,
        };
        NativeSettings {
            logging: self.logging,
            data_plane,
            endpoints,
            forwarder: self.forwarder,
            skip_ssl_validation: self.skip_ssl_validation,
            min_tls_version: self.min_tls_version,
            ssl_key_log_file: self.ssl_key_log_file,
            metrics_compression: self.compression,
            logs_compression: self.compression,
            events_compression: self.compression,
            service_checks_compression: self.compression,
            traces_compression: self.compression,
            encoders: self.encoders,
            multi_region_failover,
            default_env: self.default_env,
            scrub_credit_cards: self.scrub_credit_cards,
            checks: Domain::listening_on_port(5004),
            dogstatsd: self.dogstatsd,
            mapper_string_interner_bytes: self.mapper_string_interner_bytes,
            mapper_cache_size: self.mapper_cache_size,
            prefix_filter: self.prefix_filter,
            debug_log,
            otlp,
        }
    }
}

/// A consume call, as far as the translation's laws tell calls apart: the compression algorithm,
/// the zstd level and the failover switch each by its value, and every other setting alike.
pub enum ConsumeStep {
    /// `serializer_compressor_kind`, with the value consumed.
    CompressorKind(Option<String>),
    /// `serializer_zstd_compressor_level`, with the value consumed.
    ZstdLevel(i64),
    /// `multi_region_failover_enabled`, with the value consumed.
    MultiRegionFailoverEnabled(bool),
    /// Any other setting.
    Other,
}

/// Whether one consume call, `step`, takes the translator `before` to `after`: the three settings
/// the step names are stored as their consume methods store them, and every other setting leaves
/// the gates, the compression and the failover switch as they were.
pub open spec fn consumes(before: Translator, after: Translator, step: ConsumeStep) -> bool {
    match step {
        ConsumeStep::CompressorKind(v) => after == (Translator {
            compression: CompressionConfig {
                kind: compression_kind_of(opt_string_view(v)),
                ..before.compression
            },
            ..before
        }),
        ConsumeStep::ZstdLevel(l) => after == (Translator {
            compression: CompressionConfig { zstd_level: l as i32, ..before.compression },
            ..before
        }),
        ConsumeStep::MultiRegionFailoverEnabled(b) => after == (Translator { mrf_enabled: b, ..before }),
        ConsumeStep::Other => {
            &&& after.gates == before.gates
            &&& after.compression == before.compression
            &&& after.mrf_enabled == before.mrf_enabled
        },
    }
}

/// Whether `states` are the translator's states along the consume calls `steps`: each call takes
/// one state to the next.
pub open spec fn is_run(states: Seq<Translator>, steps: Seq<ConsumeStep>) -> bool {
    &&& states.len() == steps.len() + 1
    &&& forall|i: int| 0 <= i < steps.len() ==> consumes(#[trigger] states[i], states[i + 1], steps[i])
}

/// The compression `start` becomes along `steps`: the algorithm is that of the last compressor
/// kind consumed, and the zstd level the last level consumed; each stays as `start` has it when
/// none was.
pub open spec fn compression_after(start: CompressionConfig, steps: Seq<ConsumeStep>) -> CompressionConfig
    decreases steps.len(),
{
    if steps.len() == 0 {
        start
    } else {
        let c = compression_after(start, steps.drop_last());
        match steps.last() {
            ConsumeStep::CompressorKind(v) => CompressionConfig {
                kind: compression_kind_of(opt_string_view(v)),
                ..c
            },
            ConsumeStep::ZstdLevel(l) => CompressionConfig { zstd_level: l as i32, ..c },
            _ => c,
        }
    }
}

/// Whether multi-region failover is enabled along `steps`: the last value consumed for it, and
/// off when none was.
pub open spec fn failover_after(steps: Seq<ConsumeStep>) -> bool
    decreases steps.len(),
{
    if steps.len() == 0 {
        false
    } else {
        match steps.last() {
            ConsumeStep::MultiRegionFailoverEnabled(b) => b,
            _ => failover_after(steps.drop_last()),
        }
    }
}

proof fn lemma_run_prefix(
    private: PrivateKnobs,
    gates: PipelineGates,
    states: Seq<Translator>,
    steps: Seq<ConsumeStep>,
    k: int,
)
    requires
        is_fresh(states[0], private, gates),
        is_run(states, steps),
        0 <= k <= steps.len(),
    ensures
        states[k].gates == gates,
        states[k].compression == compression_after(private.compression, steps.take(k)),
        states[k].mrf_enabled == failover_after(steps.take(k)),
    decreases k,
{
    if k == 0 {
        assert(steps.take(0) =~= Seq::<ConsumeStep>::empty());
    } else {
        lemma_run_prefix(private, gates, states, steps, k - 1);
        assert(consumes(states[k - 1], states[k], steps[k - 1]));
        assert(steps.take(k).drop_last() =~= steps.take(k - 1));
        assert(steps.take(k).last() == steps[k - 1]);
    }
}

/// The compression reaches every encoder: after a fresh translator has consumed any sequence of
/// settings, every encoder that `finish` assembles compresses with the configured compression,
/// whose algorithm and zstd level are the last ones consumed, where any was.
pub proof fn compression_reaches_every_encoder(
    private: PrivateKnobs,
    gates: PipelineGates,
    states: Seq<Translator>,
    steps: Seq<ConsumeStep>,
    n: NativeSettings,
)
    requires
        is_fresh(states[0], private, gates),
        is_run(states, steps),
        assembled(states.last(), n),
    ensures
        n.metrics_compression == compression_after(private.compression, steps),
        n.logs_compression == compression_after(private.compression, steps),
        n.events_compression == compression_after(private.compression, steps),
        n.service_checks_compression == compression_after(private.compression, steps),
        n.traces_compression == compression_after(private.compression, steps),
{
    lemma_run_prefix(private, gates, states, steps, steps.len() as int);
    assert(steps.take(steps.len() as int) =~= steps);
}

/// The data plane follows the gates and the failover switch: after a fresh translator has
/// consumed any sequence of settings, `finish` enables the data plane and each of its pipelines
/// as the gates say, reports OTLP proxying exactly when it assembles a proxy, and assembles
/// multi-region failover exactly when the last value consumed for it enabled it.
pub proof fn data_plane_follows_gates(
    private: PrivateKnobs,
    gates: PipelineGates,
    states: Seq<Translator>,
    steps: Seq<ConsumeStep>,
    n: NativeSettings,
)
    requires
        is_fresh(states[0], private, gates),
        is_run(states, steps),
        assembled(states.last(), n),
    ensures
        n.data_plane.enabled == gates.enabled,
        n.data_plane.dogstatsd == gates.dogstatsd_enabled,
        n.data_plane.checks == gates.checks_enabled,
        n.data_plane.otlp == gates.otlp_enabled,
        n.data_plane.otlp_proxy_enabled == (n.otlp.proxy is Some),
        (n.multi_region_failover is Some) == failover_after(steps),
{
    lemma_run_prefix(private, gates, states, steps, steps.len() as int);
    assert(steps.take(steps.len() as int) =~= steps);
}

impl Translator {
    /// Consumes `api_key`.
    pub fn consume_api_key(&mut self, value: Option<String>)
        ensures
            consumes(*old(self), *final(self), ConsumeStep::Other),
            *final(self) == (Translator { api_key: value, ..*old(self) }),
    {
        self.api_key = value;
    }

    /// Consumes `dd_url`.
    pub fn consume_dd_url(&mut self, value: Option<String>)
        ensures
            consumes(*old(self), *final(self), ConsumeStep::Other),
            *final(self) == (Translator { dd_url: value, ..*old(self) }),
    {
        self.dd_url = value;
    }

    /// Consumes `site`.
    pub fn consume_site(&mut self, value: Option<String>)
        ensures
            consumes(*old(self), *final(self), ConsumeStep::Other),
            *final(self) == (Translator { site: value, ..*old(self) }),
    {
        self.site = value;
    }

    /// Consumes `additional_endpoints`.
    pub fn consume_additional_endpoints(&mut self, value: JsonValue)
        ensures
            consumes(*old(self), *final(self), ConsumeStep::Other),
            *final(self) == (Translator { additional_endpoints: value, ..*old(self) }),
    {
        self.additional_endpoints = value;
    }

    /// Consumes `allow_arbitrary_tags`.
    pub fn consume_allow_arbitrary_tags(&mut self, value: bool)
        ensures
            consumes(*old(self), *final(self), ConsumeStep::Other),
            *final(self) == (Translator { forwarder: ForwarderOverrides { allow_arbitrary_tags: Some(value), ..old(self).forwarder }, ..*old(self) }),
    {
        self.forwarder.allow_arbitrary_tags = Some(value);
    }

    /// Consumes `forwarder_max_concurrent_requests`.
    pub fn consume_forwarder_max_concurrent_requests(&mut self, value: i64)
        ensures
            consumes(*old(self), *final(self), ConsumeStep::Other),
            *final(self) == (Translator { forwarder: ForwarderOverrides { endpoint_concurrency: Some(at_least_one(value)), ..old(self).forwarder }, ..*old(self) }),
    {
        self.forwarder.endpoint_concurrency = Some(positive_size(value));
    }

    /// Consumes `forwarder_num_workers`.
    pub fn consume_forwarder_num_workers(&mut self, value: i64)
        ensures
            consumes(*old(self), *final(self), ConsumeStep::Other),
            *final(self) == (Translator { forwarder: ForwarderOverrides { endpoint_concurrency_multiplier: Some(at_least_one(value)), ..old(self).forwarder }, ..*old(self) }),
    {
        self.forwarder.endpoint_concurrency_multiplier = Some(positive_size(value));
    }

    /// Consumes `forwarder_timeout`.
    pub fn consume_forwarder_timeout(&mut self, value: i64)
        ensures
            consumes(*old(self), *final(self), ConsumeStep::Other),
            *final(self) == (Translator { forwarder: ForwarderOverrides { request_timeout: Some(seconds(clamped_secs(value))), ..old(self).forwarder }, ..*old(self) }),
    {
        self.forwarder.request_timeout = Some(secs(value));
    }

    /// Consumes `forwarder_high_prio_buffer_size`.
    pub fn consume_forwarder_high_prio_buffer_size(&mut self, value: i64)
        ensures
            consumes(*old(self), *final(self), ConsumeStep::Other),
            *final(self) == (Translator { forwarder: ForwarderOverrides { endpoint_buffer_size: Some(size_of_count(value)), ..old(self).forwarder }, ..*old(self) }),
    {
        self.forwarder.endpoint_buffer_size = Some(non_negative_size(value));
    }

    /// Consumes `forwarder_connection_reset_interval`.
    pub fn consume_forwarder_connection_reset_interval(&mut self, value: i64)
        ensures
            consumes(*old(self), *final(self), ConsumeStep::Other),
            *final(self) == (Translator { forwarder: ForwarderOverrides { connection_reset_interval: Some(if value > 0 { Some(seconds(clamped_secs(value))) } else { None }), ..old(self).forwarder }, ..*old(self) }),
    {
        self.forwarder.connection_reset_interval = Some(if value > 0 { Some(secs(value)) } else { None });
    }

    /// Consumes `forwarder_backoff_base`.
    pub fn consume_forwarder_backoff_base(&mut self, value: i64)
        ensures
            consumes(*old(self), *final(self), ConsumeStep::Other),
            *final(self) == (Translator { forwarder: ForwarderOverrides { retry_base_backoff: Some(seconds(clamped_secs(value))), ..old(self).forwarder }, ..*old(self) }),
    {
        self.forwarder.retry_base_backoff = Some(secs(value));
    }

    /// Consumes `forwarder_backoff_max`.
    pub fn consume_forwarder_backoff_max(&mut self, value: i64)
        ensures
            consumes(*old(self), *final(self), ConsumeStep::Other),
            *final(self) == (Translator { forwarder: ForwarderOverrides { retry_max_backoff: Some(seconds(clamped_secs(value))), ..old(self).forwarder }, ..*old(self) }),
    {
        self.forwarder.retry_max_backoff = Some(secs(value));
    }

    /// Consumes `forwarder_storage_max_size_in_bytes`.
    pub fn consume_forwarder_storage_max_size_in_bytes(&mut self, value: i64)
        ensures
            consumes(*old(self), *final(self), ConsumeStep::Other),
            *final(self) == (Translator { forwarder: ForwarderOverrides { disk_persistence_enabled: Some(value > 0), ..old(self).forwarder }, ..*old(self) }),
    {
        self.forwarder.disk_persistence_enabled = Some(value > 0);
    }

    /// Consumes `skip_ssl_validation`.
    pub fn consume_skip_ssl_validation(&mut self, value: bool)
        ensures
            consumes(*old(self), *final(self), ConsumeStep::Other),
            *final(self) == (Translator { skip_ssl_validation: value, ..*old(self) }),
    {
        self.skip_ssl_validation = value;
    }

    /// Consumes `min_tls_version`.
    pub fn consume_min_tls_version(&mut self, value: Option<String>)
        ensures
            consumes(*old(self), *final(self), ConsumeStep::Other),
            *final(self) == (Translator { min_tls_version: tls_version_of(opt_string_view(value)), ..*old(self) }),
    {
        self.min_tls_version = min_tls_version(as_deref(&value));
    }

    /// Consumes `sslkeylogfile`.
    pub fn consume_sslkeylogfile(&mut self, value: Option<String>)
        ensures
            consumes(*old(self), *final(self), ConsumeStep::Other),
            *final(self) == (Translator { ssl_key_log_file: if is_set(opt_string_view(value)) { value } else { None }, ..*old(self) }),
    {
        self.ssl_key_log_file = non_empty(value);
    }

    /// Consumes `log_level`.
    pub fn consume_log_level(&mut self, value: Option<String>)
        ensures
            consumes(*old(self), *final(self), ConsumeStep::Other),
            *final(self) == (Translator { logging: RuntimeLoggingConfig { log_level: value, ..old(self).logging }, ..*old(self) }),
    {
        self.logging.log_level = value;
    }

    /// Consumes `log_format_rfc3339`.
    pub fn consume_log_format_rfc3339(&mut self, value: bool)
        ensures
            consumes(*old(self), *final(self), ConsumeStep::Other),
            *final(self) == (Translator { logging: RuntimeLoggingConfig { log_format_rfc3339: value, ..old(self).logging }, ..*old(self) }),
    {
        self.logging.log_format_rfc3339 = value;
    }

    /// Consumes `syslog_rfc`.
    pub fn consume_syslog_rfc(&mut self, value: bool)
        ensures
            consumes(*old(self), *final(self), ConsumeStep::Other),
            *final(self) == (Translator { logging: RuntimeLoggingConfig { syslog_rfc: value, ..old(self).logging }, ..*old(self) }),
    {
        self.logging.syslog_rfc = value;
    }

    /// Consumes `syslog_uri`.
    pub fn consume_syslog_uri(&mut self, value: Option<String>)
        ensures
            consumes(*old(self), *final(self), ConsumeStep::Other),
            *final(self) == (Translator { logging: RuntimeLoggingConfig { syslog_uri: match value { Some(uri) => uri, None => old(self).logging.syslog_uri }, ..old(self).logging }, ..*old(self) }),
    {
        if let Some(uri) = value { self.logging.syslog_uri = uri; }
    }

    /// Consumes `data_plane_log_file`.
    pub fn consume_data_plane_log_file(&mut self, value: Option<String>)
        ensures
            consumes(*old(self), *final(self), ConsumeStep::Other),
            *final(self) == (Translator { logging: RuntimeLoggingConfig { log_file: match value { Some(path) => path, None => old(self).logging.log_file }, ..old(self).logging }, ..*old(self) }),
    {
        if let Some(path) = value { self.logging.log_file = path; }
    }

    /// Consumes `serializer_max_payload_size`.
    pub fn consume_serializer_max_payload_size(&mut self, value: i64)
        ensures
            consumes(*old(self), *final(self), ConsumeStep::Other),
            *final(self) == (Translator { encoders: EncoderOverrides { max_payload_size: Some(size_of_count(value)), ..old(self).encoders }, ..*old(self) }),
    {
        self.encoders.max_payload_size = Some(non_negative_size(value));
    }

    /// Consumes `serializer_max_uncompressed_payload_size`.
    pub fn consume_serializer_max_uncompressed_payload_size(&mut self, value: i64)
        ensures
            consumes(*old(self), *final(self), ConsumeStep::Other),
            *final(self) == (Translator { encoders: EncoderOverrides { max_uncompressed_payload_size: Some(size_of_count(value)), ..old(self).encoders }, ..*old(self) }),
    {
        self.encoders.max_uncompressed_payload_size = Some(non_negative_size(value));
    }

    /// Consumes `serializer_max_series_payload_size`.
    pub fn consume_serializer_max_series_payload_size(&mut self, value: i64)
        ensures
            consumes(*old(self), *final(self), ConsumeStep::Other),
            *final(self) == (Translator { encoders: EncoderOverrides { max_series_payload_size: Some(size_of_count(value)), ..old(self).encoders }, ..*old(self) }),
    {
        self.encoders.max_series_payload_size = Some(non_negative_size(value));
    }

    /// Consumes `serializer_max_series_uncompressed_payload_size`.
    pub fn consume_serializer_max_series_uncompressed_payload_size(&mut self, value: i64)
        ensures
            consumes(*old(self), *final(self), ConsumeStep::Other),
            *final(self) == (Translator { encoders: EncoderOverrides { max_series_uncompressed_payload_size: Some(size_of_count(value)), ..old(self).encoders }, ..*old(self) }),
    {
        self.encoders.max_series_uncompressed_payload_size = Some(non_negative_size(value));
    }

    /// Consumes `serializer_max_series_points_per_payload`.
    pub fn consume_serializer_max_series_points_per_payload(&mut self, value: i64)
        ensures
            consumes(*old(self), *final(self), ConsumeStep::Other),
            *final(self) == (Translator { encoders: EncoderOverrides { max_series_points_per_payload: Some(size_of_count(value)), ..old(self).encoders }, ..*old(self) }),
    {
        self.encoders.max_series_points_per_payload = Some(non_negative_size(value));
    }

    /// Consumes `serializer_compressor_kind`.
    pub fn consume_serializer_compressor_kind(&mut self, value: Option<String>)
        ensures
            consumes(*old(self), *final(self), ConsumeStep::CompressorKind(value)),
            *final(self) == (Translator { compression: CompressionConfig { kind: compression_kind_of(opt_string_view(value)), ..old(self).compression }, ..*old(self) }),
    {
        self.compression.kind = compressor_kind(as_deref(&value));
    }

    /// Consumes `serializer_zstd_compressor_level`.
    pub fn consume_serializer_zstd_compressor_level(&mut self, value: i64)
        ensures
            consumes(*old(self), *final(self), ConsumeStep::ZstdLevel(value)),
            *final(self) == (Translator { compression: CompressionConfig { zstd_level: value as i32, ..old(self).compression }, ..*old(self) }),
    {
        self.compression.zstd_level = value as i32;
    }

    /// Consumes `use_v2_api_series`.
    pub fn consume_use_v2_api_series(&mut self, value: bool)
        ensures
            consumes(*old(self), *final(self), ConsumeStep::Other),
            *final(self) == (Translator { encoders: EncoderOverrides { use_v2_api_series: Some(value), ..old(self).encoders }, ..*old(self) }),
    {
        self.encoders.use_v2_api_series = Some(value);
    }

    /// Consumes `log_payloads`.
    pub fn consume_log_payloads(&mut self, value: bool)
        ensures
            consumes(*old(self), *final(self), ConsumeStep::Other),
            *final(self) == (Translator { encoders: EncoderOverrides { log_payloads: Some(value), ..old(self).encoders }, ..*old(self) }),
    {
        self.encoders.log_payloads = Some(value);
    }

    /// Consumes `env`; absent, the environment is empty.
    pub fn consume_env(&mut self, value: Option<String>)
        ensures
            consumes(*old(self), *final(self), ConsumeStep::Other),
            *final(self) == (Translator { default_env: final(self).default_env, ..*old(self) }),
            final(self).default_env@ == (match value {
                Some(env) => env@,
                None => Seq::<char>::empty(),
            }),
    {
        proof {
            reveal_strlit("");
        }
        self.default_env = match value {
            Some(env) => env,
            None => owned(""),
        };
    }

    /// Consumes `apm_config_obfuscation_credit_cards_enabled`.
    pub fn consume_apm_config_obfuscation_credit_cards_enabled(&mut self, value: bool)
        ensures
            consumes(*old(self), *final(self), ConsumeStep::Other),
            *final(self) == (Translator { scrub_credit_cards: Some(value), ..*old(self) }),
    {
        self.scrub_credit_cards = Some(value);
    }

    /// Consumes `multi_region_failover_enabled`.
    pub fn consume_multi_region_failover_enabled(&mut self, value: bool)
        ensures
            consumes(*old(self), *final(self), ConsumeStep::MultiRegionFailoverEnabled(value)),
            *final(self) == (Translator { mrf_enabled: value, ..*old(self) }),
    {
        self.mrf_enabled = value;
    }

    /// Consumes `multi_region_failover_api_key`.
    pub fn consume_multi_region_failover_api_key(&mut self, value: Option<String>)
        ensures
            consumes(*old(self), *final(self), ConsumeStep::Other),
            *final(self) == (Translator { mrf_api_key: value, ..*old(self) }),
    {
        self.mrf_api_key = value;
    }

    /// Consumes `multi_region_failover_dd_url`.
    pub fn consume_multi_region_failover_dd_url(&mut self, value: Option<String>)
        ensures
            consumes(*old(self), *final(self), ConsumeStep::Other),
            *final(self) == (Translator { mrf_dd_url: value, ..*old(self) }),
    {
        self.mrf_dd_url = value;
    }

    /// Consumes `multi_region_failover_site`.
    pub fn consume_multi_region_failover_site(&mut self, value: Option<String>)
        ensures
            consumes(*old(self), *final(self), ConsumeStep::Other),
            *final(self) == (Translator { mrf_site: value, ..*old(self) }),
    {
        self.mrf_site = value;
    }

    /// Consumes `multi_region_failover_failover_metrics`.
    pub fn consume_multi_region_failover_failover_metrics(&mut self, value: bool)
        ensures
            consumes(*old(self), *final(self), ConsumeStep::Other),
            *final(self) == (Translator { mrf_failover_metrics: value, ..*old(self) }),
    {
        self.mrf_failover_metrics = value;
    }

    /// Consumes `multi_region_failover_metric_allowlist`.
    pub fn consume_multi_region_failover_metric_allowlist(&mut self, value: Vec<String>)
        ensures
            consumes(*old(self), *final(self), ConsumeStep::Other),
            *final(self) == (Translator { mrf_metric_allowlist: value, ..*old(self) }),
    {
        self.mrf_metric_allowlist = value;
    }

    /// Consumes `dogstatsd_port`.
    pub fn consume_dogstatsd_port(&mut self, value: i64)
        ensures
            consumes(*old(self), *final(self), ConsumeStep::Other),
            *final(self) == (Translator { dogstatsd: DogStatsDOverrides { port: Some(port_of(value)), ..old(self).dogstatsd }, ..*old(self) }),
    {
        self.dogstatsd.port = Some(clamp_port(value));
    }

    /// Consumes `dogstatsd_buffer_size`.
    pub fn consume_dogstatsd_buffer_size(&mut self, value: i64)
        ensures
            consumes(*old(self), *final(self), ConsumeStep::Other),
            *final(self) == (Translator { dogstatsd: DogStatsDOverrides { buffer_size: Some(size_of_count(value)), ..old(self).dogstatsd }, ..*old(self) }),
    {
        self.dogstatsd.buffer_size = Some(non_negative_size(value));
    }

    /// Consumes `dogstatsd_so_rcvbuf`.
    pub fn consume_dogstatsd_so_rcvbuf(&mut self, value: i64)
        ensures
            consumes(*old(self), *final(self), ConsumeStep::Other),
            *final(self) == (Translator { dogstatsd: DogStatsDOverrides { socket_receive_buffer_size: Some(if value > 0 { Some(value as usize) } else { None }), ..old(self).dogstatsd }, ..*old(self) }),
    {
        self.dogstatsd.socket_receive_buffer_size = Some(if value > 0 { Some(value as usize) } else { None });
    }

    /// Consumes `dogstatsd_socket`.
    pub fn consume_dogstatsd_socket(&mut self, value: Option<String>)
        ensures
            consumes(*old(self), *final(self), ConsumeStep::Other),
            *final(self) == (Translator { dogstatsd: DogStatsDOverrides { socket_path: Some(if is_set(opt_string_view(value)) { value } else { None }), ..old(self).dogstatsd }, ..*old(self) }),
    {
        self.dogstatsd.socket_path = Some(non_empty(value));
    }

    /// Consumes `dogstatsd_stream_socket`.
    pub fn consume_dogstatsd_stream_socket(&mut self, value: Option<String>)
        ensures
            consumes(*old(self), *final(self), ConsumeStep::Other),
            *final(self) == (Translator { dogstatsd: DogStatsDOverrides { socket_stream_path: Some(if is_set(opt_string_view(value)) { value } else { None }), ..old(self).dogstatsd }, ..*old(self) }),
    {
        self.dogstatsd.socket_stream_path = Some(non_empty(value));
    }

    /// Consumes `dogstatsd_non_local_traffic`.
    pub fn consume_dogstatsd_non_local_traffic(&mut self, value: bool)
        ensures
            consumes(*old(self), *final(self), ConsumeStep::Other),
            *final(self) == (Translator { dogstatsd: DogStatsDOverrides { non_local_traffic: Some(value), ..old(self).dogstatsd }, ..*old(self) }),
    {
        self.dogstatsd.non_local_traffic = Some(value);
    }

    /// Consumes `dogstatsd_origin_detection`.
    pub fn consume_dogstatsd_origin_detection(&mut self, value: bool)
        ensures
            consumes(*old(self), *final(self), ConsumeStep::Other),
            *final(self) == (Translator { dogstatsd: DogStatsDOverrides { origin_detection: Some(value), ..old(self).dogstatsd }, ..*old(self) }),
    {
        self.dogstatsd.origin_detection = Some(value);
    }

    /// Consumes `enable_payloads_series`.
    pub fn consume_enable_payloads_series(&mut self, value: bool)
        ensures
            consumes(*old(self), *final(self), ConsumeStep::Other),
            *final(self) == (Translator { dogstatsd: DogStatsDOverrides { series: Some(value), ..old(self).dogstatsd }, ..*old(self) }),
    {
        self.dogstatsd.series = Some(value);
    }

    /// Consumes `enable_payloads_sketches`.
    pub fn consume_enable_payloads_sketches(&mut self, value: bool)
        ensures
            consumes(*old(self), *final(self), ConsumeStep::Other),
            *final(self) == (Translator { dogstatsd: DogStatsDOverrides { sketches: Some(value), ..old(self).dogstatsd }, ..*old(self) }),
    {
        self.dogstatsd.sketches = Some(value);
    }

    /// Consumes `enable_payloads_events`.
    pub fn consume_enable_payloads_events(&mut self, value: bool)
        ensures
            consumes(*old(self), *final(self), ConsumeStep::Other),
            *final(self) == (Translator { dogstatsd: DogStatsDOverrides { events: Some(value), ..old(self).dogstatsd }, ..*old(self) }),
    {
        self.dogstatsd.events = Some(value);
    }

    /// Consumes `enable_payloads_service_checks`.
    pub fn consume_enable_payloads_service_checks(&mut self, value: bool)
        ensures
            consumes(*old(self), *final(self), ConsumeStep::Other),
            *final(self) == (Translator { dogstatsd: DogStatsDOverrides { service_checks: Some(value), ..old(self).dogstatsd }, ..*old(self) }),
    {
        self.dogstatsd.service_checks = Some(value);
    }

    /// Consumes `dogstatsd_flush_incomplete_buckets`.
    pub fn consume_dogstatsd_flush_incomplete_buckets(&mut self, value: bool)
        ensures
            consumes(*old(self), *final(self), ConsumeStep::Other),
            *final(self) == (Translator { dogstatsd: DogStatsDOverrides { flush_open_windows: Some(value), ..old(self).dogstatsd }, ..*old(self) }),
    {
        self.dogstatsd.flush_open_windows = Some(value);
    }

    /// Consumes `dogstatsd_no_aggregation_pipeline`.
    pub fn consume_dogstatsd_no_aggregation_pipeline(&mut self, value: bool)
        ensures
            consumes(*old(self), *final(self), ConsumeStep::Other),
            *final(self) == (Translator { dogstatsd: DogStatsDOverrides { passthrough_timestamped_metrics: Some(value), ..old(self).dogstatsd }, ..*old(self) }),
    {
        self.dogstatsd.passthrough_timestamped_metrics = Some(value);
    }

    /// Consumes `histogram_copy_to_distribution`.
    pub fn consume_histogram_copy_to_distribution(&mut self, value: bool)
        ensures
            consumes(*old(self), *final(self), ConsumeStep::Other),
            *final(self) == (Translator { dogstatsd: DogStatsDOverrides { histogram_copy_to_distribution: Some(value), ..old(self).dogstatsd }, ..*old(self) }),
    {
        self.dogstatsd.histogram_copy_to_distribution = Some(value);
    }

    /// Consumes `dogstatsd_context_expiry_seconds`.
    pub fn consume_dogstatsd_context_expiry_seconds(&mut self, value: i64)
        ensures
            consumes(*old(self), *final(self), ConsumeStep::Other),
            *final(self) == (Translator { dogstatsd: DogStatsDOverrides { counter_expiry: Some(if value > 0 { Some(seconds(clamped_secs(value))) } else { None }), ..old(self).dogstatsd }, ..*old(self) }),
    {
        self.dogstatsd.counter_expiry = Some(if value > 0 { Some(secs(value)) } else { None });
    }

    /// Consumes `histogram_aggregates`.
    pub fn consume_histogram_aggregates(&mut self, value: Vec<String>)
        ensures
            consumes(*old(self), *final(self), ConsumeStep::Other),
            *final(self) == (Translator { dogstatsd: DogStatsDOverrides { histogram_statistics: if value@.len() > 0 { Some(value) } else { old(self).dogstatsd.histogram_statistics }, ..old(self).dogstatsd }, ..*old(self) }),
    {
        if value.len() > 0 { self.dogstatsd.histogram_statistics = Some(value); }
    }

    /// Consumes `histogram_copy_to_distribution_prefix`.
    pub fn consume_histogram_copy_to_distribution_prefix(&mut self, value: Option<String>)
        ensures
            consumes(*old(self), *final(self), ConsumeStep::Other),
            *final(self) == (Translator { dogstatsd: DogStatsDOverrides { histogram_copy_to_distribution_prefix: match value { Some(prefix) => Some(prefix), None => old(self).dogstatsd.histogram_copy_to_distribution_prefix }, ..old(self).dogstatsd }, ..*old(self) }),
    {
        if let Some(prefix) = value { self.dogstatsd.histogram_copy_to_distribution_prefix = Some(prefix); }
    }

    /// Consumes `dogstatsd_mapper_cache_size`.
    pub fn consume_dogstatsd_mapper_cache_size(&mut self, value: i64)
        ensures
            consumes(*old(self), *final(self), ConsumeStep::Other),
            *final(self) == (Translator { mapper_cache_size: size_of_count(value), ..*old(self) }),
    {
        self.mapper_cache_size = non_negative_size(value);
    }

    /// Consumes `metric_filterlist`.
    pub fn consume_metric_filterlist(&mut self, value: Vec<String>)
        ensures
            consumes(*old(self), *final(self), ConsumeStep::Other),
            *final(self) == (Translator { prefix_filter: PrefixFilterConfig { metric_filterlist: value, ..old(self).prefix_filter }, ..*old(self) }),
    {
        self.prefix_filter.metric_filterlist = value;
    }

    /// Consumes `metric_filterlist_match_prefix`.
    pub fn consume_metric_filterlist_match_prefix(&mut self, value: bool)
        ensures
            consumes(*old(self), *final(self), ConsumeStep::Other),
            *final(self) == (Translator { prefix_filter: PrefixFilterConfig { metric_filterlist_match_prefix: value, ..old(self).prefix_filter }, ..*old(self) }),
    {
        self.prefix_filter.metric_filterlist_match_prefix = value;
    }

    /// Consumes `statsd_metric_blocklist`.
    pub fn consume_statsd_metric_blocklist(&mut self, value: Vec<String>)
        ensures
            consumes(*old(self), *final(self), ConsumeStep::Other),
            *final(self) == (Translator { prefix_filter: PrefixFilterConfig { metric_blocklist: value, ..old(self).prefix_filter }, ..*old(self) }),
    {
        self.prefix_filter.metric_blocklist = value;
    }

    /// Consumes `statsd_metric_blocklist_match_prefix`.
    pub fn consume_statsd_metric_blocklist_match_prefix(&mut self, value: bool)
        ensures
            consumes(*old(self), *final(self), ConsumeStep::Other),
            *final(self) == (Translator { prefix_filter: PrefixFilterConfig { metric_blocklist_match_prefix: value, ..old(self).prefix_filter }, ..*old(self) }),
    {
        self.prefix_filter.metric_blocklist_match_prefix = value;
    }

    /// Consumes `dogstatsd_metrics_stats_enable`.
    pub fn consume_dogstatsd_metrics_stats_enable(&mut self, value: bool)
        ensures
            consumes(*old(self), *final(self), ConsumeStep::Other),
            *final(self) == (Translator { dsd_metrics_stats_enabled: value, ..*old(self) }),
    {
        self.dsd_metrics_stats_enabled = value;
    }

    /// Consumes `dogstatsd_logging_enabled`.
    pub fn consume_dogstatsd_logging_enabled(&mut self, value: bool)
        ensures
            consumes(*old(self), *final(self), ConsumeStep::Other),
            *final(self) == (Translator { dsd_logging_enabled: value, ..*old(self) }),
    {
        self.dsd_logging_enabled = value;
    }

    /// Consumes `dogstatsd_log_file`.
    pub fn consume_dogstatsd_log_file(&mut self, value: Option<String>)
        ensures
            consumes(*old(self), *final(self), ConsumeStep::Other),
            *final(self) == (Translator { dsd_log_file: match value { Some(path) => path, None => old(self).dsd_log_file }, ..*old(self) }),
    {
        if let Some(path) = value { self.dsd_log_file = path; }
    }

    /// Consumes `dogstatsd_log_file_max_rolls`.
    pub fn consume_dogstatsd_log_file_max_rolls(&mut self, value: i64)
        ensures
            consumes(*old(self), *final(self), ConsumeStep::Other),
            *final(self) == (Translator { dsd_log_file_max_rolls: size_of_count(value), ..*old(self) }),
    {
        self.dsd_log_file_max_rolls = non_negative_size(value);
    }

    /// Consumes `otlp_config_metrics_enabled`.
    pub fn consume_otlp_config_metrics_enabled(&mut self, value: bool)
        ensures
            consumes(*old(self), *final(self), ConsumeStep::Other),
            *final(self) == (Translator { otlp: OtlpSettings { metrics_enabled: Some(value), ..old(self).otlp }, ..*old(self) }),
    {
        self.otlp.metrics_enabled = Some(value);
    }

    /// Consumes `otlp_config_logs_enabled`.
    pub fn consume_otlp_config_logs_enabled(&mut self, value: bool)
        ensures
            consumes(*old(self), *final(self), ConsumeStep::Other),
            *final(self) == (Translator { otlp: OtlpSettings { logs_enabled: Some(value), ..old(self).otlp }, ..*old(self) }),
    {
        self.otlp.logs_enabled = Some(value);
    }

    /// Consumes `otlp_config_traces_enabled`.
    pub fn consume_otlp_config_traces_enabled(&mut self, value: bool)
        ensures
            consumes(*old(self), *final(self), ConsumeStep::Other),
            *final(self) == (Translator { otlp: OtlpSettings { traces_enabled: Some(value), ..old(self).otlp }, ..*old(self) }),
    {
        self.otlp.traces_enabled = Some(value);
    }

    /// Consumes `otlp_config_receiver_protocols_grpc_endpoint`.
    pub fn consume_otlp_config_receiver_protocols_grpc_endpoint(&mut self, value: Option<String>)
        ensures
            consumes(*old(self), *final(self), ConsumeStep::Other),
            *final(self) == (Translator { otlp: OtlpSettings { grpc_endpoint: Some(if is_set(opt_string_view(value)) { value } else { None }), ..old(self).otlp }, ..*old(self) }),
    {
        self.otlp.grpc_endpoint = Some(non_empty(value));
    }

    /// Consumes `otlp_config_receiver_protocols_http_endpoint`.
    pub fn consume_otlp_config_receiver_protocols_http_endpoint(&mut self, value: Option<String>)
        ensures
            consumes(*old(self), *final(self), ConsumeStep::Other),
            *final(self) == (Translator { otlp: OtlpSettings { http_endpoint: Some(if is_set(opt_string_view(value)) { value } else { None }), ..old(self).otlp }, ..*old(self) }),
    {
        self.otlp.http_endpoint = Some(non_empty(value));
    }

    /// Consumes `otlp_config_traces_internal_port`.
    pub fn consume_otlp_config_traces_internal_port(&mut self, value: i64)
        ensures
            consumes(*old(self), *final(self), ConsumeStep::Other),
            *final(self) == (Translator { otlp_traces_internal_port: port_of(value), ..*old(self) }),
    {
        self.otlp_traces_internal_port = clamp_port(value);
    }

    /// Consumes `data_plane_otlp_proxy_metrics_enabled`.
    pub fn consume_data_plane_otlp_proxy_metrics_enabled(&mut self, value: bool)
        ensures
            consumes(*old(self), *final(self), ConsumeStep::Other),
            *final(self) == (Translator { otlp_proxy_metrics: value, ..*old(self) }),
    {
        self.otlp_proxy_metrics = value;
    }

    /// Consumes `data_plane_otlp_proxy_logs_enabled`.
    pub fn consume_data_plane_otlp_proxy_logs_enabled(&mut self, value: bool)
        ensures
            consumes(*old(self), *final(self), ConsumeStep::Other),
            *final(self) == (Translator { otlp_proxy_logs: value, ..*old(self) }),
    {
        self.otlp_proxy_logs = value;
    }

    /// Consumes `data_plane_otlp_proxy_traces_enabled`.
    pub fn consume_data_plane_otlp_proxy_traces_enabled(&mut self, value: bool)
        ensures
            consumes(*old(self), *final(self), ConsumeStep::Other),
            *final(self) == (Translator { otlp_proxy_traces: value, ..*old(self) }),
    {
        self.otlp_proxy_traces = value;
    }

    /// Consumes `data_plane_api_listen_address`.
    pub fn consume_data_plane_api_listen_address(&mut self, value: Option<String>)
        ensures
            consumes(*old(self), *final(self), ConsumeStep::Other),
            *final(self) == (Translator { api_listen_address: value, ..*old(self) }),
    {
        self.api_listen_address = value;
    }

    /// Consumes `data_plane_secure_api_listen_address`.
    pub fn consume_data_plane_secure_api_listen_address(&mut self, value: Option<String>)
        ensures
            consumes(*old(self), *final(self), ConsumeStep::Other),
            *final(self) == (Translator { secure_api_listen_address: value, ..*old(self) }),
    {
        self.secure_api_listen_address = value;
    }

}


impl Translator {
    /// Consumes `forwarder_apikey_validation_interval`, which ADP does not use.
    pub fn consume_forwarder_apikey_validation_interval(&mut self, _value: i64)
        ensures
            consumes(*old(self), *final(self), ConsumeStep::Other),
            *final(self) == *old(self),
    {
    }

    /// Consumes `forwarder_backoff_factor`, which ADP does not use.
    pub fn consume_forwarder_backoff_factor(&mut self, _value: i64)
        ensures
            consumes(*old(self), *final(self), ConsumeStep::Other),
            *final(self) == *old(self),
    {
    }

    /// Consumes `forwarder_http_protocol`, which ADP does not use.
    pub fn consume_forwarder_http_protocol(&mut self, _value: Option<String>)
        ensures
            consumes(*old(self), *final(self), ConsumeStep::Other),
            *final(self) == *old(self),
    {
    }

    /// Consumes `forwarder_outdated_file_in_days`, which ADP does not use.
    pub fn consume_forwarder_outdated_file_in_days(&mut self, _value: i64)
        ensures
            consumes(*old(self), *final(self), ConsumeStep::Other),
            *final(self) == *old(self),
    {
    }

    /// Consumes `forwarder_recovery_interval`, which ADP does not use.
    pub fn consume_forwarder_recovery_interval(&mut self, _value: i64)
        ensures
            consumes(*old(self), *final(self), ConsumeStep::Other),
            *final(self) == *old(self),
    {
    }

    /// Consumes `forwarder_recovery_reset`, which ADP does not use.
    pub fn consume_forwarder_recovery_reset(&mut self, _value: bool)
        ensures
            consumes(*old(self), *final(self), ConsumeStep::Other),
            *final(self) == *old(self),
    {
    }

    /// Consumes `forwarder_retry_queue_capacity_time_interval_sec`, which ADP does not use.
    pub fn consume_forwarder_retry_queue_capacity_time_interval_sec(&mut self, _value: i64)
        ensures
            consumes(*old(self), *final(self), ConsumeStep::Other),
            *final(self) == *old(self),
    {
    }

    /// Consumes `forwarder_retry_queue_max_size`, which ADP does not use.
    pub fn consume_forwarder_retry_queue_max_size(&mut self, _value: i64)
        ensures
            consumes(*old(self), *final(self), ConsumeStep::Other),
            *final(self) == *old(self),
    {
    }

    /// Consumes `forwarder_retry_queue_payloads_max_size`, which ADP does not use.
    pub fn consume_forwarder_retry_queue_payloads_max_size(&mut self, _value: i64)
        ensures
            consumes(*old(self), *final(self), ConsumeStep::Other),
            *final(self) == *old(self),
    {
    }

    /// Consumes `forwarder_storage_path`, which ADP does not use.
    pub fn consume_forwarder_storage_path(&mut self, _value: Option<String>)
        ensures
            consumes(*old(self), *final(self), ConsumeStep::Other),
            *final(self) == *old(self),
    {
    }

    /// Consumes `proxy_http`, which ADP does not use.
    pub fn consume_proxy_http(&mut self, _value: Option<String>)
        ensures
            consumes(*old(self), *final(self), ConsumeStep::Other),
            *final(self) == *old(self),
    {
    }

    /// Consumes `proxy_https`, which ADP does not use.
    pub fn consume_proxy_https(&mut self, _value: Option<String>)
        ensures
            consumes(*old(self), *final(self), ConsumeStep::Other),
            *final(self) == *old(self),
    {
    }

    /// Consumes `proxy_no_proxy`, which ADP does not use.
    pub fn consume_proxy_no_proxy(&mut self, _value: Vec<String>)
        ensures
            consumes(*old(self), *final(self), ConsumeStep::Other),
            *final(self) == *old(self),
    {
    }

    /// Consumes `no_proxy_nonexact_match`, which ADP does not use.
    pub fn consume_no_proxy_nonexact_match(&mut self, _value: bool)
        ensures
            consumes(*old(self), *final(self), ConsumeStep::Other),
            *final(self) == *old(self),
    {
    }

    /// Consumes `use_proxy_for_cloud_metadata`, which ADP does not use.
    pub fn consume_use_proxy_for_cloud_metadata(&mut self, _value: bool)
        ensures
            consumes(*old(self), *final(self), ConsumeStep::Other),
            *final(self) == *old(self),
    {
    }

    /// Consumes `apm_config_obfuscation_credit_cards_keep_values`, which ADP does not use.
    pub fn consume_apm_config_obfuscation_credit_cards_keep_values(&mut self, _value: Vec<String>)
        ensures
            consumes(*old(self), *final(self), ConsumeStep::Other),
            *final(self) == *old(self),
    {
    }

    /// Consumes `apm_config_obfuscation_credit_cards_luhn`, which ADP does not use.
    pub fn consume_apm_config_obfuscation_credit_cards_luhn(&mut self, _value: bool)
        ensures
            consumes(*old(self), *final(self), ConsumeStep::Other),
            *final(self) == *old(self),
    {
    }

    /// Consumes `apm_config_obfuscation_elasticsearch_enabled`, which ADP does not use.
    pub fn consume_apm_config_obfuscation_elasticsearch_enabled(&mut self, _value: bool)
        ensures
            consumes(*old(self), *final(self), ConsumeStep::Other),
            *final(self) == *old(self),
    {
    }

    /// Consumes `apm_config_obfuscation_elasticsearch_keep_values`, which ADP does not use.
    pub fn consume_apm_config_obfuscation_elasticsearch_keep_values(&mut self, _value: Vec<String>)
        ensures
            consumes(*old(self), *final(self), ConsumeStep::Other),
            *final(self) == *old(self),
    {
    }

    /// Consumes `apm_config_obfuscation_elasticsearch_obfuscate_sql_values`, which ADP does not use.
    pub fn consume_apm_config_obfuscation_elasticsearch_obfuscate_sql_values(&mut self, _value: Vec<String>)
        ensures
            consumes(*old(self), *final(self), ConsumeStep::Other),
            *final(self) == *old(self),
    {
    }

    /// Consumes `apm_config_obfuscation_http_remove_paths_with_digits`, which ADP does not use.
    pub fn consume_apm_config_obfuscation_http_remove_paths_with_digits(&mut self, _value: bool)
        ensures
            consumes(*old(self), *final(self), ConsumeStep::Other),
            *final(self) == *old(self),
    {
    }

    /// Consumes `apm_config_obfuscation_http_remove_query_string`, which ADP does not use.
    pub fn consume_apm_config_obfuscation_http_remove_query_string(&mut self, _value: bool)
        ensures
            consumes(*old(self), *final(self), ConsumeStep::Other),
            *final(self) == *old(self),
    {
    }

    /// Consumes `apm_config_obfuscation_memcached_enabled`, which ADP does not use.
    pub fn consume_apm_config_obfuscation_memcached_enabled(&mut self, _value: bool)
        ensures
            consumes(*old(self), *final(self), ConsumeStep::Other),
            *final(self) == *old(self),
    {
    }

    /// Consumes `apm_config_obfuscation_memcached_keep_command`, which ADP does not use.
    pub fn consume_apm_config_obfuscation_memcached_keep_command(&mut self, _value: bool)
        ensures
            consumes(*old(self), *final(self), ConsumeStep::Other),
            *final(self) == *old(self),
    {
    }

    /// Consumes `apm_config_obfuscation_mongodb_enabled`, which ADP does not use.
    pub fn consume_apm_config_obfuscation_mongodb_enabled(&mut self, _value: bool)
        ensures
            consumes(*old(self), *final(self), ConsumeStep::Other),
            *final(self) == *old(self),
    {
    }

    /// Consumes `apm_config_obfuscation_mongodb_keep_values`, which ADP does not use.
    pub fn consume_apm_config_obfuscation_mongodb_keep_values(&mut self, _value: Vec<String>)
        ensures
            consumes(*old(self), *final(self), ConsumeStep::Other),
            *final(self) == *old(self),
    {
    }

    /// Consumes `apm_config_obfuscation_mongodb_obfuscate_sql_values`, which ADP does not use.
    pub fn consume_apm_config_obfuscation_mongodb_obfuscate_sql_values(&mut self, _value: Vec<String>)
        ensures
            consumes(*old(self), *final(self), ConsumeStep::Other),
            *final(self) == *old(self),
    {
    }

    /// Consumes `apm_config_obfuscation_opensearch_enabled`, which ADP does not use.
    pub fn consume_apm_config_obfuscation_opensearch_enabled(&mut self, _value: bool)
        ensures
            consumes(*old(self), *final(self), ConsumeStep::Other),
            *final(self) == *old(self),
    {
    }

    /// Consumes `apm_config_obfuscation_opensearch_keep_values`, which ADP does not use.
    pub fn consume_apm_config_obfuscation_opensearch_keep_values(&mut self, _value: Vec<String>)
        ensures
            consumes(*old(self), *final(self), ConsumeStep::Other),
            *final(self) == *old(self),
    {
    }

    /// Consumes `apm_config_obfuscation_opensearch_obfuscate_sql_values`, which ADP does not use.
    pub fn consume_apm_config_obfuscation_opensearch_obfuscate_sql_values(&mut self, _value: Vec<String>)
        ensures
            consumes(*old(self), *final(self), ConsumeStep::Other),
            *final(self) == *old(self),
    {
    }

    /// Consumes `apm_config_obfuscation_redis_enabled`, which ADP does not use.
    pub fn consume_apm_config_obfuscation_redis_enabled(&mut self, _value: bool)
        ensures
            consumes(*old(self), *final(self), ConsumeStep::Other),
            *final(self) == *old(self),
    {
    }

    /// Consumes `apm_config_obfuscation_redis_remove_all_args`, which ADP does not use.
    pub fn consume_apm_config_obfuscation_redis_remove_all_args(&mut self, _value: bool)
        ensures
            consumes(*old(self), *final(self), ConsumeStep::Other),
            *final(self) == *old(self),
    {
    }

    /// Consumes `apm_config_obfuscation_valkey_enabled`, which ADP does not use.
    pub fn consume_apm_config_obfuscation_valkey_enabled(&mut self, _value: bool)
        ensures
            consumes(*old(self), *final(self), ConsumeStep::Other),
            *final(self) == *old(self),
    {
    }

    /// Consumes `apm_config_obfuscation_valkey_remove_all_args`, which ADP does not use.
    pub fn consume_apm_config_obfuscation_valkey_remove_all_args(&mut self, _value: bool)
        ensures
            consumes(*old(self), *final(self), ConsumeStep::Other),
            *final(self) == *old(self),
    {
    }

    /// Consumes `dogstatsd_string_interner_size`, which ADP does not use.
    pub fn consume_dogstatsd_string_interner_size(&mut self, _value: i64)
        ensures
            consumes(*old(self), *final(self), ConsumeStep::Other),
            *final(self) == *old(self),
    {
    }

    /// Consumes `dogstatsd_log_file_max_size`, which ADP does not use.
    pub fn consume_dogstatsd_log_file_max_size(&mut self, _value: Option<String>)
        ensures
            consumes(*old(self), *final(self), ConsumeStep::Other),
            *final(self) == *old(self),
    {
    }

    /// Consumes `dogstatsd_capture_depth`, which ADP does not use.
    pub fn consume_dogstatsd_capture_depth(&mut self, _value: i64)
        ensures
            consumes(*old(self), *final(self), ConsumeStep::Other),
            *final(self) == *old(self),
    {
    }

    /// Consumes `dogstatsd_capture_path`, which ADP does not use.
    pub fn consume_dogstatsd_capture_path(&mut self, _value: Option<String>)
        ensures
            consumes(*old(self), *final(self), ConsumeStep::Other),
            *final(self) == *old(self),
    {
    }

    /// Consumes `dogstatsd_entity_id_precedence`, which ADP does not use.
    pub fn consume_dogstatsd_entity_id_precedence(&mut self, _value: bool)
        ensures
            consumes(*old(self), *final(self), ConsumeStep::Other),
            *final(self) == *old(self),
    {
    }

    /// Consumes `dogstatsd_eol_required`, which ADP does not use.
    pub fn consume_dogstatsd_eol_required(&mut self, _value: Vec<String>)
        ensures
            consumes(*old(self), *final(self), ConsumeStep::Other),
            *final(self) == *old(self),
    {
    }

    /// Consumes `dogstatsd_origin_detection_client`, which ADP does not use.
    pub fn consume_dogstatsd_origin_detection_client(&mut self, _value: bool)
        ensures
            consumes(*old(self), *final(self), ConsumeStep::Other),
            *final(self) == *old(self),
    {
    }

    /// Consumes `dogstatsd_origin_optout_enabled`, which ADP does not use.
    pub fn consume_dogstatsd_origin_optout_enabled(&mut self, _value: bool)
        ensures
            consumes(*old(self), *final(self), ConsumeStep::Other),
            *final(self) == *old(self),
    {
    }

    /// Consumes `dogstatsd_stream_log_too_big`, which ADP does not use.
    pub fn consume_dogstatsd_stream_log_too_big(&mut self, _value: bool)
        ensures
            consumes(*old(self), *final(self), ConsumeStep::Other),
            *final(self) == *old(self),
    {
    }

    /// Consumes `dogstatsd_tag_cardinality`, which ADP does not use.
    pub fn consume_dogstatsd_tag_cardinality(&mut self, _value: Option<String>)
        ensures
            consumes(*old(self), *final(self), ConsumeStep::Other),
            *final(self) == *old(self),
    {
    }

    /// Consumes `dogstatsd_tags`, which ADP does not use.
    pub fn consume_dogstatsd_tags(&mut self, _value: Vec<String>)
        ensures
            consumes(*old(self), *final(self), ConsumeStep::Other),
            *final(self) == *old(self),
    {
    }

    /// Consumes `statsd_forward_host`, which ADP does not use.
    pub fn consume_statsd_forward_host(&mut self, _value: Option<String>)
        ensures
            consumes(*old(self), *final(self), ConsumeStep::Other),
            *final(self) == *old(self),
    {
    }

    /// Consumes `statsd_forward_port`, which ADP does not use.
    pub fn consume_statsd_forward_port(&mut self, _value: i64)
        ensures
            consumes(*old(self), *final(self), ConsumeStep::Other),
            *final(self) == *old(self),
    {
    }

    /// Consumes `statsd_metric_namespace`, which ADP does not use.
    pub fn consume_statsd_metric_namespace(&mut self, _value: Option<String>)
        ensures
            consumes(*old(self), *final(self), ConsumeStep::Other),
            *final(self) == *old(self),
    {
    }

    /// Consumes `statsd_metric_namespace_blacklist`, which ADP does not use.
    pub fn consume_statsd_metric_namespace_blacklist(&mut self, _value: Vec<String>)
        ensures
            consumes(*old(self), *final(self), ConsumeStep::Other),
            *final(self) == *old(self),
    {
    }

    /// Consumes `otlp_config_receiver_protocols_grpc_transport`, which ADP does not use.
    pub fn consume_otlp_config_receiver_protocols_grpc_transport(&mut self, _value: Option<String>)
        ensures
            consumes(*old(self), *final(self), ConsumeStep::Other),
            *final(self) == *old(self),
    {
    }

    /// Consumes `otlp_config_receiver_protocols_grpc_max_recv_msg_size_mib`, which ADP does not use.
    pub fn consume_otlp_config_receiver_protocols_grpc_max_recv_msg_size_mib(&mut self, _value: i64)
        ensures
            consumes(*old(self), *final(self), ConsumeStep::Other),
            *final(self) == *old(self),
    {
    }

    /// Consumes `agent_ipc_grpc_max_message_size`, which ADP does not use.
    pub fn consume_agent_ipc_grpc_max_message_size(&mut self, _value: i64)
        ensures
            consumes(*old(self), *final(self), ConsumeStep::Other),
            *final(self) == *old(self),
    {
    }

    /// Consumes `cmd_port`, which ADP does not use.
    pub fn consume_cmd_port(&mut self, _value: i64)
        ensures
            consumes(*old(self), *final(self), ConsumeStep::Other),
            *final(self) == *old(self),
    {
    }

    /// Consumes `vsock_addr`, which ADP does not use.
    pub fn consume_vsock_addr(&mut self, _value: Option<String>)
        ensures
            consumes(*old(self), *final(self), ConsumeStep::Other),
            *final(self) == *old(self),
    {
    }

    /// Consumes `bind_host`, which ADP does not use.
    pub fn consume_bind_host(&mut self, _value: Option<String>)
        ensures
            consumes(*old(self), *final(self), ConsumeStep::Other),
            *final(self) == *old(self),
    {
    }

    /// Consumes `data_plane_remote_agent_enabled`, which ADP does not use.
    pub fn consume_data_plane_remote_agent_enabled(&mut self, _value: bool)
        ensures
            consumes(*old(self), *final(self), ConsumeStep::Other),
            *final(self) == *old(self),
    {
    }

    /// Consumes `data_plane_use_new_config_stream_endpoint`, which ADP does not use.
    pub fn consume_data_plane_use_new_config_stream_endpoint(&mut self, _value: bool)
        ensures
            consumes(*old(self), *final(self), ConsumeStep::Other),
            *final(self) == *old(self),
    {
    }

    /// Consumes `data_plane_dogstatsd_aggregator_tag_filter_cache_capacity`, which ADP does not use.
    pub fn consume_data_plane_dogstatsd_aggregator_tag_filter_cache_capacity(&mut self, _value: i64)
        ensures
            consumes(*old(self), *final(self), ConsumeStep::Other),
            *final(self) == *old(self),
    {
    }

    /// Consumes `cri_connection_timeout`, which ADP does not use.
    pub fn consume_cri_connection_timeout(&mut self, _value: i64)
        ensures
            consumes(*old(self), *final(self), ConsumeStep::Other),
            *final(self) == *old(self),
    {
    }

    /// Consumes `cri_query_timeout`, which ADP does not use.
    pub fn consume_cri_query_timeout(&mut self, _value: i64)
        ensures
            consumes(*old(self), *final(self), ConsumeStep::Other),
            *final(self) == *old(self),
    {
    }

    /// Consumes `origin_detection_unified`, which ADP does not use.
    pub fn consume_origin_detection_unified(&mut self, _value: bool)
        ensures
            consumes(*old(self), *final(self), ConsumeStep::Other),
            *final(self) == *old(self),
    {
    }

    /// Consumes `provider_kind`, which ADP does not use.
    pub fn consume_provider_kind(&mut self, _value: Option<String>)
        ensures
            consumes(*old(self), *final(self), ConsumeStep::Other),
            *final(self) == *old(self),
    {
    }

    /// Consumes `observability_pipelines_worker_metrics_enabled`, which ADP does not use.
    pub fn consume_observability_pipelines_worker_metrics_enabled(&mut self, _value: bool)
        ensures
            consumes(*old(self), *final(self), ConsumeStep::Other),
            *final(self) == *old(self),
    {
    }

    /// Consumes `observability_pipelines_worker_metrics_url`, which ADP does not use.
    pub fn consume_observability_pipelines_worker_metrics_url(&mut self, _value: Option<String>)
        ensures
            consumes(*old(self), *final(self), ConsumeStep::Other),
            *final(self) == *old(self),
    {
    }

    /// Consumes `vector_metrics_enabled`, which ADP does not use.
    pub fn consume_vector_metrics_enabled(&mut self, _value: bool)
        ensures
            consumes(*old(self), *final(self), ConsumeStep::Other),
            *final(self) == *old(self),
    {
    }

    /// Consumes `vector_metrics_url`, which ADP does not use.
    pub fn consume_vector_metrics_url(&mut self, _value: Option<String>)
        ensures
            consumes(*old(self), *final(self), ConsumeStep::Other),
            *final(self) == *old(self),
    {
    }
}

} // verus!
