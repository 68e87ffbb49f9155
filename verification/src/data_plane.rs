//! General data plane configuration: which data pipelines run, and which baseline pipelines they
//! need.
//!
//! The values are read from the configuration by key (for example `data_plane.otlp.enabled`); the
//! reading is done by the caller, which hands each key's value over as an `Option`, `None` meaning
//! that the key is absent. Absent keys take their documented defaults here.

use vstd::prelude::*;

use crate::text::owned;

verus! {

/// An address a listener binds to.
#[derive(Clone, Debug, PartialEq, Eq)]
pub enum ListenAddress {
    /// TCP on every interface, at the given port.
    AnyTcp {
        /// The port.
        port: u16,
    },
    /// An address given in the configuration, as written there.
    Configured {
        /// The address.
        address: String,
    },
}

/// The listen address configured by `raw`, or TCP on every interface at `default_port` when
/// `raw` is absent.
pub fn listen_address_or(raw: Option<String>, default_port: u16) -> (r: ListenAddress)
    ensures
        raw matches Some(a) ==> r == (ListenAddress::Configured { address: a }),
        raw is None ==> r == (ListenAddress::AnyTcp { port: default_port }),
{
    match raw {
        Some(address) => ListenAddress::Configured { address },
        None => ListenAddress::AnyTcp { port: default_port },
    }
}

/// The raw values of the data plane's keys, each `None` when the key is absent.
#[derive(Debug, Default)]
pub struct DataPlaneSettings {
    /// `data_plane.enabled`
    pub enabled: Option<bool>,
    /// `data_plane.standalone_mode`
    pub standalone_mode: Option<bool>,
    /// `data_plane.use_new_config_stream_endpoint`
    pub use_new_config_stream_endpoint: Option<bool>,
    /// `data_plane.remote_agent_enabled`
    pub remote_agent_enabled: Option<bool>,
    /// `data_plane.api_listen_address`
    pub api_listen_address: Option<String>,
    /// `data_plane.secure_api_listen_address`
    pub secure_api_listen_address: Option<String>,
    /// `data_plane.checks.enabled`
    pub checks_enabled: Option<bool>,
    /// `data_plane.dogstatsd.enabled`
    pub dogstatsd_enabled: Option<bool>,
    /// `data_plane.otlp.enabled`
    pub otlp_enabled: Option<bool>,
    /// `data_plane.otlp.proxy.enabled`
    pub otlp_proxy_enabled: Option<bool>,
    /// `data_plane.otlp.proxy.receiver.protocols.grpc.endpoint`
    pub otlp_proxy_grpc_endpoint: Option<String>,
    /// `data_plane.otlp.proxy.traces.enabled`
    pub otlp_proxy_traces: Option<bool>,
    /// `data_plane.otlp.proxy.metrics.enabled`
    pub otlp_proxy_metrics: Option<bool>,
    /// `data_plane.otlp.proxy.logs.enabled`
    pub otlp_proxy_logs: Option<bool>,
}

/// The value of a flag, or `default` when it is absent.
pub open spec fn flag_or(value: Option<bool>, default: bool) -> bool {
    match value {
        Some(b) => b,
        None => default,
    }
}

fn flag(value: Option<bool>, default: bool) -> (r: bool)
    ensures
        r == flag_or(value, default),
{
    match value {
        Some(b) => b,
        None => default,
    }
}

/// Checks-specific data plane configuration.
#[derive(Clone, Debug)]
pub struct DataPlaneChecksConfiguration {
    enabled: bool,
}

impl DataPlaneChecksConfiguration {
    /// Whether Checks is enabled; defaults to `false`.
    pub closed spec fn is_enabled(&self) -> bool {
        self.enabled
    }

    /// Reads `data_plane.checks.enabled`.
    pub fn from_settings(enabled: Option<bool>) -> (r: Self)
        ensures
            r.is_enabled() == flag_or(enabled, false),
    {
        DataPlaneChecksConfiguration { enabled: flag(enabled, false) }
    }

    /// Returns `true` if Checks is enabled.
    pub fn enabled(&self) -> (r: bool)
        ensures
            r == self.is_enabled(),
    {
        self.enabled
    }
}

/// DogStatsD-specific data plane configuration.
///
/// Only `data_plane.dogstatsd.enabled` decides: the Core Agent resolves `use_dogstatsd` and
/// reports its decision through that key.
#[derive(Clone, Debug)]
pub struct DataPlaneDogStatsDConfiguration {
    enabled: bool,
}

impl DataPlaneDogStatsDConfiguration {
    /// Whether DogStatsD is enabled; defaults to `true`.
    pub closed spec fn is_enabled(&self) -> bool {
        self.enabled
    }

    /// Reads `data_plane.dogstatsd.enabled`.
    pub fn from_settings(enabled: Option<bool>) -> (r: Self)
        ensures
            r.is_enabled() == flag_or(enabled, true),
    {
        DataPlaneDogStatsDConfiguration { enabled: flag(enabled, true) }
    }

    /// Returns `true` if DogStatsD is enabled.
    pub fn enabled(&self) -> (r: bool)
        ensures
            r == self.is_enabled(),
    {
        self.enabled
    }
}

/// OTLP proxying configuration: which signals are proxied to the Core Agent, and where.
#[derive(Clone, Debug)]
pub struct DataPlaneOtlpProxyConfiguration {
    enabled: bool,
    core_agent_otlp_grpc_endpoint: String,
    proxy_traces: bool,
    proxy_metrics: bool,
    proxy_logs: bool,
}

/// The Core Agent endpoint that OTLP signals are proxied to by default.
pub open spec fn default_proxy_endpoint() -> Seq<char> {
    "http://localhost:4319"@
}

impl DataPlaneOtlpProxyConfiguration {
    /// Whether the OTLP proxy is enabled; defaults to `true`.
    pub closed spec fn is_enabled(&self) -> bool {
        self.enabled
    }

    /// The OTLP gRPC endpoint on the Core Agent.
    pub closed spec fn endpoint(&self) -> Seq<char> {
        self.core_agent_otlp_grpc_endpoint@
    }

    /// Whether traces are proxied; defaults to `true`.
    pub closed spec fn traces(&self) -> bool {
        self.proxy_traces
    }

    /// Whether metrics are proxied; defaults to `true`.
    pub closed spec fn metrics(&self) -> bool {
        self.proxy_metrics
    }

    /// Whether logs are proxied; defaults to `true`.
    pub closed spec fn logs(&self) -> bool {
        self.proxy_logs
    }

    /// Reads the `data_plane.otlp.proxy.*` keys.
    pub fn from_settings(
        enabled: Option<bool>,
        grpc_endpoint: Option<String>,
        traces: Option<bool>,
        metrics: Option<bool>,
        logs: Option<bool>,
    ) -> (r: Self)
        ensures
            r.is_enabled() == flag_or(enabled, true),
            r.endpoint() == (match grpc_endpoint {
                Some(e) => e@,
                None => default_proxy_endpoint(),
            }),
            r.traces() == flag_or(traces, true),
            r.metrics() == flag_or(metrics, true),
            r.logs() == flag_or(logs, true),
    {
        let core_agent_otlp_grpc_endpoint = match grpc_endpoint {
            Some(e) => e,
            None => owned("http://localhost:4319"),
        };
        DataPlaneOtlpProxyConfiguration {
            enabled: flag(enabled, true),
            core_agent_otlp_grpc_endpoint,
            proxy_traces: flag(traces, true),
            proxy_metrics: flag(metrics, true),
            proxy_logs: flag(logs, true),
        }
    }

    /// Returns `true` if the OTLP proxy is enabled.
    pub fn enabled(&self) -> (r: bool)
        ensures
            r == self.is_enabled(),
    {
        self.enabled
    }

    /// Returns the OTLP gRPC endpoint on the Core Agent to proxy signals to.
    pub fn core_agent_otlp_grpc_endpoint(&self) -> (r: &str)
        ensures
            r@ == self.endpoint(),
    {
        self.core_agent_otlp_grpc_endpoint.as_str()
    }

    /// Returns `true` if OTLP traces are proxied to the Core Agent.
    pub fn proxy_traces(&self) -> (r: bool)
        ensures
            r == self.traces(),
    {
        self.proxy_traces
    }

    /// Returns `true` if OTLP metrics are proxied to the Core Agent.
    pub fn proxy_metrics(&self) -> (r: bool)
        ensures
            r == self.metrics(),
    {
        self.proxy_metrics
    }

    /// Returns `true` if OTLP logs are proxied to the Core Agent.
    pub fn proxy_logs(&self) -> (r: bool)
        ensures
            r == self.logs(),
    {
        self.proxy_logs
    }
}

/// OTLP-specific data plane configuration.
#[derive(Clone, Debug)]
pub struct DataPlaneOtlpConfiguration {
    enabled: bool,
    proxy: DataPlaneOtlpProxyConfiguration,
}

impl DataPlaneOtlpConfiguration {
    /// Whether the OTLP pipeline is enabled; defaults to `false`.
    pub closed spec fn is_enabled(&self) -> bool {
        self.enabled
    }

    /// The proxying configuration.
    pub closed spec fn proxy_settings(&self) -> DataPlaneOtlpProxyConfiguration {
        self.proxy
    }

    /// Reads `data_plane.otlp.enabled` beside the proxying configuration.
    pub fn from_settings(enabled: Option<bool>, proxy: DataPlaneOtlpProxyConfiguration) -> (r: Self)
        ensures
            r.is_enabled() == flag_or(enabled, false),
            r.proxy_settings() == proxy,
    {
        DataPlaneOtlpConfiguration { enabled: flag(enabled, false), proxy }
    }

    /// Returns `true` if the OTLP pipeline is enabled.
    pub fn enabled(&self) -> (r: bool)
        ensures
            r == self.is_enabled(),
    {
        self.enabled
    }

    /// Returns the OTLP proxying configuration.
    pub fn proxy(&self) -> (r: &DataPlaneOtlpProxyConfiguration)
        ensures
            *r == self.proxy_settings(),
    {
        &self.proxy
    }
}

/// General data plane configuration.
#[derive(Clone, Debug)]
pub struct DataPlaneConfiguration {
    enabled: bool,
    standalone_mode: bool,
    use_new_config_stream_endpoint: bool,
    remote_agent_enabled: bool,
    api_listen_address: ListenAddress,
    secure_api_listen_address: ListenAddress,
    checks: DataPlaneChecksConfiguration,
    dogstatsd: DataPlaneDogStatsDConfiguration,
    otlp: DataPlaneOtlpConfiguration,
}

/// Whether the baseline metrics pipeline is needed: by Checks, by DogStatsD, or by OTLP when it
/// is not proxying.
pub open spec fn metrics_needed(checks: bool, dogstatsd: bool, otlp: bool, proxy: bool) -> bool {
    checks || dogstatsd || (otlp && !proxy)
}

/// Whether the baseline logs pipeline is needed: by Checks, or by OTLP when it is not proxying.
pub open spec fn logs_needed(checks: bool, otlp: bool, proxy: bool) -> bool {
    checks || (otlp && !proxy)
}

/// Whether the baseline events (and service checks) pipeline is needed: by Checks or DogStatsD.
pub open spec fn events_needed(checks: bool, dogstatsd: bool) -> bool {
    checks || dogstatsd
}

/// Whether the baseline traces pipeline is needed: by OTLP, unless traces are proxied.
pub open spec fn traces_needed(otlp: bool, proxy: bool, proxy_traces: bool) -> bool {
    otlp && (!proxy || !proxy_traces)
}

impl DataPlaneConfiguration {
    /// Whether the data plane is enabled.
    pub closed spec fn is_enabled(&self) -> bool {
        self.enabled
    }

    /// Whether the data plane runs in standalone mode.
    pub closed spec fn is_standalone(&self) -> bool {
        self.standalone_mode
    }

    /// Whether the new config stream endpoint is used.
    pub closed spec fn uses_new_stream_endpoint(&self) -> bool {
        self.use_new_config_stream_endpoint
    }

    /// Whether the data plane registers as a remote agent.
    pub closed spec fn registers_remote_agent(&self) -> bool {
        self.remote_agent_enabled
    }

    /// The unprivileged API listen address.
    pub closed spec fn api_address(&self) -> ListenAddress {
        self.api_listen_address
    }

    /// The privileged API listen address.
    pub closed spec fn secure_api_address(&self) -> ListenAddress {
        self.secure_api_listen_address
    }

    /// The Checks-specific configuration.
    pub closed spec fn checks_settings(&self) -> DataPlaneChecksConfiguration {
        self.checks
    }

    /// The DogStatsD-specific configuration.
    pub closed spec fn dogstatsd_settings(&self) -> DataPlaneDogStatsDConfiguration {
        self.dogstatsd
    }

    /// The OTLP-specific configuration.
    pub closed spec fn otlp_settings(&self) -> DataPlaneOtlpConfiguration {
        self.otlp
    }

    /// Builds the configuration from the raw key values, applying each key's default: the data
    /// plane, standalone mode, Checks and OTLP are off unless enabled, DogStatsD, remote agent
    /// registration and the new config stream endpoint are on unless disabled, and the API
    /// listens on TCP port 5100 and the privileged API on 5101 unless configured otherwise.
    pub fn from_settings(settings: DataPlaneSettings) -> (r: Self)
        ensures
            r.is_enabled() == flag_or(settings.enabled, false),
            r.is_standalone() == flag_or(settings.standalone_mode, false),
            r.uses_new_stream_endpoint() == flag_or(settings.use_new_config_stream_endpoint, true),
            r.registers_remote_agent() == flag_or(settings.remote_agent_enabled, true),
            settings.api_listen_address matches Some(a) ==> r.api_address() == (ListenAddress::Configured { address: a }),
            settings.api_listen_address is None ==> r.api_address() == (ListenAddress::AnyTcp { port: 5100 }),
            settings.secure_api_listen_address matches Some(a) ==> r.secure_api_address() == (ListenAddress::Configured { address: a }),
            settings.secure_api_listen_address is None ==> r.secure_api_address() == (ListenAddress::AnyTcp { port: 5101 }),
            r.checks_settings().is_enabled() == flag_or(settings.checks_enabled, false),
            r.dogstatsd_settings().is_enabled() == flag_or(settings.dogstatsd_enabled, true),
            r.otlp_settings().is_enabled() == flag_or(settings.otlp_enabled, false),
            r.otlp_settings().proxy_settings().is_enabled() == flag_or(settings.otlp_proxy_enabled, true),
            r.otlp_settings().proxy_settings().endpoint() == (match settings.otlp_proxy_grpc_endpoint {
                Some(e) => e@,
                None => default_proxy_endpoint(),
            }),
            r.otlp_settings().proxy_settings().traces() == flag_or(settings.otlp_proxy_traces, true),
            r.otlp_settings().proxy_settings().metrics() == flag_or(settings.otlp_proxy_metrics, true),
            r.otlp_settings().proxy_settings().logs() == flag_or(settings.otlp_proxy_logs, true),
    {
        let proxy = DataPlaneOtlpProxyConfiguration::from_settings(
            settings.otlp_proxy_enabled,
            settings.otlp_proxy_grpc_endpoint,
            settings.otlp_proxy_traces,
            settings.otlp_proxy_metrics,
            settings.otlp_proxy_logs,
        );
        DataPlaneConfiguration {
            enabled: flag(settings.enabled, false),
            standalone_mode: flag(settings.standalone_mode, false),
            use_new_config_stream_endpoint: flag(settings.use_new_config_stream_endpoint, true),
            remote_agent_enabled: flag(settings.remote_agent_enabled, true),
            api_listen_address: listen_address_or(settings.api_listen_address, 5100),
            secure_api_listen_address: listen_address_or(settings.secure_api_listen_address, 5101),
            checks: DataPlaneChecksConfiguration::from_settings(settings.checks_enabled),
            dogstatsd: DataPlaneDogStatsDConfiguration::from_settings(settings.dogstatsd_enabled),
            otlp: DataPlaneOtlpConfiguration::from_settings(settings.otlp_enabled, proxy),
        }
    }

    /// Returns `true` if the data plane is enabled.
    pub fn enabled(&self) -> (r: bool)
        ensures
            r == self.is_enabled(),
    {
        self.enabled
    }

    /// Returns `true` if the data plane is running in standalone mode.
    pub fn standalone_mode(&self) -> (r: bool)
        ensures
            r == self.is_standalone(),
    {
        self.standalone_mode
    }

    /// Returns `true` if the new config stream endpoint should be used.
    pub fn use_new_config_stream_endpoint(&self) -> (r: bool)
        ensures
            r == self.uses_new_stream_endpoint(),
    {
        self.use_new_config_stream_endpoint
    }

    /// Returns `true` if the data plane should register as a remote agent.
    pub fn remote_agent_enabled(&self) -> (r: bool)
        ensures
            r == self.registers_remote_agent(),
    {
        self.remote_agent_enabled
    }

    /// Returns the unprivileged API listen address.
    pub fn api_listen_address(&self) -> (r: &ListenAddress)
        ensures
            *r == self.api_address(),
    {
        &self.api_listen_address
    }

    /// Returns the privileged API listen address.
    pub fn secure_api_listen_address(&self) -> (r: &ListenAddress)
        ensures
            *r == self.secure_api_address(),
    {
        &self.secure_api_listen_address
    }

    /// Returns the Checks-specific configuration.
    pub fn checks(&self) -> (r: &DataPlaneChecksConfiguration)
        ensures
            *r == self.checks_settings(),
    {
        &self.checks
    }

    /// Returns the DogStatsD-specific configuration.
    pub fn dogstatsd(&self) -> (r: &DataPlaneDogStatsDConfiguration)
        ensures
            *r == self.dogstatsd_settings(),
    {
        &self.dogstatsd
    }

    /// Returns the OTLP-specific configuration.
    pub fn otlp(&self) -> (r: &DataPlaneOtlpConfiguration)
        ensures
            *r == self.otlp_settings(),
    {
        &self.otlp
    }

    /// Whether Checks, DogStatsD and OTLP are enabled, and whether OTLP proxies, and its traces.
    pub open spec fn pipelines(&self) -> (bool, bool, bool, bool, bool) {
        (
            self.checks_settings().is_enabled(),
            self.dogstatsd_settings().is_enabled(),
            self.otlp_settings().is_enabled(),
            self.otlp_settings().proxy_settings().is_enabled(),
            self.otlp_settings().proxy_settings().traces(),
        )
    }

    /// Returns `true` if any data pipeline is enabled.
    pub fn data_pipelines_enabled(&self) -> (r: bool)
        ensures
            r == (self.pipelines().0 || self.pipelines().1 || self.pipelines().2),
    {
        self.checks.enabled() || self.dogstatsd.enabled() || self.otlp.enabled()
    }

    /// Returns `true` if the baseline metrics pipeline is required.
    pub fn metrics_pipeline_required(&self) -> (r: bool)
        ensures
            r == metrics_needed(self.pipelines().0, self.pipelines().1, self.pipelines().2, self.pipelines().3),
            r == (self.pipelines().0 || self.pipelines().1 || (self.pipelines().2 && !self.pipelines().3)),
    {
        self.checks.enabled() || self.dogstatsd.enabled() || (self.otlp.enabled()
            && !self.otlp.proxy().enabled())
    }

    /// Returns `true` if the baseline logs pipeline is required.
    pub fn logs_pipeline_required(&self) -> (r: bool)
        ensures
            r == logs_needed(self.pipelines().0, self.pipelines().2, self.pipelines().3),
            r == (self.pipelines().0 || (self.pipelines().2 && !self.pipelines().3)),
    {
        self.checks.enabled() || (self.otlp.enabled() && !self.otlp.proxy().enabled())
    }

    /// Returns `true` if the baseline events pipeline is required.
    pub fn events_pipeline_required(&self) -> (r: bool)
        ensures
            r == events_needed(self.pipelines().0, self.pipelines().1),
            r == (self.pipelines().0 || self.pipelines().1),
    {
        self.checks.enabled() || self.dogstatsd.enabled()
    }

    /// Returns `true` if the baseline service checks pipeline is required.
    pub fn service_checks_pipeline_required(&self) -> (r: bool)
        ensures
            r == events_needed(self.pipelines().0, self.pipelines().1),
            r == (self.pipelines().0 || self.pipelines().1),
    {
        self.checks.enabled() || self.dogstatsd.enabled()
    }

    /// Returns `true` if the baseline traces pipeline is required.
    pub fn traces_pipeline_required(&self) -> (r: bool)
        ensures
            r == traces_needed(self.pipelines().2, self.pipelines().3, self.pipelines().4),
            r == (self.pipelines().2 && !(self.pipelines().3 && self.pipelines().4)),
    {
        self.otlp.enabled() && (!self.otlp.proxy().enabled() || !self.otlp.proxy().proxy_traces())
    }

    /// Returns `true` if the Datadog forwarder is needed: when any baseline pipeline is.
    pub fn requires_datadog_forwarder(&self) -> (r: bool)
        ensures
            r == (metrics_needed(self.pipelines().0, self.pipelines().1, self.pipelines().2, self.pipelines().3)
                || logs_needed(self.pipelines().0, self.pipelines().2, self.pipelines().3)
                || events_needed(self.pipelines().0, self.pipelines().1)
                || traces_needed(self.pipelines().2, self.pipelines().3, self.pipelines().4)),
    {
        self.metrics_pipeline_required() || self.logs_pipeline_required()
            || self.events_pipeline_required() || self.service_checks_pipeline_required()
            || self.traces_pipeline_required()
    }
}

/// Which baseline pipelines each data pipeline needs: Checks needs metrics, logs, events and
/// service checks; DogStatsD needs metrics, events and service checks; OTLP that does not proxy
/// needs metrics, logs and traces; OTLP that proxies needs traces only when its traces are not
/// proxied. A baseline pipeline is needed by nothing else.
pub proof fn baseline_pipelines_follow_data_pipelines(
    checks: bool,
    dogstatsd: bool,
    otlp: bool,
    proxy: bool,
    proxy_traces: bool,
)
    ensures
        checks ==> metrics_needed(checks, dogstatsd, otlp, proxy) && logs_needed(checks, otlp, proxy)
            && events_needed(checks, dogstatsd),
        dogstatsd ==> metrics_needed(checks, dogstatsd, otlp, proxy) && events_needed(checks, dogstatsd),
        otlp && !proxy ==> metrics_needed(checks, dogstatsd, otlp, proxy) && logs_needed(
            checks,
            otlp,
            proxy,
        ) && traces_needed(otlp, proxy, proxy_traces),
        otlp && proxy && !proxy_traces ==> traces_needed(otlp, proxy, proxy_traces),
        metrics_needed(checks, dogstatsd, otlp, proxy) ==> checks || dogstatsd || (otlp && !proxy),
        logs_needed(checks, otlp, proxy) ==> checks || (otlp && !proxy),
        events_needed(checks, dogstatsd) ==> checks || dogstatsd,
        traces_needed(otlp, proxy, proxy_traces) ==> otlp && !(proxy && proxy_traces),
{
}

/// Every baseline pipeline serves a data pipeline: when no data pipeline is enabled, none of
/// the baseline pipelines, and so not the forwarder, is required.
pub proof fn lemma_no_data_pipeline_needs_no_baseline(
    checks: bool,
    dogstatsd: bool,
    otlp: bool,
    proxy: bool,
    proxy_traces: bool,
)
    requires
        !(checks || dogstatsd || otlp),
    ensures
        !metrics_needed(checks, dogstatsd, otlp, proxy),
        !logs_needed(checks, otlp, proxy),
        !events_needed(checks, dogstatsd),
        !traces_needed(otlp, proxy, proxy_traces),
{
}

/// When OTLP proxies every signal, OTLP by itself needs no baseline pipeline: the forwarder is
/// required exactly when Checks or DogStatsD is enabled.
pub proof fn lemma_full_proxy_needs_forwarder_only_for_other_pipelines(
    checks: bool,
    dogstatsd: bool,
    otlp: bool,
)
    ensures
        (metrics_needed(checks, dogstatsd, otlp, true) || logs_needed(checks, otlp, true)
            || events_needed(checks, dogstatsd) || traces_needed(otlp, true, true)) == (checks
            || dogstatsd),
{
}

/// Any enabled data pipeline needs the forwarder, except OTLP proxying all of its traces and
/// metrics and logs.
pub proof fn lemma_enabled_pipeline_needs_forwarder(
    checks: bool,
    dogstatsd: bool,
    otlp: bool,
    proxy: bool,
    proxy_traces: bool,
)
    requires
        checks || dogstatsd || (otlp && !(proxy && proxy_traces)),
    ensures
        metrics_needed(checks, dogstatsd, otlp, proxy) || logs_needed(checks, otlp, proxy)
            || events_needed(checks, dogstatsd) || traces_needed(otlp, proxy, proxy_traces),
{
}

} // verus!
