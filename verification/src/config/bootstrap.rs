//! Bootstrap configuration model: what is needed before the runtime configuration authority is
//! available.

use vstd::prelude::*;

use crate::config::authority::RuntimeConfigAuthority;
use crate::config::logging::RuntimeLoggingConfig;
use crate::data_plane::ListenAddress;

verus! {

/// Typed configuration needed before the runtime configuration authority is available.
#[derive(Clone, Debug)]
pub struct BootstrapConfiguration {
    /// Startup decisions derived from local bootstrap sources.
    pub startup: BootstrapStartupConfiguration,
    /// Logging configuration used until runtime configuration is online.
    pub logging: RuntimeLoggingConfig,
    /// Early process telemetry configuration.
    pub telemetry: BootstrapTelemetryConfiguration,
}

/// Startup decisions that determine how runtime configuration is resolved.
#[derive(Clone, Debug)]
pub struct BootstrapStartupConfiguration {
    /// The selected runtime configuration authority.
    pub runtime_config_authority: RuntimeConfigAuthority,
    /// The privileged API listen address, where the Agent reaches the data plane.
    pub secure_api_listen_address: ListenAddress,
}

/// Early telemetry settings needed before runtime configuration is online.
#[derive(Clone, Debug)]
pub struct BootstrapTelemetryConfiguration {
    /// The metrics level, if configured.
    pub metrics_level: Option<String>,
}

} // verus!
