//! Runtime configuration authority and language selection.

use vstd::prelude::*;

verus! {

/// Describes where the authoritative runtime configuration comes from.
///
/// A local snapshot implies no long-lived provider attachment, while a stream-backed authority
/// owns whatever provider attachment is required to receive the initial snapshot and future
/// updates.
#[derive(Clone, Copy, Debug, PartialEq, Eq, Structural)]
pub enum RuntimeConfigAuthority {
    /// Runtime configuration is read once from a local snapshot in the given language.
    LocalSnapshot(RuntimeConfigLanguage),
    /// Runtime configuration is streamed from a long-lived provider.
    ConfigStream(ConfigStreamAuthority),
}

/// Identifies the primary configuration language being translated into the native model.
#[derive(Clone, Copy, Debug, PartialEq, Eq, Structural)]
pub enum RuntimeConfigLanguage {
    /// Datadog Agent configuration.
    DatadogAgent,
    /// OpenTelemetry Collector configuration.
    OpenTelemetryCollector,
    /// Observability Pipelines Worker / Vector configuration.
    ObservabilityPipelinesWorker,
    /// Native Saluki configuration.
    SalukiNative,
}

/// Identifies a supported streamed configuration authority.
#[derive(Clone, Copy, Debug, PartialEq, Eq, Structural)]
pub enum ConfigStreamAuthority {
    /// Datadog Agent config stream.
    DatadogAgent,
}

/// The language an authority resolves to: a local snapshot's own, and the Datadog Agent's for
/// its config stream.
pub open spec fn authority_language(a: RuntimeConfigAuthority) -> RuntimeConfigLanguage {
    match a {
        RuntimeConfigAuthority::LocalSnapshot(language) => language,
        RuntimeConfigAuthority::ConfigStream(ConfigStreamAuthority::DatadogAgent) => {
            RuntimeConfigLanguage::DatadogAgent
        },
    }
}

impl RuntimeConfigAuthority {
    /// Returns the primary config language this authority resolves to.
    pub fn language(&self) -> (r: RuntimeConfigLanguage)
        ensures
            r == authority_language(*self),
    {
        match self {
            RuntimeConfigAuthority::LocalSnapshot(language) => *language,
            RuntimeConfigAuthority::ConfigStream(ConfigStreamAuthority::DatadogAgent) => {
                RuntimeConfigLanguage::DatadogAgent
            },
        }
    }

    /// Returns whether resolving this authority requires a long-lived provider attachment: it
    /// does exactly for a stream.
    pub fn requires_attachment(&self) -> (r: bool)
        ensures
            r == (*self is ConfigStream),
    {
        match self {
            RuntimeConfigAuthority::ConfigStream(_) => true,
            RuntimeConfigAuthority::LocalSnapshot(_) => false,
        }
    }
}

} // verus!
