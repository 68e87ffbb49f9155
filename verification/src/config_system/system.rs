//! The configuration system's startup decisions: which path the selected authority takes, and
//! when the initial snapshot of a config stream has arrived.

use vstd::prelude::*;

use crate::config::authority::{ConfigStreamAuthority, RuntimeConfigAuthority, RuntimeConfigLanguage};
use crate::config_system::bootstrap::BootstrapInputs;
use crate::text::{owned, push_str};

verus! {

/// Coordinates bootstrap loading, authority resolution, and translation.
#[derive(Debug)]
pub struct ConfigurationSystem {
    inputs: BootstrapInputs,
    service_names: Vec<String>,
}

impl ConfigurationSystem {
    /// The local inputs.
    pub closed spec fn bootstrap_inputs(&self) -> BootstrapInputs {
        self.inputs
    }

    /// The gRPC services advertised at registration.
    pub closed spec fn services(&self) -> Seq<String> {
        self.service_names@
    }

    /// Creates a configuration system; `service_names` are the gRPC services the binary exposes
    /// and advertises during remote-agent registration.
    pub fn new(inputs: BootstrapInputs, service_names: Vec<String>) -> (r: Self)
        ensures
            r.bootstrap_inputs() == inputs,
            r.services() == service_names@,
    {
        ConfigurationSystem { inputs, service_names }
    }

    /// Returns the local inputs.
    pub fn inputs(&self) -> (r: &BootstrapInputs)
        ensures
            *r == self.bootstrap_inputs(),
    {
        &self.inputs
    }

    /// Returns the advertised service names.
    pub fn service_names(&self) -> (r: &Vec<String>)
        ensures
            r@ == self.services(),
    {
        &self.service_names
    }
}

/// How startup resolves the runtime configuration.
#[derive(Clone, Copy, Debug, PartialEq, Eq, Structural)]
pub enum StartupPlan {
    /// Translate the local Datadog configuration; no provider attachment.
    TranslateLocalSnapshot,
    /// Connect to the Datadog Agent, wait for the config stream's initial snapshot, and
    /// translate it; the connection and stream stay attached.
    ConnectToAgent,
    /// The language is not yet supported: startup fails.
    Unsupported(RuntimeConfigLanguage),
}

/// The plan for an authority.
pub open spec fn plan_for(a: RuntimeConfigAuthority) -> StartupPlan {
    match a {
        RuntimeConfigAuthority::LocalSnapshot(RuntimeConfigLanguage::DatadogAgent) => StartupPlan::TranslateLocalSnapshot,
        RuntimeConfigAuthority::ConfigStream(ConfigStreamAuthority::DatadogAgent) => StartupPlan::ConnectToAgent,
        RuntimeConfigAuthority::LocalSnapshot(language) => StartupPlan::Unsupported(language),
    }
}

/// Returns how startup resolves the runtime configuration of `authority`.
pub fn startup_plan(authority: &RuntimeConfigAuthority) -> (p: StartupPlan)
    ensures
        p == plan_for(*authority),
{
    match authority {
        RuntimeConfigAuthority::LocalSnapshot(RuntimeConfigLanguage::DatadogAgent) => StartupPlan::TranslateLocalSnapshot,
        RuntimeConfigAuthority::ConfigStream(ConfigStreamAuthority::DatadogAgent) => StartupPlan::ConnectToAgent,
        RuntimeConfigAuthority::LocalSnapshot(language) => StartupPlan::Unsupported(*language),
    }
}

/// The name `{:?}` gives a language.
pub open spec fn language_name(l: RuntimeConfigLanguage) -> Seq<char> {
    match l {
        RuntimeConfigLanguage::DatadogAgent => "DatadogAgent"@,
        RuntimeConfigLanguage::OpenTelemetryCollector => "OpenTelemetryCollector"@,
        RuntimeConfigLanguage::ObservabilityPipelinesWorker => "ObservabilityPipelinesWorker"@,
        RuntimeConfigLanguage::SalukiNative => "SalukiNative"@,
    }
}

/// Returns the error with which startup fails for an unsupported language.
pub fn unsupported_language_error(language: RuntimeConfigLanguage) -> (r: String)
    ensures
        r@ == "Runtime config language "@ + language_name(language)
            + " is not yet supported by the configuration system."@,
{
    let mut r = owned("Runtime config language ");
    let name = match language {
        RuntimeConfigLanguage::DatadogAgent => "DatadogAgent",
        RuntimeConfigLanguage::OpenTelemetryCollector => "OpenTelemetryCollector",
        RuntimeConfigLanguage::ObservabilityPipelinesWorker => "ObservabilityPipelinesWorker",
        RuntimeConfigLanguage::SalukiNative => "SalukiNative",
    };
    push_str(&mut r, name);
    push_str(&mut r, " is not yet supported by the configuration system.");
    r
}

/// What a config stream delivered.
#[derive(Clone, Copy, Debug, PartialEq, Eq, Structural)]
pub enum StreamDelivery {
    /// A full snapshot.
    Snapshot,
    /// A partial update of one key.
    Partial,
    /// Nothing: the stream closed.
    Closed,
}

/// What waiting for the initial snapshot does with a delivery.
#[derive(Clone, Copy, Debug, PartialEq, Eq, Structural)]
pub enum SnapshotWait {
    /// The snapshot arrived.
    Ready,
    /// Keep waiting: partial updates before the first snapshot are ignored.
    KeepWaiting,
    /// Fail: the stream closed before the initial snapshot arrived.
    StreamClosed,
}

/// Decides what waiting for the initial snapshot does with a delivery.
pub fn initial_snapshot_step(delivery: StreamDelivery) -> (w: SnapshotWait)
    ensures
        delivery == StreamDelivery::Snapshot ==> w == SnapshotWait::Ready,
        delivery == StreamDelivery::Partial ==> w == SnapshotWait::KeepWaiting,
        delivery == StreamDelivery::Closed ==> w == SnapshotWait::StreamClosed,
{
    match delivery {
        StreamDelivery::Snapshot => SnapshotWait::Ready,
        StreamDelivery::Partial => SnapshotWait::KeepWaiting,
        StreamDelivery::Closed => SnapshotWait::StreamClosed,
    }
}

} // verus!
