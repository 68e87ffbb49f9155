//! The schema overlay: ADP's classification of each Datadog Agent configuration key.

use vstd::prelude::*;

use crate::config_system::validate::{PipelineAffinity, Severity};

verus! {

/// How fully a supported key is supported.
#[derive(Clone, Copy, Debug, PartialEq, Eq, Structural)]
pub enum OverlaySupportLevel {
    /// Supported as the Agent supports it.
    Full,
    /// Supported with different behavior.
    Partial,
}

/// A value type a supported key's annotation overrides the schema's with.
#[derive(Clone, Copy, Debug, PartialEq, Eq, Structural)]
pub enum OverlayValueType {
    /// A boolean.
    Boolean,
    /// An integer.
    Integer,
    /// A number.
    Float,
    /// A string.
    String,
    /// A list of strings.
    StringList,
}

/// A supported key.
#[derive(Debug)]
pub struct Supported {
    /// How fully it is supported.
    pub support_level: OverlaySupportLevel,
    /// The pipelines it affects.
    pub pipelines: PipelineAffinity,
    /// Its description.
    pub description: String,
    /// Its documentation, if any.
    pub documentation: Option<String>,
    /// The issue tracking it, such as `#0001`.
    pub issue: Option<String>,
    /// Other paths the key is read from.
    pub additional_yaml_paths: Vec<String>,
    /// The environment variables that replace the schema's, if any.
    pub env_var_override: Option<Vec<String>>,
    /// The smoke test constants of the components that read it.
    pub used_by: Vec<String>,
    /// A value type that replaces the schema's, if any.
    pub value_type_override: Option<OverlayValueType>,
    /// A JSON value to test it with, if any.
    pub test_json: Option<String>,
    /// The registry file its annotation goes to.
    pub registry_filename: Option<String>,
}

/// An unsupported key.
#[derive(Debug)]
pub struct Unsupported {
    /// How severe setting it is.
    pub severity: Severity,
    /// The pipelines it affects.
    pub pipelines: PipelineAffinity,
    /// Its description.
    pub description: String,
    /// Its documentation, if any.
    pub documentation: Option<String>,
    /// The issue tracking it, if any.
    pub issue: Option<String>,
    /// Whether support is planned.
    pub planned: bool,
}

/// A key still under investigation.
#[derive(Debug)]
pub struct Investigate {
    /// How severe setting it is, once known.
    pub severity: Option<Severity>,
    /// Its description.
    pub description: String,
    /// The issue tracking it, if any.
    pub issue: Option<String>,
}

/// The overlay: each classified key, in order.
#[derive(Debug)]
pub struct SchemaOverlay {
    /// Supported keys.
    pub supported: Vec<(String, Supported)>,
    /// Unsupported keys.
    pub unsupported: Vec<(String, Unsupported)>,
    /// Keys under investigation.
    pub investigate: Vec<(String, Investigate)>,
    /// Ignored keys.
    pub ignored: Vec<String>,
}

} // verus!
