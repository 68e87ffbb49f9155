//! The decisions the data plane takes while it resolves its runtime configuration.

use vstd::prelude::*;

use crate::data_plane::DataPlaneConfiguration;
use crate::data_plane::flag_or;

verus! {

/// Whether the data plane registers with the Datadog Agent before running: unless it is
/// standalone, when either remote-agent registration or the config stream endpoint is enabled.
pub open spec fn bootstraps_remote_agent(dp: DataPlaneConfiguration) -> bool {
    !dp.is_standalone() && (dp.registers_remote_agent() || dp.uses_new_stream_endpoint())
}

/// Returns whether the data plane registers with the Datadog Agent before running.
pub fn should_bootstrap_remote_agent(dp: &DataPlaneConfiguration) -> (r: bool)
    ensures
        r == bootstraps_remote_agent(*dp),
{
    !dp.standalone_mode() && (dp.remote_agent_enabled() || dp.use_new_config_stream_endpoint())
}

/// Returns whether the runtime configuration comes from the Agent's config stream: when the
/// data plane registered with the Agent and the config stream endpoint is enabled; otherwise
/// the bootstrap configuration is used.
pub fn uses_config_stream(registered: bool, bootstrap: &DataPlaneConfiguration) -> (r: bool)
    ensures
        r == (registered && bootstrap.uses_new_stream_endpoint()),
{
    registered && bootstrap.use_new_config_stream_endpoint()
}

/// Returns whether the data plane runs: standalone, or when the resolved configuration enables
/// it.
pub fn keeps_running(standalone: bool, resolved: &DataPlaneConfiguration) -> (r: bool)
    ensures
        r == (standalone || resolved.is_enabled()),
{
    standalone || resolved.enabled()
}

/// Two mebibytes, in bytes.
pub const DEFAULT_CONTEXT_INTERNER_BYTES: u64 = 2097152;

/// 512 kibibytes, in bytes.
pub const DEFAULT_TRACES_INTERNER_BYTES: u64 = 524288;

/// The default limit of cached contexts, and of cached tagsets.
pub const DEFAULT_CACHE_LIMIT: usize = 500000;

/// ADP-private OTLP knobs, with the OTLP components' defaults for those that are unset.
#[derive(Debug)]
pub struct OtlpPrivateKnobs {
    /// `otlp_string_interner_size`, in bytes.
    pub context_interner_bytes: u64,
    /// `otlp_cached_contexts_limit`.
    pub cached_contexts_limit: usize,
    /// `otlp_cached_tagsets_limit`.
    pub cached_tagsets_limit: usize,
    /// `otlp_allow_context_heap_allocs`.
    pub allow_context_heap_allocs: bool,
    /// `otlp_config.traces.string_interner_size`, in bytes.
    pub traces_string_interner_bytes: u64,
    /// `otlp_config.traces.ignore_missing_datadog_fields`.
    pub ignore_missing_datadog_fields: bool,
    /// `otlp_config.traces.enable_otlp_compute_top_level_by_span_kind`.
    pub enable_otlp_compute_top_level_by_span_kind: bool,
}

/// A value, or its default when unset.
pub open spec fn value_or<T>(value: Option<T>, default: T) -> T {
    match value {
        Some(v) => v,
        None => default,
    }
}

fn or_u64(value: Option<u64>, default: u64) -> (r: u64)
    ensures
        r == value_or(value, default),
{
    match value {
        Some(v) => v,
        None => default,
    }
}

fn or_usize(value: Option<usize>, default: usize) -> (r: usize)
    ensures
        r == value_or(value, default),
{
    match value {
        Some(v) => v,
        None => default,
    }
}

/// Reads the ADP-private OTLP knobs: two mebibytes of context interner, 500,000 cached contexts
/// and tagsets, heap allocation allowed, 512 kibibytes of traces interner, missing Datadog fields
/// not ignored and top-level spans computed by span kind, unless configured otherwise.
pub fn otlp_private_knobs(
    context_interner_bytes: Option<u64>,
    cached_contexts_limit: Option<usize>,
    cached_tagsets_limit: Option<usize>,
    allow_context_heap_allocs: Option<bool>,
    traces_string_interner_bytes: Option<u64>,
    ignore_missing_datadog_fields: Option<bool>,
    enable_otlp_compute_top_level_by_span_kind: Option<bool>,
) -> (k: OtlpPrivateKnobs)
    ensures
        k.context_interner_bytes == value_or(context_interner_bytes, DEFAULT_CONTEXT_INTERNER_BYTES),
        k.cached_contexts_limit == value_or(cached_contexts_limit, DEFAULT_CACHE_LIMIT),
        k.cached_tagsets_limit == value_or(cached_tagsets_limit, DEFAULT_CACHE_LIMIT),
        k.allow_context_heap_allocs == flag_or(allow_context_heap_allocs, true),
        k.traces_string_interner_bytes == value_or(traces_string_interner_bytes, DEFAULT_TRACES_INTERNER_BYTES),
        k.ignore_missing_datadog_fields == flag_or(ignore_missing_datadog_fields, false),
        k.enable_otlp_compute_top_level_by_span_kind == flag_or(enable_otlp_compute_top_level_by_span_kind, true),
{
    OtlpPrivateKnobs {
        context_interner_bytes: or_u64(context_interner_bytes, DEFAULT_CONTEXT_INTERNER_BYTES),
        cached_contexts_limit: or_usize(cached_contexts_limit, DEFAULT_CACHE_LIMIT),
        cached_tagsets_limit: or_usize(cached_tagsets_limit, DEFAULT_CACHE_LIMIT),
        allow_context_heap_allocs: match allow_context_heap_allocs {
            Some(v) => v,
            None => true,
        },
        traces_string_interner_bytes: or_u64(traces_string_interner_bytes, DEFAULT_TRACES_INTERNER_BYTES),
        ignore_missing_datadog_fields: match ignore_missing_datadog_fields {
            Some(v) => v,
            None => false,
        },
        enable_otlp_compute_top_level_by_span_kind: match enable_otlp_compute_top_level_by_span_kind {
            Some(v) => v,
            None => true,
        },
    }
}

/// Whether OTLP logs are received, given the raw `otlp_config.logs.enabled` and the value the
/// typed configuration holds for it: an explicit setting is honored, and an absent one keeps
/// logs on, as they have been by default.
pub fn otlp_logs_enabled(raw: Option<bool>, typed: bool) -> (r: bool)
    ensures
        raw is Some ==> r == typed,
        raw is None ==> r,
{
    match raw {
        Some(_) => typed,
        None => true,
    }
}

} // verus!
