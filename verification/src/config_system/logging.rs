//! Translation of Datadog-shaped logging settings into ADP logging settings.

use vstd::prelude::*;

use crate::config_system::bootstrap::{or_else, LoggingSources};
use crate::config_system::translate::{is_set, opt_string_view};
use crate::text::{ascii_lowercase, owned, push_str, str_eq, to_ascii_lowercase, trim, trimmed};

verus! {

/// The crates whose logging a plain level applies to.
pub open spec fn first_party_targets() -> Seq<Seq<char>> {
    seq![
        "agent_data_plane"@, "containerd_protos"@, "datadog_protos"@, "datadog_agent_commons"@,
        "ddsketch"@, "resource_accounting"@, "otlp_protos"@, "ottl"@, "process_memory"@,
        "prometheus_exposition"@, "saluki_api"@, "saluki_app"@, "saluki_common"@,
        "saluki_components"@, "saluki_config"@, "saluki_context"@, "saluki_core"@, "saluki_env"@,
        "saluki_error"@, "saluki_io"@, "saluki_metadata"@, "saluki_metrics"@, "saluki_tls"@,
        "stringtheory"@,
    ]
}

/// Filter directives setting each of `targets` to `level`: `target=level`, joined by commas.
pub open spec fn directives(targets: Seq<Seq<char>>, level: Seq<char>) -> Seq<char>
    decreases targets.len(),
{
    if targets.len() == 0 {
        Seq::empty()
    } else if targets.len() == 1 {
        targets[0] + "="@ + level
    } else {
        directives(targets.drop_last(), level) + ","@ + targets.last() + "="@ + level
    }
}

fn first_party_target_names() -> (v: Vec<&'static str>)
    ensures
        v@.map_values(|t: &str| t@) == first_party_targets(),
{
    let mut v: Vec<&'static str> = Vec::new();
    v.push("agent_data_plane");
    v.push("containerd_protos");
    v.push("datadog_protos");
    v.push("datadog_agent_commons");
    v.push("ddsketch");
    v.push("resource_accounting");
    v.push("otlp_protos");
    v.push("ottl");
    v.push("process_memory");
    v.push("prometheus_exposition");
    v.push("saluki_api");
    v.push("saluki_app");
    v.push("saluki_common");
    v.push("saluki_components");
    v.push("saluki_config");
    v.push("saluki_context");
    v.push("saluki_core");
    v.push("saluki_env");
    v.push("saluki_error");
    v.push("saluki_io");
    v.push("saluki_metadata");
    v.push("saluki_metrics");
    v.push("saluki_tls");
    v.push("stringtheory");
    assert(v@.map_values(|t: &str| t@) =~= first_party_targets());
    v
}

/// Returns the filter directives that set every first-party crate to `level`.
pub fn first_party_log_level_filter(level: &str) -> (r: String)
    ensures
        r@ == directives(first_party_targets(), level@),
{
    let targets = first_party_target_names();
    let ghost names = targets@.map_values(|t: &str| t@);
    proof {
        reveal_strlit("");
    }
    let mut r = owned("");
    let mut i: usize = 0;
    assert(names.take(0) =~= Seq::<Seq<char>>::empty());
    while i < targets.len()
        invariant
            i <= targets.len(),
            names == targets@.map_values(|t: &str| t@),
            r@ == directives(names.take(i as int), level@),
        decreases targets.len() - i,
    {
        if i > 0 {
            push_str(&mut r, ",");
        }
        push_str(&mut r, targets[i]);
        push_str(&mut r, "=");
        push_str(&mut r, level);
        proof {
            let next = names.take(i + 1);
            assert(next.drop_last() =~= names.take(i as int));
            assert(next.last() == targets@[i as int]@);
            if i == 0 {
                assert(next.len() == 1);
            }
        }
        i = i + 1;
    }
    assert(names.take(i as int) =~= names);
    r
}

/// The plain level a value names, compared ignoring ASCII case: one of `trace`, `debug`, `info`,
/// `warn`, `error` and `off`.
pub open spec fn plain_level(value: Seq<char>) -> Option<Seq<char>> {
    let l = ascii_lowercase(value);
    if l == "trace"@ || l == "debug"@ || l == "info"@ || l == "warn"@ || l == "error"@ || l
        == "off"@ {
        Some(l)
    } else {
        None
    }
}

/// The plain level names: `trace`, `debug`, `info`, `warn`, `error` and `off`, in any ASCII case,
/// each name its own level in lowercase; nothing else is a plain level.
pub proof fn plain_level_names(value: Seq<char>)
    ensures
        ascii_lowercase(value) == "trace"@ ==> plain_level(value) == Some("trace"@),
        ascii_lowercase(value) == "debug"@ ==> plain_level(value) == Some("debug"@),
        ascii_lowercase(value) == "info"@ ==> plain_level(value) == Some("info"@),
        ascii_lowercase(value) == "warn"@ ==> plain_level(value) == Some("warn"@),
        ascii_lowercase(value) == "error"@ ==> plain_level(value) == Some("error"@),
        ascii_lowercase(value) == "off"@ ==> plain_level(value) == Some("off"@),
        plain_level(value) matches Some(l) ==> l == ascii_lowercase(value) && (l == "trace"@ || l
            == "debug"@ || l == "info"@ || l == "warn"@ || l == "error"@ || l == "off"@),
{
}

/// A setting that names a plain level, surrounding whitespace ignored, sets that level for
/// every first-party crate; any other setting is taken as directives as it is written.
pub proof fn plain_level_applies_to_every_first_party_crate(value: Seq<char>)
    ensures
        ascii_lowercase(trimmed(value)) == "debug"@ ==> level_directives(value) == directives(
            first_party_targets(),
            "debug"@,
        ),
        ascii_lowercase(trimmed(value)) == "trace"@ ==> level_directives(value) == directives(
            first_party_targets(),
            "trace"@,
        ),
        ascii_lowercase(trimmed(value)) == "info"@ ==> level_directives(value) == directives(
            first_party_targets(),
            "info"@,
        ),
        ascii_lowercase(trimmed(value)) == "warn"@ ==> level_directives(value) == directives(
            first_party_targets(),
            "warn"@,
        ),
        ascii_lowercase(trimmed(value)) == "error"@ ==> level_directives(value) == directives(
            first_party_targets(),
            "error"@,
        ),
        ascii_lowercase(trimmed(value)) == "off"@ ==> level_directives(value) == directives(
            first_party_targets(),
            "off"@,
        ),
        plain_level(trimmed(value)) is None ==> level_directives(value) == value,
{
}

/// Returns the plain level `value` names, if any.
pub fn plain_log_level(value: &str) -> (r: Option<&'static str>)
    ensures
        r matches Some(l) ==> plain_level(value@) == Some(l@),
        r is None ==> plain_level(value@) is None,
{
    let lower = to_ascii_lowercase(value);
    let l = lower.as_str();
    if str_eq(l, "trace") {
        Some("trace")
    } else if str_eq(l, "debug") {
        Some("debug")
    } else if str_eq(l, "info") {
        Some("info")
    } else if str_eq(l, "warn") {
        Some("warn")
    } else if str_eq(l, "error") {
        Some("error")
    } else if str_eq(l, "off") {
        Some("off")
    } else {
        None
    }
}

/// The filter directives a log level setting stands for: a plain level (surrounding whitespace
/// ignored) applies to every first-party crate, and anything else is taken as directives as it
/// is written.
pub open spec fn level_directives(value: Seq<char>) -> Seq<char> {
    match plain_level(trimmed(value)) {
        Some(l) => directives(first_party_targets(), l),
        None => value,
    }
}

/// Returns the filter directives of a log level setting.
pub fn parse_adp_log_level(value: &str) -> (r: String)
    ensures
        r@ == level_directives(value@),
{
    let t = trim(value);
    match plain_log_level(t.as_str()) {
        Some(level) => first_party_log_level_filter(level),
        None => owned(value),
    }
}

/// The filter directives of an optional log level setting; absent, every first-party crate
/// logs at `info`.
pub open spec fn optional_level_directives(value: Option<String>) -> Seq<char> {
    match value {
        Some(v) => level_directives(v@),
        None => directives(first_party_targets(), "info"@),
    }
}

/// Returns the filter directives of an optional log level setting.
pub fn parse_optional_log_level_raw(value: Option<String>) -> (r: String)
    ensures
        r@ == optional_level_directives(value),
{
    match value {
        Some(v) => parse_adp_log_level(v.as_str()),
        None => first_party_log_level_filter("info"),
    }
}

/// ADP logging settings for Datadog-shaped logging keys. An override that is `None` keeps the
/// logging stack's default.
#[derive(Debug)]
pub struct LoggingTranslation {
    /// The filter directives, which the logging stack parses.
    pub log_level_directives: String,
    /// Whether records are JSON.
    pub log_format_json: Option<bool>,
    /// Whether timestamps are RFC 3339.
    pub log_format_rfc3339: Option<bool>,
    /// Whether to write to standard output.
    pub log_to_console: Option<bool>,
    /// Whether to write to syslog.
    pub log_to_syslog: Option<bool>,
    /// Whether to use the RFC-style syslog header.
    pub syslog_rfc: Option<bool>,
    /// The syslog URI.
    pub syslog_uri: Option<String>,
    /// The maximum log file size, in bytes.
    pub log_file_max_size: Option<u64>,
    /// The maximum number of rolled log files.
    pub log_file_max_rolls: Option<usize>,
    /// The log file, empty for none.
    pub log_file: String,
}

/// Translates Datadog-shaped logging settings into ADP logging settings.
pub struct LoggingConfigurationTranslator;

impl LoggingConfigurationTranslator {
    /// Translates the logging keys.
    ///
    /// `default_to_syslog` is whether the logging stack writes to syslog by default;
    /// `platform_syslog_uri` and `platform_log_file` are the platform's defaults.
    ///
    /// The syslog settings apply only when syslog is written to, with an empty or absent URI
    /// replaced by the platform's; file logging is disabled by `disable_file_logging`, and
    /// otherwise goes to `data_plane.log_file`, or to the platform's default when that is empty
    /// or absent.
    pub fn translate(
        sources: LoggingSources,
        default_to_syslog: bool,
        platform_syslog_uri: &str,
        platform_log_file: &str,
    ) -> (t: LoggingTranslation)
        ensures
            t.log_level_directives@ == optional_level_directives(sources.log_level),
            t.log_format_json == sources.log_format_json,
            t.log_format_rfc3339 == sources.log_format_rfc3339,
            t.log_to_console == sources.log_to_console,
            t.log_to_syslog == sources.log_to_syslog,
            or_else(sources.log_to_syslog, default_to_syslog) ==> {
                &&& t.syslog_rfc == sources.syslog_rfc
                &&& t.syslog_uri matches Some(u) && u@ == (if is_set(opt_string_view(sources.syslog_uri)) {
                    sources.syslog_uri.unwrap()@
                } else {
                    platform_syslog_uri@
                })
            },
            !or_else(sources.log_to_syslog, default_to_syslog) ==> t.syslog_rfc is None && t.syslog_uri is None,
            t.log_file_max_size == sources.log_file_max_size,
            t.log_file_max_rolls == sources.log_file_max_rolls,
            t.log_file@ == (if or_else(sources.disable_file_logging, false) {
                Seq::<char>::empty()
            } else if is_set(opt_string_view(sources.data_plane_log_file)) {
                sources.data_plane_log_file.unwrap()@
            } else {
                platform_log_file@
            }),
    {
        let log_level_directives = parse_optional_log_level_raw(sources.log_level);
        let to_syslog = match sources.log_to_syslog {
            Some(v) => v,
            None => default_to_syslog,
        };
        let (syslog_rfc, syslog_uri) = if to_syslog {
            let uri = match sources.syslog_uri {
                Some(u) => {
                    if u.as_str().unicode_len() > 0 {
                        u
                    } else {
                        owned(platform_syslog_uri)
                    }
                },
                None => owned(platform_syslog_uri),
            };
            (sources.syslog_rfc, Some(uri))
        } else {
            (None, None)
        };
        let disable_file_logging = match sources.disable_file_logging {
            Some(v) => v,
            None => false,
        };
        proof {
            reveal_strlit("");
        }
        let log_file = if disable_file_logging {
            owned("")
        } else {
            match sources.data_plane_log_file {
                Some(path) => {
                    if path.as_str().unicode_len() > 0 {
                        path
                    } else {
                        owned(platform_log_file)
                    }
                },
                None => owned(platform_log_file),
            }
        };
        LoggingTranslation {
            log_level_directives,
            log_format_json: sources.log_format_json,
            log_format_rfc3339: sources.log_format_rfc3339,
            log_to_console: sources.log_to_console,
            log_to_syslog: sources.log_to_syslog,
            syslog_rfc,
            syslog_uri,
            log_file_max_size: sources.log_file_max_size,
            log_file_max_rolls: sources.log_file_max_rolls,
            log_file,
        }
    }
}

} // verus!
