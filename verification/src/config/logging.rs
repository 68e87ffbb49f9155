//! Native runtime logging configuration: the fields the application's logging stack needs.

use vstd::prelude::*;

use crate::text::owned;

verus! {

/// Ten mebibytes, in bytes: the default maximum size of a log file.
pub const DEFAULT_LOG_FILE_MAX_SIZE: u64 = 10485760;

/// Runtime logging configuration after translation.
#[derive(Clone, Debug, PartialEq, Eq)]
pub struct RuntimeLoggingConfig {
    /// Verbosity directive; `None` means "use the application default".
    pub log_level: Option<String>,
    /// Whether to emit log records as JSON.
    pub log_format_json: bool,
    /// Whether to use RFC 3339 timestamps.
    pub log_format_rfc3339: bool,
    /// Whether to write to standard output.
    pub log_to_console: bool,
    /// Whether to write to syslog.
    pub log_to_syslog: bool,
    /// Whether to use the RFC-style syslog header.
    pub syslog_rfc: bool,
    /// Syslog destination URI (empty means "platform default" when syslog is enabled).
    pub syslog_uri: String,
    /// Log file path, or empty to disable file logging.
    pub log_file: String,
    /// Maximum size of a log file, in bytes, before it rolls over.
    pub log_file_max_size: u64,
    /// Maximum number of rolled log files retained.
    pub log_file_max_rolls: usize,
}

/// Whether `c` is the default logging configuration: no level, console only, no file, files
/// of at most ten mebibytes rolled once.
pub open spec fn is_default_logging(c: RuntimeLoggingConfig) -> bool {
    &&& c.log_level is None
    &&& !c.log_format_json
    &&& !c.log_format_rfc3339
    &&& c.log_to_console
    &&& !c.log_to_syslog
    &&& !c.syslog_rfc
    &&& c.syslog_uri@.len() == 0
    &&& c.log_file@.len() == 0
    &&& c.log_file_max_size == DEFAULT_LOG_FILE_MAX_SIZE
    &&& c.log_file_max_rolls == 1
}

impl Default for RuntimeLoggingConfig {
    fn default() -> (r: Self)
        ensures
            is_default_logging(r),
    {
        proof {
            reveal_strlit("");
        }
        RuntimeLoggingConfig {
            log_level: None,
            log_format_json: false,
            log_format_rfc3339: false,
            log_to_console: true,
            log_to_syslog: false,
            syslog_rfc: false,
            syslog_uri: owned(""),
            log_file: owned(""),
            log_file_max_size: DEFAULT_LOG_FILE_MAX_SIZE,
            log_file_max_rolls: 1,
        }
    }
}

} // verus!
