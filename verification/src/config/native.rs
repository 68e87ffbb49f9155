//! ADP-native runtime settings of the control plane and the runtime environment.

use std::path::PathBuf;
use std::time::Duration;

use vstd::prelude::*;

verus! {

/// Native control-plane settings.
#[derive(Debug)]
pub struct ControlPlaneConfiguration {
    ipc_cert_file_path: PathBuf,
}

impl ControlPlaneConfiguration {
    /// The IPC certificate file path.
    pub closed spec fn cert_path(&self) -> PathBuf {
        self.ipc_cert_file_path
    }

    /// Creates native control-plane settings.
    pub fn new(ipc_cert_file_path: PathBuf) -> (r: Self)
        ensures
            r.cert_path() == ipc_cert_file_path,
    {
        ControlPlaneConfiguration { ipc_cert_file_path }
    }

    /// Returns the IPC certificate file path used by the privileged API.
    pub fn ipc_cert_file_path(&self) -> (r: &PathBuf)
        ensures
            *r == self.cert_path(),
    {
        &self.ipc_cert_file_path
    }
}

/// Native runtime environment settings.
#[derive(Debug)]
pub struct EnvironmentConfiguration {
    hostname: String,
    host_tags_expected_tags_duration: Duration,
}

impl EnvironmentConfiguration {
    /// The configured fixed hostname.
    pub closed spec fn host(&self) -> Seq<char> {
        self.hostname@
    }

    /// How long startup host tags are added to metrics.
    pub closed spec fn expected_tags_duration(&self) -> Duration {
        self.host_tags_expected_tags_duration
    }

    /// Creates native runtime environment settings.
    pub fn new(hostname: String, host_tags_expected_tags_duration: Duration) -> (r: Self)
        ensures
            r.host() == hostname@,
            r.expected_tags_duration() == host_tags_expected_tags_duration,
    {
        EnvironmentConfiguration { hostname, host_tags_expected_tags_duration }
    }

    /// Returns the configured fixed hostname.
    pub fn hostname(&self) -> (r: &str)
        ensures
            r@ == self.host(),
    {
        self.hostname.as_str()
    }

    /// Returns how long startup host tags should be added to metrics.
    pub fn host_tags_expected_tags_duration(&self) -> (r: Duration)
        ensures
            r == self.expected_tags_duration(),
    {
        self.host_tags_expected_tags_duration
    }
}

} // verus!
