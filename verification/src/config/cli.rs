//! Native configuration for ADP CLI/debug helpers.

use std::path::PathBuf;

use vstd::prelude::*;

verus! {

/// A filesystem path (`std::path::PathBuf`), carried through unchanged.
#[verifier::external_type_specification]
#[verifier::external_body]
pub struct ExPathBuf(PathBuf);

/// Native DogStatsD CLI/debug configuration.
#[derive(Debug)]
pub struct DogStatsDCliConfiguration {
    dogstatsd_socket_path: Option<PathBuf>,
}

impl Default for DogStatsDCliConfiguration {
    /// No socket path is configured.
    fn default() -> (r: Self)
        ensures
            r.socket_path() is None,
    {
        DogStatsDCliConfiguration { dogstatsd_socket_path: None }
    }
}

impl DogStatsDCliConfiguration {
    /// The configured DogStatsD socket path, if any.
    pub closed spec fn socket_path(&self) -> Option<PathBuf> {
        self.dogstatsd_socket_path
    }

    /// Creates native DogStatsD CLI/debug configuration.
    pub fn new(dogstatsd_socket_path: Option<PathBuf>) -> (r: Self)
        ensures
            r.socket_path() == dogstatsd_socket_path,
    {
        DogStatsDCliConfiguration { dogstatsd_socket_path }
    }

    /// Returns the configured DogStatsD socket path, if present.
    pub fn dogstatsd_socket_path(&self) -> (r: Option<&PathBuf>)
        ensures
            r matches Some(p) ==> self.socket_path() == Some(*p),
            r is None ==> self.socket_path() is None,
    {
        match &self.dogstatsd_socket_path {
            Some(p) => Some(p),
            None => None,
        }
    }
}

} // verus!
