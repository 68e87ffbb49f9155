//! The resolved configuration of the checks pipeline.

use vstd::prelude::*;

use crate::data_plane::ListenAddress;

verus! {

/// Resolved checks configuration.
#[derive(Clone, Debug)]
pub struct Domain {
    /// The address the checks pipeline exposes for IPC with the core Agent.
    pub ipc_endpoint: ListenAddress,
}

impl Domain {
    /// The checks domain listening for the core Agent over TCP on every interface, at `port`.
    pub fn listening_on_port(port: u16) -> (d: Self)
        ensures
            d.ipc_endpoint == (ListenAddress::AnyTcp { port }),
    {
        Domain { ipc_endpoint: ListenAddress::AnyTcp { port } }
    }
}

} // verus!
