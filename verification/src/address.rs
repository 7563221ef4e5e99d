//! Endpoint descriptors.
//!
//! A listen address carries the transport kind (in-process channel or real
//! socket) and a routing number. The routing number stands for the variable
//! part of the endpoint: the channel number of an in-process address, or the
//! port of a socket address. An address is immutable once generated.

use vstd::prelude::*;

verus! {

/// The two ways a node can be reached: an in-process memory channel, or a
/// real socket.
#[derive(Clone, Copy, PartialEq, Eq, Structural, Debug)]
pub enum Transport {
    Memory,
    Network,
}

/// An endpoint descriptor: transport kind plus routing number.
#[derive(Clone, Copy, PartialEq, Eq, Structural, Debug)]
pub struct NodeAddress {
    pub transport: Transport,
    pub route: u64,
}

impl NodeAddress {
    /// An in-process listen address.
    pub fn memory(route: u64) -> (a: NodeAddress)
        ensures
            a.transport == Transport::Memory,
            a.route == route,
    {
        NodeAddress { transport: Transport::Memory, route }
    }

    /// A socket-based listen address.
    pub fn network(route: u64) -> (a: NodeAddress)
        ensures
            a.transport == Transport::Network,
            a.route == route,
    {
        NodeAddress { transport: Transport::Network, route }
    }
}

/// The transport kind a listen address calls for: an in-process address
/// means the in-memory transport, anything else the network transport.
pub open spec fn detected_transport(a: NodeAddress) -> Transport {
    a.transport
}

/// Reads the transport kind off a listen address.
pub fn detect_transport(a: &NodeAddress) -> (t: Transport)
    ensures
        t == detected_transport(*a),
{
    a.transport
}

} // verus!
