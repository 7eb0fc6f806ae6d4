//! Plain values that describe a node's endpoint, one open connection to it,
//! and the failures that routing can report.

use vstd::prelude::*;

verus! {

/// An IP address held as one integer: four bytes or sixteen, big-endian.
#[derive(Clone, Copy, Debug, PartialEq, Eq, Structural, Hash)]
pub enum IpAddress {
    V4(u32),
    V6(u128),
}

/// The network endpoint of a node.
#[derive(Clone, Copy, Debug, PartialEq, Eq, Structural, Hash)]
pub struct NodeAddress {
    pub ip: IpAddress,
    pub port: u16,
}

/// A failure reported by the transport, carried through unchanged.
#[derive(Clone, Copy, Debug, PartialEq, Eq, Structural)]
pub struct TransportError {
    /// The transport's own code for the failure.
    pub code: i32,
}

/// One open session, bound to a node and, on a shard-aware node, to a shard.
#[derive(Clone, Copy, Debug, PartialEq, Eq)]
pub struct ConnectionHandle {
    pub address: NodeAddress,
    /// The shard the session is bound to; `None` on a node without shards.
    pub shard: Option<u16>,
    /// The transport's identifier of the session.
    pub id: u64,
}

impl ConnectionHandle {
    /// Whether `other` is the same session: same node, same shard, same
    /// identifier.
    pub fn same_as(&self, other: &ConnectionHandle) -> (r: bool)
        ensures
            r == (*self == *other),
    {
        let same_shard = match (self.shard, other.shard) {
            (Some(a), Some(b)) => a == b,
            (None, None) => true,
            _ => false,
        };
        same_shard && self.id == other.id && self.address == other.address
    }
}

/// What the transport is asked to open for an empty slot.
#[derive(Clone, Debug, PartialEq, Eq)]
pub struct ConnectRequest {
    pub address: NodeAddress,
    pub shard: Option<u16>,
    /// The slot that waits for the outcome.
    pub slot: usize,
    /// The keyspace the new session must be bound to before it is handed in.
    pub keyspace: Option<String>,
}

/// The failures of routing through a node.
#[derive(Clone, Copy, Debug, PartialEq, Eq)]
pub enum RoutingError {
    /// The node has no pool: it was switched off when it was built.
    NodeDisabled,
    /// No slot of the pool holds a live connection right now.
    NoConnections,
    /// Switching the keyspace on an open connection failed.
    KeyspaceApplyFailed(TransportError),
    /// A request sent through a connection failed in the transport.
    TransportError(TransportError),
}

/// A copy of an optional name.
pub fn copy_name(name: &Option<String>) -> (r: Option<String>)
    ensures
        r == *name,
{
    match name {
        Some(s) => Some(s.clone()),
        None => None,
    }
}

} // verus!
