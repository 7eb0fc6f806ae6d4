//! A cluster node: its identity, its labels, its liveness flag and, unless
//! the node is switched off, its connection pool.

use vstd::prelude::*;
use vstd::std_specs::cmp::PartialEqSpec;
use vstd::std_specs::cmp::PartialEqSpecImpl;
use std::hash::{Hash, Hasher};
use crate::connection::{ConnectRequest, ConnectionHandle, NodeAddress, RoutingError, TransportError};
use crate::pool::{NodeConnectionPool, PoolConfig, working_view};
use crate::routing::{Sharder, Token};

verus! {

/// A node of the cluster, along with its connections.
#[derive(Debug)]
pub struct Node {
    pub address: NodeAddress,
    pub datacenter: Option<String>,
    pub rack: Option<String>,
    /// `None` for a node that was switched off when it was built.
    pool: Option<NodeConnectionPool>,
    down_marker: bool,
}

impl Node {
    /// What every node satisfies: its pool, if it has one, is well formed
    /// and connects to the node's own address.
    pub closed spec fn wf(self) -> bool {
        match self.pool {
            Some(p) => p.wf() && p.spec_address() == self.address,
            None => true,
        }
    }

    /// The pool; `None` for a node that is switched off.
    pub closed spec fn spec_pool(self) -> Option<NodeConnectionPool> {
        self.pool
    }

    /// The address, which is the node's identity.
    pub closed spec fn spec_address(self) -> NodeAddress {
        self.address
    }

    /// The datacenter label.
    pub closed spec fn spec_datacenter(self) -> Option<String> {
        self.datacenter
    }

    /// The rack label.
    pub closed spec fn spec_rack(self) -> Option<String> {
        self.rack
    }

    /// The liveness flag: the value of the last write, `false` at first.
    pub closed spec fn spec_is_down(self) -> bool {
        self.down_marker
    }

    /// A node is enabled where it has a pool.
    pub open spec fn spec_is_enabled(self) -> bool {
        self.spec_pool() is Some
    }

    /// The pool's sharder; none without a pool.
    pub open spec fn spec_sharder(self) -> Option<Sharder> {
        match self.spec_pool() {
            Some(p) => p.spec_sharder(),
            None => None,
        }
    }

    /// What the pool answers for `token`; `NodeDisabled` without a pool.
    pub open spec fn spec_connection_for_token(self, token: Token) -> Result<
        ConnectionHandle,
        RoutingError,
    > {
        match self.spec_pool() {
            Some(p) => p.spec_connection_for_token(token),
            None => Err(RoutingError::NodeDisabled),
        }
    }

    /// What the pool answers for `choice`; `NodeDisabled` without a pool.
    pub open spec fn spec_random_connection(self, choice: u64) -> Result<
        ConnectionHandle,
        RoutingError,
    > {
        match self.spec_pool() {
            Some(p) => p.spec_random_connection(choice),
            None => Err(RoutingError::NodeDisabled),
        }
    }

    /// The pool's snapshot; `NodeDisabled` without a pool.
    pub open spec fn spec_working_connections(self) -> Result<Seq<ConnectionHandle>, RoutingError> {
        match self.spec_pool() {
            Some(p) => p.spec_working_connections(),
            None => Err(RoutingError::NodeDisabled),
        }
    }

    /// A node that is switched off has no connection to switch: success.
    pub open spec fn spec_use_keyspace(self, failures: Seq<Option<TransportError>>) -> Result<
        (),
        RoutingError,
    > {
        match self.spec_pool() {
            Some(p) => p.spec_use_keyspace(failures),
            None => Ok(()),
        }
    }

    /// A node that is switched off has nothing to wait for.
    pub open spec fn spec_is_pool_initialized(self) -> bool {
        match self.spec_pool() {
            Some(p) => p.spec_is_initialized(),
            None => true,
        }
    }

    /// Whether `other` has the same address and labels, and the same flag.
    pub open spec fn same_labels(self, other: Self) -> bool {
        &&& self.spec_address() == other.spec_address()
        &&& self.spec_datacenter() == other.spec_datacenter()
        &&& self.spec_rack() == other.spec_rack()
        &&& self.spec_is_down() == other.spec_is_down()
    }

    /// A new node. An enabled node gets a pool with every slot empty; a node
    /// that is not enabled gets none. The node starts as not down.
    pub fn new(
        address: NodeAddress,
        pool_config: PoolConfig,
        datacenter: Option<String>,
        rack: Option<String>,
        keyspace_name: Option<String>,
        enabled: bool,
    ) -> (node: Self)
        ensures
            node.wf(),
            node.spec_address() == address,
            node.spec_datacenter() == datacenter,
            node.spec_rack() == rack,
            !node.spec_is_down(),
            node.spec_is_enabled() == enabled,
            enabled ==> node.spec_pool().unwrap().is_fresh(address, pool_config, keyspace_name),
    {
        let pool = if enabled {
            Some(NodeConnectionPool::new(address, pool_config, keyspace_name))
        } else {
            None
        };
        Node { address, datacenter, rack, pool, down_marker: false }
    }

    /// The node's sharder; `None` where the node is switched off or not
    /// shard-aware.
    pub fn sharder(&self) -> (r: Option<Sharder>)
        ensures
            r == self.spec_sharder(),
    {
        match &self.pool {
            Some(p) => p.sharder(),
            None => None,
        }
    }

    /// The connection to route `token` through.
    pub fn connection_for_token(&self, token: Token) -> (r: Result<ConnectionHandle, RoutingError>)
        requires
            self.wf(),
        ensures
            r == self.spec_connection_for_token(token),
    {
        match &self.pool {
            Some(p) => p.connection_for_token(token),
            None => Err(RoutingError::NodeDisabled),
        }
    }

    /// An open connection chosen by the caller's random number `choice`.
    pub fn random_connection(&self, choice: u64) -> (r: Result<ConnectionHandle, RoutingError>)
        ensures
            r == self.spec_random_connection(choice),
    {
        match &self.pool {
            Some(p) => p.random_connection(choice),
            None => Err(RoutingError::NodeDisabled),
        }
    }

    /// Whether the node is marked as down.
    pub fn is_down(&self) -> (r: bool)
        ensures
            r == self.spec_is_down(),
    {
        self.down_marker
    }

    /// Whether the node is enabled. Only an enabled node has a pool.
    pub fn is_enabled(&self) -> (r: bool)
        ensures
            r == self.spec_is_enabled(),
    {
        self.pool.is_some()
    }

    /// Marks the node as down or as up. Nothing else changes.
    pub fn change_down_marker(&mut self, is_down: bool)
        ensures
            final(self).spec_is_down() == is_down,
            final(self).spec_pool() == old(self).spec_pool(),
            final(self).spec_address() == old(self).spec_address(),
            final(self).spec_datacenter() == old(self).spec_datacenter(),
            final(self).spec_rack() == old(self).spec_rack(),
            old(self).wf() ==> final(self).wf(),
    {
        self.down_marker = is_down;
    }

    /// Makes `name` the keyspace of the node's pool; see the pool's
    /// `use_keyspace` for `failures`. A node that is switched off is left as
    /// it is, with success.
    pub fn use_keyspace(&mut self, name: String, failures: &Vec<Option<TransportError>>) -> (r:
        Result<(), RoutingError>)
        requires
            old(self).wf(),
        ensures
            final(self).wf(),
            final(self).same_labels(*old(self)),
            r == old(self).spec_use_keyspace(failures@),
            match old(self).spec_pool() {
                Some(p) => final(self).spec_pool() is Some && NodeConnectionPool::keyspace_step(
                    p,
                    final(self).spec_pool().unwrap(),
                    name,
                ),
                None => final(self).spec_pool() is None,
            },
    {
        match &mut self.pool {
            Some(p) => p.use_keyspace(name, failures),
            None => Ok(()),
        }
    }

    /// A snapshot of the open connections, in slot order.
    pub fn get_working_connections(&self) -> (r: Result<Vec<ConnectionHandle>, RoutingError>)
        requires
            self.wf(),
        ensures
            working_view(r) == self.spec_working_connections(),
            match r {
                Ok(v) => 1 <= v.len() <= self.spec_pool().unwrap().spec_slots().len() && forall|
                    k: int,
                |
                    0 <= k < v.len() ==> (#[trigger] v[k]).address == self.spec_address(),
                Err(_) => true,
            },
    {
        match &self.pool {
            Some(p) => p.get_working_connections(),
            None => Err(RoutingError::NodeDisabled),
        }
    }

    /// Whether a caller that waits for the pool's first round of attempts
    /// may go on: at once where the node is switched off.
    pub fn is_pool_initialized(&self) -> (r: bool)
        ensures
            r == self.spec_is_pool_initialized(),
    {
        match &self.pool {
            Some(p) => p.is_initialized(),
            None => true,
        }
    }

    /// Starts an attempt to fill `slot` of the pool; `None` where the node
    /// has no pool or the slot is not empty.
    pub fn begin_connect(&mut self, slot: usize) -> (r: Option<ConnectRequest>)
        requires
            old(self).wf(),
        ensures
            final(self).wf(),
            final(self).same_labels(*old(self)),
            match old(self).spec_pool() {
                Some(p) => final(self).spec_pool() is Some && NodeConnectionPool::begin_step(
                    p,
                    final(self).spec_pool().unwrap(),
                    slot,
                    r,
                ),
                None => final(self).spec_pool() is None && r is None,
            },
    {
        match &mut self.pool {
            Some(p) => p.begin_connect(slot),
            None => None,
        }
    }

    /// Records that the attempt for `slot` opened the session `id`.
    pub fn connection_established(&mut self, slot: usize, id: u64) -> (r: Option<ConnectionHandle>)
        requires
            old(self).wf(),
        ensures
            final(self).wf(),
            final(self).same_labels(*old(self)),
            match old(self).spec_pool() {
                Some(p) => final(self).spec_pool() is Some
                    && NodeConnectionPool::established_step(
                    p,
                    final(self).spec_pool().unwrap(),
                    slot,
                    id,
                    r,
                ),
                None => final(self).spec_pool() is None && r is None,
            },
    {
        match &mut self.pool {
            Some(p) => p.connection_established(slot, id),
            None => None,
        }
    }

    /// Records that the attempt for `slot` failed.
    pub fn connection_failed(&mut self, slot: usize) -> (r: bool)
        requires
            old(self).wf(),
        ensures
            final(self).wf(),
            final(self).same_labels(*old(self)),
            match old(self).spec_pool() {
                Some(p) => final(self).spec_pool() is Some && NodeConnectionPool::failed_step(
                    p,
                    final(self).spec_pool().unwrap(),
                    slot,
                    r,
                ),
                None => final(self).spec_pool() is None && !r,
            },
    {
        match &mut self.pool {
            Some(p) => p.connection_failed(slot),
            None => false,
        }
    }

    /// Records that a request through `handle` failed with `error`, and
    /// gives the failure to report.
    pub fn connection_lost(&mut self, handle: ConnectionHandle, error: TransportError) -> (r:
        RoutingError)
        requires
            old(self).wf(),
        ensures
            final(self).wf(),
            final(self).same_labels(*old(self)),
            r == RoutingError::TransportError(error),
            match old(self).spec_pool() {
                Some(p) => final(self).spec_pool() is Some && NodeConnectionPool::lost_step(
                    p,
                    final(self).spec_pool().unwrap(),
                    handle,
                ),
                None => final(self).spec_pool() is None,
            },
    {
        match &mut self.pool {
            Some(p) => p.connection_lost(handle, error),
            None => RoutingError::TransportError(error),
        }
    }

    /// Tears the node's pool down: every slot turns closed.
    pub fn close(&mut self)
        requires
            old(self).wf(),
        ensures
            final(self).wf(),
            final(self).same_labels(*old(self)),
            match old(self).spec_pool() {
                Some(p) => final(self).spec_pool() is Some && NodeConnectionPool::close_step(
                    p,
                    final(self).spec_pool().unwrap(),
                ),
                None => final(self).spec_pool() is None,
            },
    {
        match &mut self.pool {
            Some(p) => p.close(),
            None => {},
        }
    }

    /// A node that is switched off refuses every routing call with
    /// `NodeDisabled`, and nobody has to wait for it. A keyspace switch on it
    /// succeeds, for there is no connection to switch.
    pub proof fn lemma_disabled_node_refuses(
        self,
        token: Token,
        choice: u64,
        failures: Seq<Option<TransportError>>,
    )
        requires
            !self.spec_is_enabled(),
        ensures
            self.spec_use_keyspace(failures) == Ok::<(), RoutingError>(()),
            self.spec_connection_for_token(token) == Err::<ConnectionHandle, RoutingError>(
                RoutingError::NodeDisabled,
            ),
            self.spec_random_connection(choice) == Err::<ConnectionHandle, RoutingError>(
                RoutingError::NodeDisabled,
            ),
            self.spec_working_connections() == Err::<Seq<ConnectionHandle>, RoutingError>(
                RoutingError::NodeDisabled,
            ),
            self.spec_sharder() is None,
            self.spec_is_pool_initialized(),
    {
    }

    /// Two nodes with the same address are equal, whatever their labels,
    /// their pools and their flags; two with different addresses are not.
    pub proof fn lemma_identity_is_the_address(self, other: Self)
        ensures
            PartialEqSpec::eq_spec(&self, &other) == (self.spec_address() == other.spec_address()),
    {
    }
}

impl PartialEq for Node {
    fn eq(&self, other: &Self) -> (r: bool) {
        self.address == other.address
    }
}

impl Eq for Node {

}

impl PartialEqSpecImpl for Node {
    open spec fn obeys_eq_spec() -> bool {
        true
    }

    open spec fn eq_spec(&self, other: &Self) -> bool {
        self.spec_address() == other.spec_address()
    }
}

impl Hash for Node {
    /// Feeds the address, and nothing else of the node, to the hasher.
    fn hash<H: Hasher>(&self, state: &mut H) {
        hash_address(&self.address, state);
    }
}

/// Feeds `address` to `state` through `std::hash::Hash::hash`. Nothing is
/// claimed of the hasher's state afterwards.
#[verifier::external_body]
fn hash_address<H: Hasher>(address: &NodeAddress, state: &mut H) {
    address.hash(state)
}

} // verus!
