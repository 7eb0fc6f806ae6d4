//! The connection pool of one node: a fixed row of slots, one per shard,
//! driven by the outcomes of connection attempts that its owner reports.

use vstd::prelude::*;
use crate::connection::{
    copy_name, ConnectRequest, ConnectionHandle, NodeAddress, RoutingError, TransportError,
};
use crate::routing::{Sharder, Token};

verus! {

/// The state of one slot of a pool.
#[derive(Clone, Copy, Debug, PartialEq, Eq)]
pub enum Slot {
    /// No connection, and no attempt under way.
    Empty,
    /// An attempt to open a connection is under way.
    Connecting,
    /// The slot holds an open connection.
    Live(ConnectionHandle),
    /// The pool was torn down; the slot stays closed.
    Closed,
}

/// How a pool is to be laid out.
#[derive(Clone, Copy, Debug)]
pub struct PoolConfig {
    /// The node's sharder, or `None` for a node that is not shard-aware.
    pub sharder: Option<Sharder>,
}

/// The live handles of a row of slots, in slot order.
pub open spec fn live_handles(slots: Seq<Slot>) -> Seq<ConnectionHandle>
    decreases slots.len(),
{
    if slots.len() == 0 {
        Seq::empty()
    } else {
        let rest = live_handles(slots.drop_last());
        match slots.last() {
            Slot::Live(h) => rest.push(h),
            _ => rest,
        }
    }
}

/// A snapshot as contracts speak of it: the handles as a sequence.
pub open spec fn working_view(r: Result<Vec<ConnectionHandle>, RoutingError>) -> Result<
    Seq<ConnectionHandle>,
    RoutingError,
> {
    match r {
        Ok(v) => Ok(v@),
        Err(e) => Err(e),
    }
}

/// The shard that a connection in slot `slot` is bound to.
pub open spec fn shard_label(shard_aware: bool, slot: int) -> Option<u16> {
    if shard_aware {
        Some(slot as u16)
    } else {
        None
    }
}

/// Whether a slot is empty of a connection or holds one to `address` that is
/// bound to `shard`.
pub open spec fn slot_belongs(slot: Slot, address: NodeAddress, shard: Option<u16>) -> bool {
    match slot {
        Slot::Live(h) => h.address == address && h.shard == shard,
        _ => true,
    }
}

/// Whether one step of a pool may take a slot from `before` to `after`.
pub open spec fn slot_may_become(before: Slot, after: Slot) -> bool {
    ||| after == before
    ||| after == Slot::Closed
    ||| before == Slot::Empty && after == Slot::Connecting
    ||| before == Slot::Connecting && after is Live
    ||| before == Slot::Connecting && after == Slot::Empty
    ||| before is Live && after == Slot::Empty
}

/// The lowest live slot that reports a failure, if there is one.
pub open spec fn first_failure(
    slots: Seq<Slot>,
    failures: Seq<Option<TransportError>>,
    from: int,
) -> Option<TransportError>
    decreases slots.len() - from,
{
    if from < 0 || from >= slots.len() || from >= failures.len() {
        None
    } else if slots[from] is Live && failures[from] is Some {
        failures[from]
    } else {
        first_failure(slots, failures, from + 1)
    }
}

/// There are no more live handles than slots.
pub proof fn lemma_live_handles_len(slots: Seq<Slot>)
    ensures
        live_handles(slots).len() <= slots.len(),
    decreases slots.len(),
{
    if slots.len() > 0 {
        lemma_live_handles_len(slots.drop_last());
    }
}

/// Every live handle sits in some slot.
pub proof fn lemma_live_handles_come_from_slots(slots: Seq<Slot>, k: int)
    requires
        0 <= k < live_handles(slots).len(),
    ensures
        exists|i: int| 0 <= i < slots.len() && slots[i] == Slot::Live(live_handles(slots)[k]),
    decreases slots.len(),
{
    let front = slots.drop_last();
    if k < live_handles(front).len() {
        lemma_live_handles_come_from_slots(front, k);
        let i = choose|i: int| 0 <= i < front.len() && front[i] == Slot::Live(live_handles(front)[k]);
        assert(slots[i] == Slot::Live(live_handles(slots)[k]));
    } else {
        let i = slots.len() - 1;
        assert(slots[i] == Slot::Live(live_handles(slots)[k]));
    }
}

/// A row with a live slot has a live handle.
pub proof fn lemma_live_slot_gives_handle(slots: Seq<Slot>, i: int)
    requires
        0 <= i < slots.len(),
        slots[i] is Live,
    ensures
        live_handles(slots).len() > 0,
    decreases slots.len(),
{
    if i < slots.len() - 1 {
        lemma_live_slot_gives_handle(slots.drop_last(), i);
    }
}

/// A row without a live slot has no live handle.
pub proof fn lemma_no_live_slot_no_handle(slots: Seq<Slot>)
    requires
        forall|i: int| 0 <= i < slots.len() ==> !(#[trigger] slots[i] is Live),
    ensures
        live_handles(slots).len() == 0,
    decreases slots.len(),
{
    if slots.len() > 0 {
        let front = slots.drop_last();
        assert forall|i: int| 0 <= i < front.len() implies !(#[trigger] front[i] is Live) by {
            assert(front[i] == slots[i]);
        }
        lemma_no_live_slot_no_handle(front);
        assert(!(slots[slots.len() - 1] is Live));
    }
}

/// The connections to one node, one slot per shard, or a single slot where
/// the node is not shard-aware.
#[derive(Debug)]
pub struct NodeConnectionPool {
    address: NodeAddress,
    sharder: Option<Sharder>,
    slots: Vec<Slot>,
    attempted: Vec<bool>,
    keyspace: Option<String>,
}

impl NodeConnectionPool {
    /// What every pool satisfies: one slot per shard, and each live handle
    /// names this node and the shard of its slot.
    pub closed spec fn wf(self) -> bool {
        &&& self.attempted.len() == self.slots.len()
        &&& match self.sharder {
            Some(s) => s.wf() && self.slots.len() == s.spec_shard_count(),
            None => self.slots.len() == 1,
        }
        &&& forall|i: int|
            0 <= i < self.slots.len() ==> slot_belongs(
                #[trigger] self.slots[i],
                self.address,
                shard_label(self.sharder is Some, i),
            )
    }

    /// The address of the node that the pool connects to.
    pub closed spec fn spec_address(self) -> NodeAddress {
        self.address
    }

    /// The node's sharder; `None` where the node is not shard-aware.
    pub closed spec fn spec_sharder(self) -> Option<Sharder> {
        self.sharder
    }

    /// The slots, in shard order.
    pub closed spec fn spec_slots(self) -> Seq<Slot> {
        self.slots@
    }

    /// For each slot, whether an attempt to fill it has ended yet.
    pub closed spec fn spec_attempted(self) -> Seq<bool> {
        self.attempted@
    }

    /// The keyspace that new connections are bound to.
    pub closed spec fn spec_keyspace(self) -> Option<String> {
        self.keyspace
    }

    /// The slot that `token` is routed to.
    pub open spec fn spec_target_slot(self, token: Token) -> int {
        match self.spec_sharder() {
            Some(s) => s.spec_shard_for_token(token),
            None => 0,
        }
    }

    /// The handle of the target slot where that slot is live, else the first
    /// live handle of the pool, else `NoConnections`.
    pub open spec fn spec_connection_for_token(self, token: Token) -> Result<
        ConnectionHandle,
        RoutingError,
    > {
        let live = live_handles(self.spec_slots());
        match self.spec_slots()[self.spec_target_slot(token)] {
            Slot::Live(h) => Ok(h),
            _ => if live.len() > 0 {
                Ok(live[0])
            } else {
                Err(RoutingError::NoConnections)
            },
        }
    }

    /// The live handle that `choice` picks, counting live handles in slot
    /// order and wrapping round.
    pub open spec fn spec_random_connection(self, choice: u64) -> Result<
        ConnectionHandle,
        RoutingError,
    > {
        let live = live_handles(self.spec_slots());
        if live.len() > 0 {
            Ok(live[choice as int % live.len() as int])
        } else {
            Err(RoutingError::NoConnections)
        }
    }

    /// The snapshot of the live handles, or `NoConnections` where it is empty.
    pub open spec fn spec_working_connections(self) -> Result<Seq<ConnectionHandle>, RoutingError> {
        let live = live_handles(self.spec_slots());
        if live.len() > 0 {
            Ok(live)
        } else {
            Err(RoutingError::NoConnections)
        }
    }

    /// The outcome of a keyspace switch, given what applying it to the open
    /// connections brought.
    pub open spec fn spec_use_keyspace(self, failures: Seq<Option<TransportError>>) -> Result<
        (),
        RoutingError,
    > {
        match first_failure(self.spec_slots(), failures, 0) {
            Some(e) => Err(RoutingError::KeyspaceApplyFailed(e)),
            None => Ok(()),
        }
    }

    /// Whether every slot has seen an attempt end.
    pub open spec fn spec_is_initialized(self) -> bool {
        forall|i: int| 0 <= i < self.spec_attempted().len() ==> #[trigger] self.spec_attempted()[i]
    }

    /// The request that opens a connection for `slot`.
    pub open spec fn spec_connect_request(self, slot: usize) -> ConnectRequest {
        ConnectRequest {
            address: self.spec_address(),
            shard: shard_label(self.spec_sharder() is Some, slot as int),
            slot,
            keyspace: self.spec_keyspace(),
        }
    }

    /// The facts of a well-formed pool, over its public description.
    pub proof fn lemma_wf(self)
        requires
            self.wf(),
        ensures
            self.spec_attempted().len() == self.spec_slots().len(),
            self.spec_slots().len() >= 1,
            match self.spec_sharder() {
                Some(s) => s.wf() && self.spec_slots().len() == s.spec_shard_count(),
                None => self.spec_slots().len() == 1,
            },
            forall|i: int|
                0 <= i < self.spec_slots().len() ==> slot_belongs(
                    #[trigger] self.spec_slots()[i],
                    self.spec_address(),
                    shard_label(self.spec_sharder() is Some, i),
                ),
            forall|token: Token|
                0 <= #[trigger] self.spec_target_slot(token) < self.spec_slots().len(),
    {
        if let Some(s) = self.sharder {
            s.lemma_wf();
        }
    }

    /// Whether the pool is as `new` builds it from these arguments: every
    /// slot empty, no attempt ended yet.
    pub open spec fn is_fresh(
        self,
        address: NodeAddress,
        config: PoolConfig,
        keyspace: Option<String>,
    ) -> bool {
        &&& self.spec_address() == address
        &&& self.spec_sharder() == config.sharder
        &&& self.spec_keyspace() == keyspace
        &&& self.spec_slots().len() == match config.sharder {
            Some(s) => s.spec_shard_count() as nat,
            None => 1,
        }
        &&& self.spec_attempted().len() == self.spec_slots().len()
        &&& forall|i: int|
            0 <= i < self.spec_slots().len() ==> #[trigger] self.spec_slots()[i] == Slot::Empty
        &&& forall|i: int|
            0 <= i < self.spec_attempted().len() ==> !#[trigger] self.spec_attempted()[i]
    }

    /// A pool for the node at `address`, every slot empty.
    pub fn new(address: NodeAddress, config: PoolConfig, keyspace: Option<String>) -> (pool: Self)
        ensures
            pool.wf(),
            pool.is_fresh(address, config, keyspace),
    {
        let count: usize = match &config.sharder {
            Some(s) => {
                proof {
                    use_type_invariant(s);
                }
                s.shard_count() as usize
            },
            None => 1,
        };
        let mut slots: Vec<Slot> = Vec::new();
        let mut attempted: Vec<bool> = Vec::new();
        while slots.len() < count
            invariant
                slots.len() == attempted.len(),
                slots.len() <= count,
                forall|i: int| 0 <= i < slots.len() ==> slots[i] == Slot::Empty,
                forall|i: int| 0 <= i < attempted.len() ==> !attempted[i],
            decreases count - slots.len(),
        {
            slots.push(Slot::Empty);
            attempted.push(false);
        }
        NodeConnectionPool { address, sharder: config.sharder, slots, attempted, keyspace }
    }

    /// The address of the node.
    pub fn address(&self) -> (r: NodeAddress)
        ensures
            r == self.spec_address(),
    {
        self.address
    }

    /// The node's sharder; `None` where the node is not shard-aware.
    pub fn sharder(&self) -> (r: Option<Sharder>)
        ensures
            r == self.spec_sharder(),
    {
        self.sharder
    }

    /// The number of slots.
    pub fn slot_count(&self) -> (r: usize)
        requires
            self.wf(),
        ensures
            r == self.spec_slots().len(),
            r >= 1,
    {
        proof {
            self.lemma_wf();
        }
        self.slots.len()
    }

    /// The state of slot `index`, or `None` past the last slot.
    pub fn slot(&self, index: usize) -> (r: Option<Slot>)
        ensures
            index < self.spec_slots().len() ==> r == Some(self.spec_slots()[index as int]),
            index >= self.spec_slots().len() ==> r is None,
    {
        if index < self.slots.len() {
            Some(self.slots[index])
        } else {
            None
        }
    }

    /// The keyspace that new connections are bound to.
    pub fn keyspace(&self) -> (r: Option<String>)
        ensures
            r == self.spec_keyspace(),
    {
        copy_name(&self.keyspace)
    }

    /// The live handles, in slot order.
    fn live_snapshot(&self) -> (live: Vec<ConnectionHandle>)
        ensures
            live@ == live_handles(self.spec_slots()),
    {
        let mut live: Vec<ConnectionHandle> = Vec::new();
        let mut i: usize = 0;
        while i < self.slots.len()
            invariant
                i <= self.slots.len(),
                live@ == live_handles(self.slots@.take(i as int)),
            decreases self.slots.len() - i,
        {
            proof {
                assert(self.slots@.take(i + 1).drop_last() == self.slots@.take(i as int));
            }
            match self.slots[i] {
                Slot::Live(h) => {
                    live.push(h);
                },
                _ => {},
            }
            i += 1;
        }
        proof {
            assert(self.slots@.take(i as int) == self.slots@);
        }
        live
    }

    /// The connection to route `token` through: the one to the shard that
    /// owns the token where it is open, else the first open one.
    pub fn connection_for_token(&self, token: Token) -> (r: Result<ConnectionHandle, RoutingError>)
        requires
            self.wf(),
        ensures
            r == self.spec_connection_for_token(token),
    {
        proof {
            self.lemma_wf();
        }
        let target: usize = match &self.sharder {
            Some(s) => s.shard_for_token(token) as usize,
            None => 0,
        };
        match self.slots[target] {
            Slot::Live(h) => Ok(h),
            _ => {
                let live = self.live_snapshot();
                if live.len() > 0 {
                    Ok(live[0])
                } else {
                    Err(RoutingError::NoConnections)
                }
            },
        }
    }

    /// An open connection chosen without regard to shard. `choice` is the
    /// caller's random number.
    pub fn random_connection(&self, choice: u64) -> (r: Result<ConnectionHandle, RoutingError>)
        ensures
            r == self.spec_random_connection(choice),
    {
        let live = self.live_snapshot();
        let n: usize = live.len();
        if n > 0 {
            let k: u64 = choice % (n as u64);
            Ok(live[k as usize])
        } else {
            Err(RoutingError::NoConnections)
        }
    }

    /// A snapshot of the open connections, in slot order.
    pub fn get_working_connections(&self) -> (r: Result<Vec<ConnectionHandle>, RoutingError>)
        requires
            self.wf(),
        ensures
            working_view(r) == self.spec_working_connections(),
            match r {
                Ok(v) => 1 <= v.len() <= self.spec_slots().len() && forall|k: int|
                    0 <= k < v.len() ==> (#[trigger] v[k]).address == self.spec_address(),
                Err(_) => true,
            },
    {
        let live = self.live_snapshot();
        if live.len() > 0 {
            proof {
                    self.lemma_wf();
                lemma_live_handles_len(self.slots@);
                assert forall|k: int| 0 <= k < live.len() implies (#[trigger] live[k]).address
                    == self.address by {
                    lemma_live_handles_come_from_slots(self.slots@, k);
                }
            }
            Ok(live)
        } else {
            Err(RoutingError::NoConnections)
        }
    }

    /// Whether the first round of connection attempts is over: every slot
    /// has seen an attempt succeed or fail.
    pub fn is_initialized(&self) -> (r: bool)
        ensures
            r == self.spec_is_initialized(),
    {
        let mut i: usize = 0;
        while i < self.attempted.len()
            invariant
                i <= self.attempted.len(),
                forall|j: int| 0 <= j < i ==> self.attempted[j],
            decreases self.attempted.len() - i,
        {
            if !self.attempted[i] {
                assert(!self.spec_attempted()[i as int]);
                return false;
            }
            i += 1;
        }
        true
    }

    /// Whether `other` is a pool for the same node with the same layout.
    pub open spec fn same_node(self, other: Self) -> bool {
        &&& self.spec_address() == other.spec_address()
        &&& self.spec_sharder() == other.spec_sharder()
        &&& self.spec_slots().len() == other.spec_slots().len()
    }

    /// How a keyspace switch to `name` changes a pool: the name is kept for
    /// the connections to come, and nothing else changes.
    pub open spec fn keyspace_step(pre: Self, post: Self, name: String) -> bool {
        &&& post.same_node(pre)
        &&& post.spec_keyspace() == Some(name)
        &&& post.spec_slots() == pre.spec_slots()
        &&& post.spec_attempted() == pre.spec_attempted()
    }

    /// Makes `name` the pool's keyspace. `failures[i]` tells what applying
    /// the switch to the connection in slot `i` brought: `None` where it went
    /// through. Entries for slots that are not live are not read, and a
    /// missing entry reports no failure.
    pub fn use_keyspace(&mut self, name: String, failures: &Vec<Option<TransportError>>) -> (r:
        Result<(), RoutingError>)
        requires
            old(self).wf(),
        ensures
            final(self).wf(),
            r == old(self).spec_use_keyspace(failures@),
            Self::keyspace_step(*old(self), *final(self), name),
    {
        let r = self.keyspace_outcome(failures);
        self.keyspace = Some(name);
        r
    }

    /// What a keyspace switch on the open connections came to.
    fn keyspace_outcome(&self, failures: &Vec<Option<TransportError>>) -> (r: Result<
        (),
        RoutingError,
    >)
        ensures
            r == self.spec_use_keyspace(failures@),
    {
        let mut i: usize = 0;
        while i < self.slots.len() && i < failures.len()
            invariant
                i <= self.slots.len(),
                i <= failures.len(),
                first_failure(self.slots@, failures@, 0) == first_failure(
                    self.slots@,
                    failures@,
                    i as int,
                ),
            decreases self.slots.len() - i,
        {
            match (self.slots[i], failures[i]) {
                (Slot::Live(_), Some(e)) => {
                    return Err(RoutingError::KeyspaceApplyFailed(e));
                },
                _ => {},
            }
            i += 1;
        }
        Ok(())
    }

    /// Whether `slot` is a slot of the pool in state `state`.
    pub open spec fn slot_is(self, slot: usize, state: Slot) -> bool {
        slot < self.spec_slots().len() && self.spec_slots()[slot as int] == state
    }

    /// How the start of an attempt changes a pool and what it returns.
    pub open spec fn begin_step(pre: Self, post: Self, slot: usize, r: Option<ConnectRequest>) -> bool {
        &&& post.same_node(pre)
        &&& post.spec_keyspace() == pre.spec_keyspace()
        &&& post.spec_attempted() == pre.spec_attempted()
        &&& if pre.slot_is(slot, Slot::Empty) {
            &&& r == Some(pre.spec_connect_request(slot))
            &&& post.spec_slots() == pre.spec_slots().update(slot as int, Slot::Connecting)
        } else {
            &&& r is None
            &&& post.spec_slots() == pre.spec_slots()
        }
    }

    /// Starts an attempt to fill `slot`. An empty slot turns to connecting
    /// and the request to hand to the transport is returned; any other slot
    /// is left as it is.
    pub fn begin_connect(&mut self, slot: usize) -> (r: Option<ConnectRequest>)
        requires
            old(self).wf(),
        ensures
            final(self).wf(),
            Self::begin_step(*old(self), *final(self), slot, r),
    {
        if slot >= self.slots.len() {
            return None;
        }
        match self.slots[slot] {
            Slot::Empty => {
                self.slots.set(slot, Slot::Connecting);
                let shard: Option<u16> = if self.sharder.is_some() {
                    Some(slot as u16)
                } else {
                    None
                };
                Some(
                    ConnectRequest {
                        address: self.address,
                        shard,
                        slot,
                        keyspace: copy_name(&self.keyspace),
                    },
                )
            },
            _ => None,
        }
    }

    /// The handle of the session `id` opened for `slot`.
    pub open spec fn spec_handle(self, slot: usize, id: u64) -> ConnectionHandle {
        ConnectionHandle {
            address: self.spec_address(),
            shard: shard_label(self.spec_sharder() is Some, slot as int),
            id,
        }
    }

    /// How a successful attempt changes a pool and what it returns.
    pub open spec fn established_step(
        pre: Self,
        post: Self,
        slot: usize,
        id: u64,
        r: Option<ConnectionHandle>,
    ) -> bool {
        &&& post.same_node(pre)
        &&& post.spec_keyspace() == pre.spec_keyspace()
        &&& if pre.slot_is(slot, Slot::Connecting) {
            &&& r == Some(pre.spec_handle(slot, id))
            &&& post.spec_slots() == pre.spec_slots().update(
                slot as int,
                Slot::Live(pre.spec_handle(slot, id)),
            )
            &&& post.spec_attempted() == pre.spec_attempted().update(slot as int, true)
        } else {
            &&& r is None
            &&& post.spec_slots() == pre.spec_slots()
            &&& post.spec_attempted() == pre.spec_attempted()
        }
    }

    /// Records that the attempt for `slot` opened the session `id`. A
    /// connecting slot turns live and its new handle is returned; any other
    /// slot is left as it is.
    pub fn connection_established(&mut self, slot: usize, id: u64) -> (r: Option<ConnectionHandle>)
        requires
            old(self).wf(),
        ensures
            final(self).wf(),
            Self::established_step(*old(self), *final(self), slot, id, r),
    {
        if slot >= self.slots.len() {
            return None;
        }
        match self.slots[slot] {
            Slot::Connecting => {
                let shard: Option<u16> = if self.sharder.is_some() {
                    Some(slot as u16)
                } else {
                    None
                };
                let handle = ConnectionHandle { address: self.address, shard, id };
                self.slots.set(slot, Slot::Live(handle));
                self.attempted.set(slot, true);
                Some(handle)
            },
            _ => None,
        }
    }

    /// How a failed attempt changes a pool and what it returns.
    pub open spec fn failed_step(pre: Self, post: Self, slot: usize, r: bool) -> bool {
        &&& post.same_node(pre)
        &&& post.spec_keyspace() == pre.spec_keyspace()
        &&& r == pre.slot_is(slot, Slot::Connecting)
        &&& if r {
            &&& post.spec_slots() == pre.spec_slots().update(slot as int, Slot::Empty)
            &&& post.spec_attempted() == pre.spec_attempted().update(slot as int, true)
        } else {
            &&& post.spec_slots() == pre.spec_slots()
            &&& post.spec_attempted() == pre.spec_attempted()
        }
    }

    /// Records that the attempt for `slot` failed. A connecting slot turns
    /// empty again, ready for the next attempt, and `true` is returned; any
    /// other slot is left as it is.
    pub fn connection_failed(&mut self, slot: usize) -> (r: bool)
        requires
            old(self).wf(),
        ensures
            final(self).wf(),
            Self::failed_step(*old(self), *final(self), slot, r),
    {
        if slot >= self.slots.len() {
            return false;
        }
        match self.slots[slot] {
            Slot::Connecting => {
                self.slots.set(slot, Slot::Empty);
                self.attempted.set(slot, true);
                true
            },
            _ => false,
        }
    }

    /// The slot that a handle of this pool belongs to.
    pub open spec fn spec_slot_of(handle: ConnectionHandle) -> int {
        match handle.shard {
            Some(s) => s as int,
            None => 0,
        }
    }

    /// Whether `handle` is the connection that its slot holds now.
    pub open spec fn spec_holds(self, handle: ConnectionHandle) -> bool {
        let slot = Self::spec_slot_of(handle);
        slot < self.spec_slots().len() && self.spec_slots()[slot] == Slot::Live(handle)
    }

    /// How the loss of the connection behind `handle` changes a pool.
    pub open spec fn lost_step(pre: Self, post: Self, handle: ConnectionHandle) -> bool {
        &&& post.same_node(pre)
        &&& post.spec_keyspace() == pre.spec_keyspace()
        &&& post.spec_attempted() == pre.spec_attempted()
        &&& if pre.spec_holds(handle) {
            post.spec_slots() == pre.spec_slots().update(Self::spec_slot_of(handle), Slot::Empty)
        } else {
            post.spec_slots() == pre.spec_slots()
        }
    }

    /// Records that a request through `handle` failed with `error`, and
    /// gives the failure to report. The slot that holds `handle` turns
    /// empty; a stale handle, whose slot has moved on, changes nothing.
    pub fn connection_lost(&mut self, handle: ConnectionHandle, error: TransportError) -> (r:
        RoutingError)
        requires
            old(self).wf(),
        ensures
            final(self).wf(),
            r == RoutingError::TransportError(error),
            Self::lost_step(*old(self), *final(self), handle),
    {
        let slot: usize = match handle.shard {
            Some(s) => s as usize,
            None => 0,
        };
        if slot < self.slots.len() {
            match self.slots[slot] {
                Slot::Live(h) => {
                    if h.same_as(&handle) {
                        self.slots.set(slot, Slot::Empty);
                    }
                },
                _ => {},
            }
        }
        RoutingError::TransportError(error)
    }

    /// How tearing down changes a pool.
    pub open spec fn close_step(pre: Self, post: Self) -> bool {
        &&& post.same_node(pre)
        &&& post.spec_keyspace() == pre.spec_keyspace()
        &&& post.spec_attempted() == pre.spec_attempted()
        &&& forall|i: int|
            0 <= i < post.spec_slots().len() ==> #[trigger] post.spec_slots()[i] == Slot::Closed
    }

    /// Tears the pool down: every slot turns closed, for good.
    pub fn close(&mut self)
        requires
            old(self).wf(),
        ensures
            final(self).wf(),
            Self::close_step(*old(self), *final(self)),
    {
        let mut i: usize = 0;
        while i < self.slots.len()
            invariant
                i <= self.slots.len(),
                self.wf(),
                self.same_node(*old(self)),
                self.keyspace == old(self).keyspace,
                self.attempted == old(self).attempted,
                forall|j: int| 0 <= j < i ==> self.slots[j] == Slot::Closed,
            decreases self.slots.len() - i,
        {
            self.slots.set(i, Slot::Closed);
            i += 1;
        }
    }

    /// While any slot is live, routing by token succeeds, and what it returns
    /// is the handle of a live slot of this pool; so do the random choice and
    /// the snapshot.
    pub proof fn lemma_routing_succeeds_while_any_slot_is_live(
        self,
        token: Token,
        choice: u64,
        i: int,
    )
        requires
            self.wf(),
            0 <= i < self.spec_slots().len(),
            self.spec_slots()[i] is Live,
        ensures
            self.spec_connection_for_token(token) is Ok,
            exists|j: int|
                0 <= j < self.spec_slots().len() && self.spec_slots()[j] == Slot::Live(
                    self.spec_connection_for_token(token).unwrap(),
                ),
            self.spec_random_connection(choice) is Ok,
            self.spec_working_connections() is Ok,
    {
        self.lemma_wf();
        let slots = self.spec_slots();
        lemma_live_slot_gives_handle(slots, i);
        let target = self.spec_target_slot(token);
        match slots[target] {
            Slot::Live(h) => {
                assert(slots[target] == Slot::Live(h));
            },
            _ => {
                lemma_live_handles_come_from_slots(slots, 0);
            },
        }
    }

    /// A pool without a live slot answers `NoConnections` to routing by
    /// token, to the random choice and to the snapshot.
    pub proof fn lemma_exhausted_pool_refuses(self, token: Token, choice: u64)
        requires
            self.wf(),
            forall|i: int| 0 <= i < self.spec_slots().len() ==> !(#[trigger] self.spec_slots()[i] is Live),
        ensures
            self.spec_connection_for_token(token) == Err::<ConnectionHandle, RoutingError>(
                RoutingError::NoConnections,
            ),
            self.spec_random_connection(choice) == Err::<ConnectionHandle, RoutingError>(
                RoutingError::NoConnections,
            ),
            self.spec_working_connections() == Err::<Seq<ConnectionHandle>, RoutingError>(
                RoutingError::NoConnections,
            ),
    {
        self.lemma_wf();
        lemma_no_live_slot_no_handle(self.spec_slots());
        assert(!(self.spec_slots()[self.spec_target_slot(token)] is Live));
    }

    /// On a pool without a live slot a keyspace switch succeeds, whatever
    /// failures are handed in.
    pub proof fn lemma_keyspace_needs_no_connection(self, failures: Seq<Option<TransportError>>)
        requires
            forall|i: int| 0 <= i < self.spec_slots().len() ==> !(#[trigger] self.spec_slots()[i] is Live),
        ensures
            self.spec_use_keyspace(failures) == Ok::<(), RoutingError>(()),
    {
        lemma_no_live_slot_no_failure(self.spec_slots(), failures, 0);
    }

    /// Every step of a pool moves each slot along
    /// `Empty -> Connecting -> Live -> Empty`, or to `Closed`: a closed slot
    /// stays closed, a live handle is never replaced in one step, and the
    /// record of the first round of attempts is never undone.
    pub proof fn lemma_steps_follow_the_slot_cycle(
        pre: Self,
        post: Self,
        slot: usize,
        id: u64,
        request: Option<ConnectRequest>,
        opened: Option<ConnectionHandle>,
        failed: bool,
        lost: ConnectionHandle,
        name: String,
        i: int,
    )
        requires
            pre.wf(),
            Self::begin_step(pre, post, slot, request) || Self::established_step(
                pre,
                post,
                slot,
                id,
                opened,
            ) || Self::failed_step(pre, post, slot, failed) || Self::lost_step(pre, post, lost)
                || Self::keyspace_step(pre, post, name) || Self::close_step(pre, post),
            0 <= i < pre.spec_slots().len(),
        ensures
            slot_may_become(pre.spec_slots()[i], post.spec_slots()[i]),
            pre.spec_slots()[i] == Slot::Closed ==> post.spec_slots()[i] == Slot::Closed,
            pre.spec_attempted()[i] ==> post.spec_attempted()[i],
            pre.spec_is_initialized() ==> post.spec_is_initialized(),
    {
        pre.lemma_wf();
        assert(post.spec_attempted().len() == pre.spec_attempted().len());
        assert forall|j: int| 0 <= j < pre.spec_attempted().len() && pre.spec_attempted()[j]
            implies #[trigger] post.spec_attempted()[j] by {}
    }

    /// No two live connections of a pool are bound to the same shard.
    pub proof fn lemma_one_connection_per_shard(self, k1: int, k2: int)
        requires
            self.wf(),
            0 <= k1 < k2 < live_handles(self.spec_slots()).len(),
        ensures
            live_handles(self.spec_slots())[k1].shard != live_handles(self.spec_slots())[k2].shard,
    {
        self.lemma_wf();
        lemma_live_handles_len(self.spec_slots());
        lemma_live_shards_differ(self.spec_slots(), self.spec_address(), k1, k2);
    }

    /// After a keyspace switch to `name`, every request for a new connection
    /// asks for one bound to `name`.
    pub proof fn lemma_keyspace_persists(pre: Self, post: Self, name: String, slot: usize)
        requires
            Self::keyspace_step(pre, post, name),
        ensures
            post.spec_connect_request(slot).keyspace == Some(name),
    {
    }
}

/// In a row of at most 65536 slots whose live handles carry the number of
/// their slot, no two live handles carry the same number.
pub proof fn lemma_live_shards_differ(slots: Seq<Slot>, address: NodeAddress, k1: int, k2: int)
    requires
        slots.len() <= 0x1_0000,
        forall|i: int|
            0 <= i < slots.len() ==> slot_belongs(
                #[trigger] slots[i],
                address,
                shard_label(true, i),
            ),
        0 <= k1 < k2 < live_handles(slots).len(),
    ensures
        live_handles(slots)[k1].shard != live_handles(slots)[k2].shard,
    decreases slots.len(),
{
    let front = slots.drop_last();
    assert forall|i: int| 0 <= i < front.len() implies slot_belongs(
        #[trigger] front[i],
        address,
        shard_label(true, i),
    ) by {
        assert(front[i] == slots[i]);
    }
    if k2 < live_handles(front).len() {
        lemma_live_shards_differ(front, address, k1, k2);
    } else {
        let last = slots.len() - 1;
        assert(slots[last] == Slot::Live(live_handles(slots)[k2]));
        lemma_live_handles_come_from_slots(front, k1);
        let i = choose|i: int|
            0 <= i < front.len() && front[i] == Slot::Live(live_handles(front)[k1]);
        assert(slots[i] == Slot::Live(live_handles(slots)[k1]));
    }
}

/// Where no slot is live, no failure counts.
pub proof fn lemma_no_live_slot_no_failure(
    slots: Seq<Slot>,
    failures: Seq<Option<TransportError>>,
    from: int,
)
    requires
        forall|i: int| 0 <= i < slots.len() ==> !(#[trigger] slots[i] is Live),
    ensures
        first_failure(slots, failures, from) is None,
    decreases slots.len() - from,
{
    if 0 <= from < slots.len() && from < failures.len() {
        lemma_no_live_slot_no_failure(slots, failures, from + 1);
    }
}

} // verus!
