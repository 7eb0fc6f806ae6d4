use scylla::connection::{ConnectionHandle, IpAddress, NodeAddress, RoutingError, TransportError};
use scylla::node::Node;
use scylla::pool::PoolConfig;
use scylla::routing::{Sharder, Token};
use std::collections::hash_map::DefaultHasher;
use std::collections::HashSet;
use std::hash::{Hash, Hasher};

fn addr_a() -> NodeAddress {
    NodeAddress { ip: IpAddress::V4(0x0a00_0001), port: 9042 }
}

fn addr_b() -> NodeAddress {
    NodeAddress { ip: IpAddress::V6(1), port: 9042 }
}

fn four_shards() -> PoolConfig {
    PoolConfig { sharder: Some(Sharder::new(4, 12).unwrap()) }
}

fn hash_of(node: &Node) -> u64 {
    let mut h = DefaultHasher::new();
    node.hash(&mut h);
    h.finish()
}

#[test]
fn disabled_node_refuses_routing() {
    let mut node = Node::new(addr_a(), four_shards(), None, None, None, false);
    assert!(!node.is_enabled());
    assert_eq!(node.sharder(), None);
    assert_eq!(node.connection_for_token(Token { value: 1 }), Err(RoutingError::NodeDisabled));
    assert_eq!(node.random_connection(3), Err(RoutingError::NodeDisabled));
    assert_eq!(node.get_working_connections(), Err(RoutingError::NodeDisabled));
    assert!(node.is_pool_initialized());
    assert_eq!(node.begin_connect(0), None);
    assert_eq!(node.connection_established(0, 1), None);
    assert!(!node.connection_failed(0));
    node.close();
    assert!(!node.is_enabled());
}

#[test]
fn disabled_node_accepts_keyspace_as_no_op() {
    let mut node = Node::new(addr_a(), four_shards(), None, None, None, false);
    let failures = vec![Some(TransportError { code: 1 })];
    assert_eq!(node.use_keyspace(String::from("ks1"), &failures), Ok(()));
    assert!(!node.is_enabled());
}

#[test]
fn identity_is_the_address() {
    let a = Node::new(
        addr_a(),
        four_shards(),
        Some(String::from("dc1")),
        Some(String::from("r1")),
        None,
        true,
    );
    let mut b = Node::new(addr_a(), PoolConfig { sharder: None }, None, None, None, false);
    b.change_down_marker(true);
    let c = Node::new(
        addr_b(),
        four_shards(),
        Some(String::from("dc1")),
        Some(String::from("r1")),
        None,
        true,
    );
    assert!(a == b);
    assert_eq!(hash_of(&a), hash_of(&b));
    assert!(a != c);
    let mut set = HashSet::new();
    set.insert(a);
    assert!(set.contains(&b));
    assert!(!set.contains(&c));
}

#[test]
fn liveness_flag_follows_the_last_write() {
    let mut node = Node::new(addr_a(), four_shards(), None, None, None, true);
    assert!(!node.is_down());
    node.change_down_marker(true);
    assert!(node.is_down());
    node.change_down_marker(false);
    assert!(!node.is_down());
    for i in 0..10_000u32 {
        node.change_down_marker(i % 2 == 0);
        assert_eq!(node.is_down(), i % 2 == 0);
    }
    assert!(!node.is_down());
    assert!(node.is_enabled());
    assert_eq!(node.address, addr_a());
}

#[test]
fn labels_are_kept() {
    let node = Node::new(
        addr_a(),
        four_shards(),
        Some(String::from("dc1")),
        Some(String::from("rack7")),
        None,
        true,
    );
    assert_eq!(node.address, addr_a());
    assert_eq!(node.datacenter, Some(String::from("dc1")));
    assert_eq!(node.rack, Some(String::from("rack7")));
    assert!(node.is_enabled());
    assert!(!node.is_down());
}

#[test]
fn enabled_node_end_to_end() {
    let mut node = Node::new(
        addr_a(),
        PoolConfig { sharder: Some(Sharder::new(4, 0).unwrap()) },
        Some(String::from("dc1")),
        None,
        Some(String::from("ks1")),
        true,
    );
    assert!(node.is_enabled());
    assert!(!node.is_pool_initialized());
    assert_eq!(node.get_working_connections(), Err(RoutingError::NoConnections));
    for slot in 0..4usize {
        let request = node.begin_connect(slot).unwrap();
        assert_eq!(request.address, addr_a());
        assert_eq!(request.shard, Some(slot as u16));
        assert_eq!(request.keyspace, Some(String::from("ks1")));
        if slot == 2 {
            assert!(node.connection_failed(slot));
        } else {
            assert!(node.connection_established(slot, 40 + slot as u64).is_some());
        }
    }
    assert!(node.is_pool_initialized());
    let live = node.get_working_connections().unwrap();
    assert!(1 <= live.len() && live.len() <= 4);
    assert_eq!(live.len(), 3);
    for h in &live {
        assert_eq!(h.address, addr_a());
    }
    let sharder = node.sharder().unwrap();
    assert_eq!(sharder.shard_count(), 4);
    let t = Token { value: 0x1234_5678_9abc_def0 };
    let first = sharder.shard_for_token(t);
    assert_eq!(first, 2);
    for _ in 0..100 {
        assert_eq!(node.sharder().unwrap().shard_for_token(t), first);
    }
    // Shard 2 is empty: the token is routed through another live connection.
    assert_eq!(
        node.connection_for_token(t),
        Ok(ConnectionHandle { address: addr_a(), shard: Some(0), id: 40 })
    );
    assert_eq!(
        node.connection_for_token(Token { value: i64::MAX }),
        Ok(ConnectionHandle { address: addr_a(), shard: Some(3), id: 43 })
    );
    assert_eq!(
        node.random_connection(4),
        Ok(ConnectionHandle { address: addr_a(), shard: Some(1), id: 41 })
    );
}

#[test]
fn node_reports_transport_failures() {
    let mut node = Node::new(addr_a(), PoolConfig { sharder: None }, None, None, None, true);
    assert_eq!(node.sharder(), None);
    node.begin_connect(0);
    let h = node.connection_established(0, 8).unwrap();
    assert_eq!(
        node.use_keyspace(String::from("ks"), &vec![Some(TransportError { code: 9 })]),
        Err(RoutingError::KeyspaceApplyFailed(TransportError { code: 9 }))
    );
    assert_eq!(
        node.connection_lost(h, TransportError { code: 10 }),
        RoutingError::TransportError(TransportError { code: 10 })
    );
    assert_eq!(node.random_connection(0), Err(RoutingError::NoConnections));
    assert_eq!(node.use_keyspace(String::from("ks"), &vec![Some(TransportError { code: 9 })]), Ok(()));
    node.close();
    assert_eq!(node.begin_connect(0), None);
    assert!(node.is_enabled());
}
