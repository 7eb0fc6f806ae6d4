//! Client-side core of a driver for a sharded wide-column database:
//! token-to-shard routing, the per-node connection pool seen as a state
//! machine, the node that owns it, and the statement objects callers build.

pub mod batch;
pub mod connection;
pub mod node;
pub mod pool;
pub mod query;
pub mod routing;
pub mod statement;
pub mod token;
