//! What a statement carries besides its text: the settings that decide how it
//! is executed.

use vstd::prelude::*;
use std::sync::Arc;
use std::time::Duration;

verus! {

/// How many replicas must answer before a request counts as done.
#[derive(Clone, Copy, Debug, PartialEq, Eq, Structural, Hash)]
pub enum Consistency {
    Any,
    One,
    Two,
    Three,
    Quorum,
    All,
    LocalQuorum,
    EachQuorum,
    LocalOne,
}

/// The consistency of the serial phase of a lightweight transaction.
#[derive(Clone, Copy, Debug, PartialEq, Eq, Structural, Hash)]
pub enum SerialConsistency {
    Serial,
    LocalSerial,
}

/// A policy that decides whether a failed request is tried again. A
/// statement only carries the policy; what it decides, and how, belongs to
/// the layer that consults it.
pub trait RetryPolicy {

}

/// A listener that is told what happens while a statement is executed. A
/// statement only carries the listener.
pub trait HistoryListener {

}

/// A statement that the server has prepared.
pub struct PreparedStatement {
    /// The identifier under which the server knows the statement.
    pub id: Vec<u8>,
    /// The text that was prepared.
    pub statement: String,
}

/// The settings that queries and batches share.
pub struct StatementConfig {
    pub consistency: Option<Consistency>,
    pub serial_consistency: Option<SerialConsistency>,
    pub is_idempotent: bool,
    pub retry_policy: Option<Box<dyn RetryPolicy>>,
    pub tracing: bool,
    pub timestamp: Option<i64>,
    pub request_timeout: Option<Duration>,
    pub history_listener: Option<Arc<dyn HistoryListener>>,
}

impl StatementConfig {
    /// Whether `other` has the same settings, the retry policy and the
    /// history listener left aside.
    pub open spec fn same_plain_settings(self, other: Self) -> bool {
        &&& self.consistency == other.consistency
        &&& self.serial_consistency == other.serial_consistency
        &&& self.is_idempotent == other.is_idempotent
        &&& self.tracing == other.tracing
        &&& self.timestamp == other.timestamp
        &&& self.request_timeout == other.request_timeout
    }

    /// The settings of a statement on which nothing was set.
    pub open spec fn spec_default() -> Self {
        StatementConfig {
            consistency: None,
            serial_consistency: None,
            is_idempotent: false,
            retry_policy: None,
            tracing: false,
            timestamp: None,
            request_timeout: None,
            history_listener: None,
        }
    }
}

impl Default for StatementConfig {
    fn default() -> (r: Self)
        ensures
            r == StatementConfig::spec_default(),
    {
        StatementConfig {
            consistency: None,
            serial_consistency: None,
            is_idempotent: false,
            retry_policy: None,
            tracing: false,
            timestamp: None,
            request_timeout: None,
            history_listener: None,
        }
    }
}

} // verus!
