//! A batch: several statements that are sent and executed as one.

use vstd::prelude::*;
use vstd::std_specs::convert::FromSpecImpl;
use std::sync::Arc;
use crate::query::Query;
use crate::statement::{Consistency, HistoryListener, PreparedStatement, RetryPolicy, SerialConsistency, StatementConfig};

verus! {

/// How the server applies the statements of a batch.
#[derive(Clone, Copy, Debug, PartialEq, Eq, Structural, Hash)]
pub enum BatchType {
    Logged,
    Unlogged,
    Counter,
}

/// A statement that can be part of a batch.
pub enum BatchStatement {
    Query(Query),
    PreparedStatement(PreparedStatement),
}

impl From<String> for BatchStatement {
    fn from(s: String) -> (r: Self) {
        BatchStatement::Query(Query::new(s))
    }
}

impl FromSpecImpl<String> for BatchStatement {
    open spec fn obeys_from_spec() -> bool {
        true
    }

    open spec fn from_spec(s: String) -> Self {
        BatchStatement::Query(Query::spec_new(s))
    }
}

impl From<Query> for BatchStatement {
    fn from(q: Query) -> (r: Self) {
        BatchStatement::Query(q)
    }
}

impl FromSpecImpl<Query> for BatchStatement {
    open spec fn obeys_from_spec() -> bool {
        true
    }

    open spec fn from_spec(q: Query) -> Self {
        BatchStatement::Query(q)
    }
}

impl From<PreparedStatement> for BatchStatement {
    fn from(p: PreparedStatement) -> (r: Self) {
        BatchStatement::PreparedStatement(p)
    }
}

impl FromSpecImpl<PreparedStatement> for BatchStatement {
    open spec fn obeys_from_spec() -> bool {
        true
    }

    open spec fn from_spec(p: PreparedStatement) -> Self {
        BatchStatement::PreparedStatement(p)
    }
}

/// A batch that can be executed on a server.
pub struct Batch {
    pub(crate) config: StatementConfig,
    pub statements: Vec<BatchStatement>,
    batch_type: BatchType,
}

impl Default for Batch {
    fn default() -> (r: Self)
        ensures
            r.spec_statements().len() == 0,
            r.spec_type() == BatchType::Logged,
            r.spec_config() == StatementConfig::spec_default(),
    {
        Batch { statements: Vec::new(), batch_type: BatchType::Logged, config: StatementConfig::default() }
    }
}

impl Batch {
    /// The settings.
    pub closed spec fn spec_config(self) -> StatementConfig {
        self.config
    }

    /// The statements, in the order in which they were added.
    pub closed spec fn spec_statements(self) -> Seq<BatchStatement> {
        self.statements@
    }

    /// The type of the batch.
    pub closed spec fn spec_type(self) -> BatchType {
        self.batch_type
    }

    /// Whether `other` has the same statements and the same type.
    pub open spec fn same_statements(self, other: Self) -> bool {
        self.spec_statements() == other.spec_statements() && self.spec_type() == other.spec_type()
    }

    /// A new, empty batch of type `batch_type`, with nothing set.
    pub fn new(batch_type: BatchType) -> (r: Self)
        ensures
            r.spec_statements().len() == 0,
            r.spec_type() == batch_type,
            r.spec_config() == StatementConfig::spec_default(),
    {
        Batch { batch_type, statements: Vec::new(), config: StatementConfig::default() }
    }

    /// A new batch of type `batch_type` that holds `statements`, with
    /// nothing set.
    pub fn new_with_statements(batch_type: BatchType, statements: Vec<BatchStatement>) -> (r: Self)
        ensures
            r.spec_statements() == statements@,
            r.spec_type() == batch_type,
            r.spec_config() == StatementConfig::spec_default(),
    {
        Batch { batch_type, statements, config: StatementConfig::default() }
    }

    /// Adds `statement` at the end of the batch.
    pub fn append_statement(&mut self, statement: BatchStatement)
        ensures
            final(self).spec_statements() == old(self).spec_statements().push(statement),
            final(self).spec_type() == old(self).spec_type(),
            final(self).spec_config() == old(self).spec_config(),
    {
        self.statements.push(statement);
    }

    /// The type of the batch.
    pub fn get_type(&self) -> (r: BatchType)
        ensures
            r == self.spec_type(),
    {
        self.batch_type
    }

    /// Sets the consistency to execute the batch with.
    pub fn set_consistency(&mut self, c: Consistency)
        ensures
            final(self).same_statements(*old(self)),
            final(self).spec_config() == (StatementConfig {
                consistency: Some(c),
                ..old(self).spec_config()
            }),
    {
        self.config.consistency = Some(c);
    }

    /// The consistency that was set; `None` leaves the choice to the session.
    pub fn get_consistency(&self) -> (r: Option<Consistency>)
        ensures
            r == self.spec_config().consistency,
    {
        self.config.consistency
    }

    /// Sets the serial consistency, which counts for lightweight
    /// transactions only.
    pub fn set_serial_consistency(&mut self, sc: Option<SerialConsistency>)
        ensures
            final(self).same_statements(*old(self)),
            final(self).spec_config() == (StatementConfig {
                serial_consistency: sc,
                ..old(self).spec_config()
            }),
    {
        self.config.serial_consistency = sc;
    }

    /// The serial consistency that was set.
    pub fn get_serial_consistency(&self) -> (r: Option<SerialConsistency>)
        ensures
            r == self.spec_config().serial_consistency,
    {
        self.config.serial_consistency
    }

    /// Declares whether applying the batch more than once changes nothing.
    /// `false` says that this is not known.
    pub fn set_is_idempotent(&mut self, is_idempotent: bool)
        ensures
            final(self).same_statements(*old(self)),
            final(self).spec_config() == (StatementConfig {
                is_idempotent,
                ..old(self).spec_config()
            }),
    {
        self.config.is_idempotent = is_idempotent;
    }

    /// Whether the batch was declared idempotent.
    pub fn get_is_idempotent(&self) -> (r: bool)
        ensures
            r == self.spec_config().is_idempotent,
    {
        self.config.is_idempotent
    }

    /// Sets a retry policy of the batch's own, in place of the session's.
    pub fn set_retry_policy(&mut self, retry_policy: Box<dyn RetryPolicy>)
        ensures
            final(self).same_statements(*old(self)),
            final(self).spec_config().retry_policy == Some(retry_policy),
            final(self).spec_config().history_listener == old(self).spec_config().history_listener,
            final(self).spec_config().same_plain_settings(old(self).spec_config()),
    {
        let policy = Some(retry_policy);
        self.config.retry_policy = policy;
    }

    /// The retry policy of the batch's own, if one was set.
    pub fn get_retry_policy(&self) -> (r: &Option<Box<dyn RetryPolicy>>)
        ensures
            *r == self.spec_config().retry_policy,
    {
        &self.config.retry_policy
    }

    /// Switches tracing of the batch on or off.
    pub fn set_tracing(&mut self, should_trace: bool)
        ensures
            final(self).same_statements(*old(self)),
            final(self).spec_config() == (StatementConfig {
                tracing: should_trace,
                ..old(self).spec_config()
            }),
    {
        self.config.tracing = should_trace;
    }

    /// Whether tracing is on.
    pub fn get_tracing(&self) -> (r: bool)
        ensures
            r == self.spec_config().tracing,
    {
        self.config.tracing
    }

    /// Sets the timestamp, in microseconds, that takes the place of the one
    /// the server would assign.
    pub fn set_timestamp(&mut self, timestamp: Option<i64>)
        ensures
            final(self).same_statements(*old(self)),
            final(self).spec_config() == (StatementConfig {
                timestamp,
                ..old(self).spec_config()
            }),
    {
        self.config.timestamp = timestamp;
    }

    /// The timestamp that was set, in microseconds.
    pub fn get_timestamp(&self) -> (r: Option<i64>)
        ensures
            r == self.spec_config().timestamp,
    {
        self.config.timestamp
    }

    /// Sets the listener that is told what happens during execution.
    pub fn set_history_listener(&mut self, history_listener: Arc<dyn HistoryListener>)
        ensures
            final(self).same_statements(*old(self)),
            final(self).spec_config().history_listener == Some(history_listener),
            final(self).spec_config().retry_policy == old(self).spec_config().retry_policy,
            final(self).spec_config().same_plain_settings(old(self).spec_config()),
    {
        let listener = Some(history_listener);
        self.config.history_listener = listener;
    }

    /// Takes the listener off the batch and returns it.
    pub fn remove_history_listener(&mut self) -> (r: Option<Arc<dyn HistoryListener>>)
        ensures
            r == old(self).spec_config().history_listener,
            final(self).same_statements(*old(self)),
            final(self).spec_config().history_listener is None,
            final(self).spec_config().retry_policy == old(self).spec_config().retry_policy,
            final(self).spec_config().same_plain_settings(old(self).spec_config()),
    {
        self.config.history_listener.take()
    }
}

} // verus!
