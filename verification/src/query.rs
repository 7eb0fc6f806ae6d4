//! A query statement: its text, its page size and its settings.

use vstd::prelude::*;
use vstd::std_specs::convert::FromSpecImpl;
use std::sync::Arc;
use std::time::Duration;
use crate::statement::{Consistency, HistoryListener, RetryPolicy, SerialConsistency, StatementConfig};

verus! {

/// A query that can be executed on a server.
pub struct Query {
    pub(crate) config: StatementConfig,
    pub contents: String,
    page_size: Option<i32>,
}

impl Query {
    /// The settings.
    pub closed spec fn spec_config(self) -> StatementConfig {
        self.config
    }

    /// The text.
    pub closed spec fn spec_contents(self) -> String {
        self.contents
    }

    /// The page size; `None` where paging is off.
    pub closed spec fn spec_page_size(self) -> Option<i32> {
        self.page_size
    }

    /// Whether `other` has the same text and the same page size.
    pub open spec fn same_text(self, other: Self) -> bool {
        self.spec_contents() == other.spec_contents() && self.spec_page_size()
            == other.spec_page_size()
    }

    /// The query that `new` builds from `query_text`.
    pub closed spec fn spec_new(query_text: String) -> Self {
        Query { contents: query_text, page_size: None, config: StatementConfig::spec_default() }
    }

    /// A new query with the text `query_text`, without paging and with
    /// nothing set.
    pub fn new(query_text: String) -> (r: Self)
        ensures
            r == Self::spec_new(query_text),
            r.spec_contents() == query_text,
            r.spec_page_size() is None,
            r.spec_config() == StatementConfig::spec_default(),
    {
        Query { contents: query_text, page_size: None, config: StatementConfig::default() }
    }

    /// The query itself: its text is already its own.
    pub fn into_owned(self) -> (r: Query)
        ensures
            r == self,
    {
        self
    }

    /// The query with its page size set to `page_size`.
    pub fn with_page_size(self, page_size: i32) -> (r: Self)
        ensures
            r.spec_page_size() == Some(page_size),
            r.spec_contents() == self.spec_contents(),
            r.spec_config() == self.spec_config(),
    {
        let mut q = self;
        q.page_size = Some(page_size);
        q
    }

    /// Sets the page size, which must be above zero.
    pub fn set_page_size(&mut self, page_size: i32)
        requires
            page_size > 0,
        ensures
            final(self).spec_page_size() == Some(page_size),
            final(self).spec_contents() == old(self).spec_contents(),
            final(self).spec_config() == old(self).spec_config(),
    {
        self.page_size = Some(page_size);
    }

    /// Switches paging off.
    pub fn disable_paging(&mut self)
        ensures
            final(self).spec_page_size() is None,
            final(self).spec_contents() == old(self).spec_contents(),
            final(self).spec_config() == old(self).spec_config(),
    {
        self.page_size = None;
    }

    /// The page size; `None` where paging is off.
    pub fn get_page_size(&self) -> (r: Option<i32>)
        ensures
            r == self.spec_page_size(),
    {
        self.page_size
    }

    /// Sets the consistency to execute the query with.
    pub fn set_consistency(&mut self, c: Consistency)
        ensures
            final(self).same_text(*old(self)),
            final(self).spec_config() == (StatementConfig {
                consistency: Some(c),
                ..old(self).spec_config()
            }),
    {
        self.config.consistency = Some(c);
    }

    /// The consistency that was set; `None` leaves the choice to the session.
    pub fn get_consistency(&self) -> (r: Option<Consistency>)
        ensures
            r == self.spec_config().consistency,
    {
        self.config.consistency
    }

    /// Sets the serial consistency, which counts for lightweight
    /// transactions only.
    pub fn set_serial_consistency(&mut self, sc: Option<SerialConsistency>)
        ensures
            final(self).same_text(*old(self)),
            final(self).spec_config() == (StatementConfig {
                serial_consistency: sc,
                ..old(self).spec_config()
            }),
    {
        self.config.serial_consistency = sc;
    }

    /// The serial consistency that was set.
    pub fn get_serial_consistency(&self) -> (r: Option<SerialConsistency>)
        ensures
            r == self.spec_config().serial_consistency,
    {
        self.config.serial_consistency
    }

    /// Declares whether applying the query more than once changes nothing.
    /// `false` says that this is not known.
    pub fn set_is_idempotent(&mut self, is_idempotent: bool)
        ensures
            final(self).same_text(*old(self)),
            final(self).spec_config() == (StatementConfig {
                is_idempotent,
                ..old(self).spec_config()
            }),
    {
        self.config.is_idempotent = is_idempotent;
    }

    /// Whether the query was declared idempotent.
    pub fn get_is_idempotent(&self) -> (r: bool)
        ensures
            r == self.spec_config().is_idempotent,
    {
        self.config.is_idempotent
    }

    /// Sets a retry policy of the query's own, in place of the session's.
    pub fn set_retry_policy(&mut self, retry_policy: Box<dyn RetryPolicy>)
        ensures
            final(self).same_text(*old(self)),
            final(self).spec_config().retry_policy == Some(retry_policy),
            final(self).spec_config().history_listener == old(self).spec_config().history_listener,
            final(self).spec_config().same_plain_settings(old(self).spec_config()),
    {
        let policy = Some(retry_policy);
        self.config.retry_policy = policy;
    }

    /// The retry policy of the query's own, if one was set.
    pub fn get_retry_policy(&self) -> (r: &Option<Box<dyn RetryPolicy>>)
        ensures
            *r == self.spec_config().retry_policy,
    {
        &self.config.retry_policy
    }

    /// Switches tracing of the query on or off.
    pub fn set_tracing(&mut self, should_trace: bool)
        ensures
            final(self).same_text(*old(self)),
            final(self).spec_config() == (StatementConfig {
                tracing: should_trace,
                ..old(self).spec_config()
            }),
    {
        self.config.tracing = should_trace;
    }

    /// Whether tracing is on.
    pub fn get_tracing(&self) -> (r: bool)
        ensures
            r == self.spec_config().tracing,
    {
        self.config.tracing
    }

    /// Sets the timestamp, in microseconds, that takes the place of the one
    /// the server would assign.
    pub fn set_timestamp(&mut self, timestamp: Option<i64>)
        ensures
            final(self).same_text(*old(self)),
            final(self).spec_config() == (StatementConfig {
                timestamp,
                ..old(self).spec_config()
            }),
    {
        self.config.timestamp = timestamp;
    }

    /// The timestamp that was set, in microseconds.
    pub fn get_timestamp(&self) -> (r: Option<i64>)
        ensures
            r == self.spec_config().timestamp,
    {
        self.config.timestamp
    }

    /// Sets how long the client waits for the request; `None` leaves it to
    /// the session.
    pub fn set_request_timeout(&mut self, timeout: Option<Duration>)
        ensures
            final(self).same_text(*old(self)),
            final(self).spec_config() == (StatementConfig {
                request_timeout: timeout,
                ..old(self).spec_config()
            }),
    {
        self.config.request_timeout = timeout;
    }

    /// The client-side timeout that was set.
    pub fn get_request_timeout(&self) -> (r: Option<Duration>)
        ensures
            r == self.spec_config().request_timeout,
    {
        self.config.request_timeout
    }

    /// Sets the listener that is told what happens during execution.
    pub fn set_history_listener(&mut self, history_listener: Arc<dyn HistoryListener>)
        ensures
            final(self).same_text(*old(self)),
            final(self).spec_config().history_listener == Some(history_listener),
            final(self).spec_config().retry_policy == old(self).spec_config().retry_policy,
            final(self).spec_config().same_plain_settings(old(self).spec_config()),
    {
        let listener = Some(history_listener);
        self.config.history_listener = listener;
    }

    /// Takes the listener off the query and returns it.
    pub fn remove_history_listener(&mut self) -> (r: Option<Arc<dyn HistoryListener>>)
        ensures
            r == old(self).spec_config().history_listener,
            final(self).same_text(*old(self)),
            final(self).spec_config().history_listener is None,
            final(self).spec_config().retry_policy == old(self).spec_config().retry_policy,
            final(self).spec_config().same_plain_settings(old(self).spec_config()),
    {
        self.config.history_listener.take()
    }
}

impl From<String> for Query {
    fn from(s: String) -> (r: Self) {
        Query::new(s)
    }
}

impl FromSpecImpl<String> for Query {
    open spec fn obeys_from_spec() -> bool {
        true
    }

    open spec fn from_spec(s: String) -> Self {
        Query::spec_new(s)
    }
}

} // verus!
