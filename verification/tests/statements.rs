use scylla::batch::{Batch, BatchStatement, BatchType};
use scylla::query::Query;
use scylla::statement::{
    Consistency, HistoryListener, PreparedStatement, RetryPolicy, SerialConsistency,
};
use std::sync::Arc;
use std::time::Duration;

struct NeverRetry;

impl RetryPolicy for NeverRetry {}

struct Quiet;

impl HistoryListener for Quiet {}

#[test]
fn new_query_has_nothing_set() {
    let q = Query::new(String::from("SELECT * FROM ks.t"));
    assert_eq!(q.contents, "SELECT * FROM ks.t");
    assert_eq!(q.get_page_size(), None);
    assert_eq!(q.get_consistency(), None);
    assert_eq!(q.get_serial_consistency(), None);
    assert!(!q.get_is_idempotent());
    assert!(q.get_retry_policy().is_none());
    assert!(!q.get_tracing());
    assert_eq!(q.get_timestamp(), None);
    assert_eq!(q.get_request_timeout(), None);
}

#[test]
fn query_page_size() {
    let mut q = Query::new(String::from("SELECT 1")).with_page_size(5000);
    assert_eq!(q.get_page_size(), Some(5000));
    q.set_page_size(1);
    assert_eq!(q.get_page_size(), Some(1));
    q.disable_paging();
    assert_eq!(q.get_page_size(), None);
    let q = q.into_owned();
    assert_eq!(q.contents, "SELECT 1");
    assert_eq!(q.get_page_size(), None);
}

#[test]
fn query_settings_round_trip() {
    let mut q = Query::from(String::from("INSERT INTO ks.t (a) VALUES (?)"));
    q.set_consistency(Consistency::LocalQuorum);
    q.set_serial_consistency(Some(SerialConsistency::LocalSerial));
    q.set_is_idempotent(true);
    q.set_tracing(true);
    q.set_timestamp(Some(-42));
    q.set_request_timeout(Some(Duration::from_millis(1500)));
    q.set_retry_policy(Box::new(NeverRetry));
    assert_eq!(q.get_consistency(), Some(Consistency::LocalQuorum));
    assert_eq!(q.get_serial_consistency(), Some(SerialConsistency::LocalSerial));
    assert!(q.get_is_idempotent());
    assert!(q.get_tracing());
    assert_eq!(q.get_timestamp(), Some(-42));
    assert_eq!(q.get_request_timeout(), Some(Duration::from_millis(1500)));
    assert!(q.get_retry_policy().is_some());
    assert_eq!(q.contents, "INSERT INTO ks.t (a) VALUES (?)");
    assert_eq!(q.get_page_size(), None);
    q.set_serial_consistency(None);
    q.set_timestamp(None);
    q.set_request_timeout(None);
    assert_eq!(q.get_serial_consistency(), None);
    assert_eq!(q.get_timestamp(), None);
    assert_eq!(q.get_request_timeout(), None);
    assert_eq!(q.get_consistency(), Some(Consistency::LocalQuorum));
}

#[test]
fn query_history_listener_is_taken_once() {
    let mut q = Query::new(String::from("SELECT 1"));
    assert!(q.remove_history_listener().is_none());
    let listener: Arc<dyn HistoryListener> = Arc::new(Quiet);
    q.set_history_listener(listener.clone());
    let back = q.remove_history_listener().unwrap();
    assert!(Arc::ptr_eq(&back, &listener));
    assert!(q.remove_history_listener().is_none());
}

#[test]
fn new_batch_is_empty() {
    let b = Batch::new(BatchType::Counter);
    assert_eq!(b.get_type(), BatchType::Counter);
    assert!(b.statements.is_empty());
    assert_eq!(b.get_consistency(), None);
    assert_eq!(b.get_serial_consistency(), None);
    assert!(!b.get_is_idempotent());
    assert!(b.get_retry_policy().is_none());
    assert!(!b.get_tracing());
    assert_eq!(b.get_timestamp(), None);
    let d = Batch::default();
    assert_eq!(d.get_type(), BatchType::Logged);
    assert!(d.statements.is_empty());
}

#[test]
fn batch_keeps_statements_in_order() {
    let first = BatchStatement::from(String::from("INSERT 1"));
    let mut b = Batch::new_with_statements(BatchType::Unlogged, vec![first]);
    assert_eq!(b.get_type(), BatchType::Unlogged);
    b.append_statement(BatchStatement::from(Query::new(String::from("INSERT 2")).with_page_size(3)));
    b.append_statement(BatchStatement::from(PreparedStatement {
        id: vec![1, 2, 3],
        statement: String::from("INSERT 3"),
    }));
    assert_eq!(b.statements.len(), 3);
    match &b.statements[0] {
        BatchStatement::Query(q) => assert_eq!(q.contents, "INSERT 1"),
        BatchStatement::PreparedStatement(_) => panic!("a query was added first"),
    }
    match &b.statements[1] {
        BatchStatement::Query(q) => {
            assert_eq!(q.contents, "INSERT 2");
            assert_eq!(q.get_page_size(), Some(3));
        }
        BatchStatement::PreparedStatement(_) => panic!("a query was added second"),
    }
    match &b.statements[2] {
        BatchStatement::PreparedStatement(p) => {
            assert_eq!(p.id, vec![1, 2, 3]);
            assert_eq!(p.statement, "INSERT 3");
        }
        BatchStatement::Query(_) => panic!("a prepared statement was added third"),
    }
}

#[test]
fn batch_settings_round_trip() {
    let mut b = Batch::new(BatchType::Logged);
    b.set_consistency(Consistency::Quorum);
    b.set_serial_consistency(Some(SerialConsistency::Serial));
    b.set_is_idempotent(true);
    b.set_tracing(true);
    b.set_timestamp(Some(1_700_000_000_000_000));
    b.set_retry_policy(Box::new(NeverRetry));
    assert_eq!(b.get_consistency(), Some(Consistency::Quorum));
    assert_eq!(b.get_serial_consistency(), Some(SerialConsistency::Serial));
    assert!(b.get_is_idempotent());
    assert!(b.get_tracing());
    assert_eq!(b.get_timestamp(), Some(1_700_000_000_000_000));
    assert!(b.get_retry_policy().is_some());
    assert_eq!(b.get_type(), BatchType::Logged);
    assert!(b.statements.is_empty());
    b.set_is_idempotent(false);
    b.set_tracing(false);
    assert!(!b.get_is_idempotent());
    assert!(!b.get_tracing());
}

#[test]
fn batch_history_listener_is_taken_once() {
    let mut b = Batch::new(BatchType::Logged);
    let listener: Arc<dyn HistoryListener> = Arc::new(Quiet);
    b.set_history_listener(listener.clone());
    assert!(Arc::ptr_eq(&b.remove_history_listener().unwrap(), &listener));
    assert!(b.remove_history_listener().is_none());
}
