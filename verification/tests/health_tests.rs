use mssql_tiberius_bridge::config::Config;
use mssql_tiberius_bridge::error::Error;
use mssql_tiberius_bridge::health::{
    ensure_resettable, ensure_usable, health_after_reset, health_on_drop, OperationGuard, SessionReset,
};
use mssql_tiberius_bridge::prepared::PreparedStatement;
use mssql_tiberius_bridge::pool::{pending_results_message, RecycleAction, RecyclingMethod, TdsManager};

#[test]
fn dead_connection_is_rejected_without_rearming() {
    match OperationGuard::begin(true) {
        Err(Error::Tds(mssql_tds::error::Error::ConnectionClosed(m))) => {
            assert_eq!(m, "Connection is known dead; discard this Client and reconnect")
        }
        other => panic!("unexpected {other:?}"),
    }
    assert!(ensure_usable(true).is_err());
    assert!(ensure_usable(false).is_ok());
}

#[test]
fn completed_success_and_error_do_not_mark_dead() {
    let mut guard = OperationGuard::begin(false).expect("connection is healthy");
    assert!(guard.marks_dead_on_drop());
    guard.complete();
    assert!(!guard.marks_dead_on_drop());
    assert!(!health_on_drop(&guard, false));
}

#[test]
fn completion_does_not_revive_native_dead_state() {
    let mut guard = OperationGuard::begin(false).expect("connection is healthy");
    // the driver marks the connection dead during the operation
    guard.complete();
    assert!(health_on_drop(&guard, true));
}

#[test]
fn dropping_pending_operation_marks_dead() {
    let guard = OperationGuard::begin(false).expect("connection is healthy");
    assert!(health_on_drop(&guard, false));
}

#[test]
fn reset_of_dead_connection_is_refused() {
    match ensure_resettable(true) {
        Err(Error::Tds(mssql_tds::error::Error::ConnectionClosed(m))) => {
            assert_eq!(m, "cannot reset a connection that is known dead")
        }
        other => panic!("unexpected {other:?}"),
    }
    assert!(ensure_resettable(false).is_ok());
}

#[test]
fn recycling_rejects_dead_connections_first() {
    let reset = TdsManager::new(Config::new());
    for pending in [false, true] {
        assert_eq!(reset.recycle_action(true, pending), RecycleAction::Reject);
        assert_eq!(reset.recycle_action(false, pending), RecycleAction::Reset);
    }
    let ping = TdsManager::new(Config::new()).with_recycling_method(RecyclingMethod::Ping);
    assert_eq!(ping.recycle_action(true, false), RecycleAction::Reject);
    assert_eq!(ping.recycle_action(true, true), RecycleAction::Reject);
    assert_eq!(ping.recycle_action(false, false), RecycleAction::Ping);
}

#[test]
fn ping_recycling_rejects_pending_rows_and_trailing_results_without_io() {
    let manager = TdsManager::new(Config::new()).with_recycling_method(RecyclingMethod::Ping);
    // A started query, before and at a row boundary: refused each time.
    for _boundary in [false, true] {
        for _ in 0..2 {
            assert_eq!(manager.recycle_action(false, true), RecycleAction::RejectPending);
        }
    }
    assert_eq!(
        pending_results_message(),
        "connection has pending results; drain them with close_query before returning it to the pool"
    );
    // After the results are drained: recycled, repeatedly.
    for _ in 0..2 {
        assert_eq!(manager.recycle_action(false, false), RecycleAction::Ping);
    }
}

#[test]
fn session_reset_of_a_dead_connection_is_refused() {
    match SessionReset::begin(true, 7) {
        Err(Error::Tds(mssql_tds::error::Error::ConnectionClosed(m))) => {
            assert_eq!(m, "cannot reset a connection that is known dead")
        }
        other => panic!("unexpected {other:?}"),
    }
}

#[test]
fn failed_or_dropped_reset_retires_the_connection() {
    let reset = SessionReset::begin(false, 7).unwrap();
    assert_eq!(reset.session(), 7);
    assert!(health_after_reset(&reset, false));
    let mut done = SessionReset::begin(false, 8).unwrap();
    done.complete();
    assert!(!health_after_reset(&done, false));
    assert!(health_after_reset(&done, true));
}

#[test]
fn statements_of_an_earlier_session_are_refused_after_a_reset() {
    let stmt = PreparedStatement::for_session(3, "SELECT 1".to_string(), 6);
    assert!(stmt.validate_session(6).is_ok());
    let mut reset = SessionReset::begin(false, 7).unwrap();
    reset.complete();
    assert!(matches!(stmt.validate_session(reset.session()), Err(Error::InvalidPreparedStatement)));
}
