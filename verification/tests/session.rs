//! Session lifecycle tests: guarded transitions and the recovery rule for
//! a failed close.

use rcamera::error::Error;
use rcamera::session::{CameraStatus, SessionState};

#[test]
fn fresh_machine_is_disconnected() {
    let s = SessionState::new();
    assert_eq!(s.status(), CameraStatus::Disconnected);
    assert!(!s.is_connected());
    assert!(!s.has_session());
}

#[test]
fn connect_then_open_then_close() {
    let mut s = SessionState::new();
    s.begin_connect();
    s.connect_succeeded();
    assert_eq!(s.status(), CameraStatus::Connected);
    assert!(s.is_connected());
    assert!(!s.has_session());

    assert!(s.request_open_session().is_ok());
    s.open_session_result(true);
    assert_eq!(s.status(), CameraStatus::SessionOpen);
    assert!(s.has_session());

    assert!(s.request_close_session().is_ok());
    s.close_session_result(true);
    assert_eq!(s.status(), CameraStatus::Connected);
}

#[test]
fn open_session_rejected_outside_connected() {
    let s = SessionState::new();
    let e = s.request_open_session().expect_err("must be rejected");
    assert!(matches!(e, Error::USB(_)));

    let mut s2 = SessionState::new();
    s2.connect_succeeded();
    assert!(s2.request_open_session().is_ok());
    s2.open_session_result(true);
    // a second open while the session is up is rejected too
    let e2 = s2.request_open_session().expect_err("must be rejected");
    assert!(matches!(e2, Error::USB(_)));
}

#[test]
fn close_session_rejected_without_session() {
    let mut s = SessionState::new();
    s.connect_succeeded();
    let e = s.request_close_session().expect_err("must be rejected");
    assert!(matches!(e, Error::USB(_)));
}

#[test]
fn failed_close_still_downgrades_to_connected() {
    // the close failed on the wire, but the machine downgrades anyway so
    // that opening a session can be retried
    let mut s = SessionState::new();
    s.connect_succeeded();
    assert!(s.request_open_session().is_ok());
    s.open_session_result(true);
    s.close_session_result(false);
    assert_eq!(s.status(), CameraStatus::Connected);
    assert!(s.request_open_session().is_ok());
}

#[test]
fn connect_failure_outcomes() {
    let mut s = SessionState::new();
    s.begin_connect();
    s.connect_failed(false); // no device found
    assert_eq!(s.status(), CameraStatus::Disconnected);

    s.begin_connect();
    s.connect_failed(true); // found, but could not be opened
    assert_eq!(s.status(), CameraStatus::Error);
}

#[test]
fn failed_open_is_unrecoverable() {
    let mut s = SessionState::new();
    s.connect_succeeded();
    assert!(s.request_open_session().is_ok());
    s.open_session_result(false);
    assert_eq!(s.status(), CameraStatus::Error);
}

#[test]
fn disconnect_reaches_disconnected_from_anywhere() {
    let mut s = SessionState::new();
    s.connect_succeeded();
    s.disconnected();
    assert_eq!(s.status(), CameraStatus::Disconnected);

    let mut s2 = SessionState::new();
    s2.fatal_error();
    assert_eq!(s2.status(), CameraStatus::Error);
    s2.disconnected();
    assert_eq!(s2.status(), CameraStatus::Disconnected);
}
