use std::io;

use tricoredb::error::IoFailure;
use tricoredb::{Error, ErrorKind, NOT_LEADER};

fn failure_of(e: &io::Error) -> IoFailure {
    match e.kind() {
        io::ErrorKind::TimedOut => IoFailure::TimedOut,
        io::ErrorKind::WouldBlock => IoFailure::WouldBlock,
        io::ErrorKind::UnexpectedEof => IoFailure::UnexpectedEof,
        _ => IoFailure::Other,
    }
}

fn from_io(e: io::Error) -> Error {
    Error::from_io(failure_of(&e), &e.to_string())
}

#[test]
fn a_not_leader_code_is_a_redirect_with_or_without_a_hint() {
    let mut e = Error::new(ErrorKind::Server, "x").with_code(NOT_LEADER);
    assert!(e.is_redirect());
    assert_eq!(e.leader_hint(), None);
    e.leader_hint = Some("10.0.0.2:8427".into());
    assert!(e.is_redirect());
    assert_eq!(e.leader_hint(), Some("10.0.0.2:8427"));
    assert!(e.describe().contains("leader at 10.0.0.2:8427"));
}

#[test]
fn other_codes_are_not_redirects() {
    assert!(!Error::new(ErrorKind::Server, "x")
        .with_code("request.invalid")
        .is_redirect());
    assert!(!Error::new(ErrorKind::Io, "x").is_redirect());
}

#[test]
fn a_server_refusal_keeps_the_connection_usable() {
    assert!(!Error::new(ErrorKind::Server, "bad sql").is_connection_fatal());
    assert!(!Error::new(ErrorKind::FeatureNotGranted, "x").is_connection_fatal());
    assert!(Error::new(ErrorKind::Timeout, "x").is_connection_fatal());
    assert!(Error::new(ErrorKind::Refused, "x").is_connection_fatal());
}

#[test]
fn io_timeouts_map_to_timeout() {
    let e = from_io(io::Error::new(io::ErrorKind::TimedOut, "t"));
    assert_eq!(e.kind, ErrorKind::Timeout);
    let e = from_io(io::Error::new(io::ErrorKind::WouldBlock, "t"));
    assert_eq!(e.kind, ErrorKind::Timeout);
    let e = from_io(io::Error::new(io::ErrorKind::ConnectionReset, "r"));
    assert_eq!(e.kind, ErrorKind::Io);
}

#[test]
fn a_missing_feature_is_named_and_carries_a_code() {
    let e = Error::feature_refusal("begin() needs SESSION_TXN");
    assert_eq!(e.kind, ErrorKind::FeatureNotGranted);
    assert_eq!(e.code(), Some("feature_not_granted"));
    assert!(e.was_refused_locally());
    assert!(!Error::new(ErrorKind::Server, "x").was_refused_locally());
}

#[test]
fn io_failures_have_their_exact_messages() {
    let e = Error::from_io(IoFailure::TimedOut, "took too long");
    assert_eq!(e.message(), "no reply within the read deadline: took too long");
    let e = Error::from_io(IoFailure::UnexpectedEof, "ignored");
    assert_eq!(e.kind(), ErrorKind::Io);
    assert_eq!(e.message(), "the server closed the connection mid-frame");
    let e = Error::from_io(IoFailure::Other, "connection reset");
    assert_eq!(e.message(), "connection reset");
}

#[test]
fn an_error_reads_as_one_line() {
    let e = Error::new(ErrorKind::Io, "gone");
    assert_eq!(e.describe(), "Io: gone");
    let mut e = Error::new(ErrorKind::Server, "no").with_code("not_leader");
    assert_eq!(e.describe(), "Server [not_leader]: no");
    e.leader_hint = Some("h:1".to_string());
    assert_eq!(e.describe(), "Server [not_leader]: no (leader at h:1)");
}

#[test]
fn which_kinds_are_fatal_to_a_connection() {
    for kind in [
        ErrorKind::Io,
        ErrorKind::Timeout,
        ErrorKind::Protocol,
        ErrorKind::Refused,
        ErrorKind::Closed,
        ErrorKind::Tls,
        ErrorKind::Handshake,
    ] {
        assert!(Error::new(kind, "x").is_connection_fatal());
    }
    for kind in [
        ErrorKind::Auth,
        ErrorKind::Server,
        ErrorKind::FeatureNotGranted,
        ErrorKind::InvalidArgument,
        ErrorKind::Pool,
        ErrorKind::TransactionLeftOpen,
    ] {
        assert!(!Error::new(kind, "x").is_connection_fatal());
    }
}

#[test]
fn errors_compare_by_all_they_hold() {
    let a = Error::new(ErrorKind::Io, "x");
    assert_eq!(a.clone(), a);
    assert_ne!(a, Error::new(ErrorKind::Io, "y"));
    assert_ne!(a, Error::new(ErrorKind::Io, "x").with_code("c"));
    assert_eq!(a.clone().with_code_opt(None), a);
}
