use tricoredb::transport::{cannot_resolve, Dial};
use tricoredb::{Duration, ErrorKind};

#[test]
fn addresses_are_tried_in_order_until_the_last() {
    let timeout = Some(Duration::from_secs(5));
    let dial = Dial::begin("db", 8427, timeout, 2).unwrap();
    assert_eq!(dial.attempt(), (0, timeout));
    let dial = dial.failed("refused").unwrap();
    assert_eq!(dial.attempt(), (1, timeout));
    let err = dial.failed("timed out").unwrap_err();
    assert_eq!(err.kind, ErrorKind::Io);
    assert_eq!(err.message, "cannot connect to db:8427: timed out");
}

#[test]
fn a_timeout_without_length_bounds_nothing() {
    let dial = Dial::begin("db", 1, Some(Duration::from_millis(0)), 1).unwrap();
    assert_eq!(dial.attempt(), (0, None));
    let dial = Dial::begin("db", 1, None, 1).unwrap();
    assert_eq!(dial.attempt(), (0, None));
}

#[test]
fn a_host_without_addresses_is_refused() {
    let err = Dial::begin("db", 1, None, 0).unwrap_err();
    assert_eq!(err.message, "db:1 resolved to no addresses");
    assert_eq!(err.kind, ErrorKind::Io);
    assert_eq!(
        cannot_resolve("db", 65535, "no such host").message,
        "cannot resolve db:65535: no such host"
    );
}
