//! How the client reads the protocol, played against scripted peers: the bytes
//! a peer would send are handed to the client as they would be read.

use tricoredb::client::{Opening, Stage};
use tricoredb::error::IoFailure;
use tricoredb::frame::{read_frame, ByteReader};
use tricoredb::{codec, Client, Duration, Error, ErrorKind, Frame, Json, Options, Param, Result, Tag};

const TAG_REQUEST: u8 = 2;
const TAG_RESPONSE: u8 = 3;
const TAG_ERROR: u8 = 6;
const TAG_HELLO_OK: u8 = 8;
const TAG_AUTH_OK: u8 = 9;

/// What the client reads when the peer sends these bytes and then hangs up.
fn received(bytes: Vec<u8>) -> Result<Frame> {
    read_frame(&mut ByteReader::new(bytes))
}

fn answer(tag: u8, body: &str) -> Result<Frame> {
    let mut frame = vec![1u8, tag];
    frame.extend_from_slice(&(body.len() as u32).to_be_bytes());
    frame.extend_from_slice(body.as_bytes());
    received(frame)
}

fn options() -> Options {
    Options::new("127.0.0.1", 8427)
        .user("admin")
        .secret("pw")
        .connect_timeout(Duration::from_secs(5))
}

/// A client that begins a session with a peer that answers so.
fn connect(options: &Options, hello: &str, auth: &str) -> Result<Client> {
    let (mut db, bytes) = Client::connect(options, "a1");
    let mut next = Opening::Exchange(Stage::Hello, bytes?);
    while let Opening::Exchange(stage, _) = next {
        let reply = match stage {
            Stage::Hello => answer(TAG_HELLO_OK, hello),
            Stage::Auth => answer(TAG_AUTH_OK, auth),
        };
        next = db.advance(options, stage, reply)?;
    }
    Ok(db)
}

/// Complete the handshake as a healthy server would, granting every capability.
fn healthy() -> Client {
    connect(
        &options(),
        r#"{"ok":true,"server_version":{"major":1,"minor":0},"message":"ok","features":7}"#,
        r#"{"ok":true,"session_id":"s-1"}"#,
    )
    .expect("connect")
}

#[test]
fn a_not_leader_refusal_is_typed_and_carries_the_leader_address() {
    let mut db = healthy();
    db.execute_params("INSERT INTO t VALUES (?)", &[Param::from(1)])
        .unwrap();
    let error = db
        .reply(answer(
            TAG_RESPONSE,
            r#"{"request_id":"r1","status":"error","data":{"Message":"not the raft leader — send writes to `n2`"},"diagnostics":{"error_code":"not_leader","leader_hint":"10.9.9.7:8427"}}"#,
        ))
        .expect_err("a follower refuses the write");

    assert_eq!(error.kind, ErrorKind::Server);
    assert_eq!(error.code(), Some("not_leader"));
    assert!(
        error.is_redirect(),
        "the code, not the message, decides this"
    );
    assert_eq!(error.leader_hint(), Some("10.9.9.7:8427"));
    assert!(!error.is_connection_fatal(), "the connection still works");
    assert!(error.describe().contains("10.9.9.7:8427"));
    assert!(!db.is_poisoned());
}

#[test]
fn a_mid_election_refusal_has_a_code_but_no_address() {
    let mut db = healthy();
    db.execute("INSERT INTO t VALUES (1)").unwrap();
    let error = db
        .reply(answer(
            TAG_RESPONSE,
            r#"{"request_id":"r1","status":"error","data":{"Message":"not the raft leader"},"diagnostics":{"error_code":"not_leader"}}"#,
        ))
        .expect_err("refused");
    assert!(error.is_redirect());
    assert_eq!(
        error.leader_hint(),
        None,
        "an absent hint means the destination is unknown, not that there was no redirect"
    );
}

#[test]
fn an_ordinary_failure_is_not_read_as_a_redirect() {
    let mut db = healthy();
    db.execute("NOT SQL").unwrap();
    let error = db
        .reply(answer(
            TAG_RESPONSE,
            r#"{"request_id":"r1","status":"error","data":{"Message":"syntax error"},"diagnostics":{"error_code":"request.invalid"}}"#,
        ))
        .expect_err("refused");
    assert!(!error.is_redirect());
    assert_eq!(error.code(), Some("request.invalid"));
    assert_eq!(error.message(), "syntax error");
}

#[test]
fn a_handshake_refusal_is_reported_as_one() {
    let error = connect(
        &options(),
        r#"{"ok":false,"message":"unsupported protocol version","code":"handshake.version"}"#,
        "",
    )
    .expect_err("the handshake was refused");
    assert_eq!(error.kind, ErrorKind::Handshake);
    assert!(error.message().contains("unsupported protocol"));
}

#[test]
fn an_auth_ok_frame_carrying_ok_false_is_still_a_refusal() {
    let error = connect(
        &options(),
        r#"{"ok":true,"message":"ok","features":7}"#,
        // The tag says AUTH_OK; the body says no. The body is the verdict.
        r#"{"ok":false,"message":"bad password"}"#,
    )
    .expect_err("authentication was refused");
    assert_eq!(error.kind, ErrorKind::Auth);
    assert_eq!(error.message(), "bad password");
}

#[test]
fn a_connection_level_error_frame_is_refused_with_its_code() {
    let mut db = healthy();
    db.execute("SELECT 1").unwrap();
    let error = db
        .reply(answer(
            TAG_ERROR,
            r#"{"message":"frame too large","code":"frame_too_large"}"#,
        ))
        .expect_err("the server refused the frame");
    assert_eq!(error.kind, ErrorKind::Refused);
    assert_eq!(error.code(), Some("frame_too_large"));
    assert!(error.is_connection_fatal());
    assert!(db.is_poisoned());
}

#[test]
fn a_declared_payload_above_the_ceiling_is_refused_before_it_is_read() {
    let mut db = healthy();
    db.ping().unwrap();
    // A control frame claiming 64 KiB + 1 bytes, with none of them sent.
    let mut header = vec![1u8, TAG_AUTH_OK];
    header.extend_from_slice(&((64 * 1024u32) + 1).to_be_bytes());
    let error = db
        .ping_reply(received(header))
        .expect_err("the frame is refused");
    assert_eq!(error.kind, ErrorKind::Protocol);
    assert!(error.message().contains("limit"));
    assert!(db.is_poisoned(), "the stream can no longer be trusted");
}

#[test]
fn a_frame_version_this_client_cannot_read_is_refused() {
    let mut db = healthy();
    db.ping().unwrap();
    let error = db
        .ping_reply(received(vec![2u8, TAG_RESPONSE, 0, 0, 0, 0]))
        .expect_err("a newer frame layout is refused");
    assert_eq!(error.kind, ErrorKind::Protocol);
    assert!(error.message().contains("version 2"));
}

#[test]
fn a_peer_that_hangs_up_mid_frame_poisons_the_connection() {
    let mut db = healthy();
    db.execute("SELECT 1").unwrap();
    // Six bytes of header promising ten bytes of body, then nothing.
    let error = db
        .reply(received(vec![1u8, TAG_RESPONSE, 0, 0, 0, 10, b'{']))
        .expect_err("the peer went away");
    assert!(matches!(error.kind, ErrorKind::Io | ErrorKind::Protocol));
    assert!(db.is_poisoned());

    // Every later call fails the same way rather than reading stale bytes.
    let again = db.ping().expect_err("a poisoned connection stays refused");
    assert_eq!(again.kind, ErrorKind::Closed);
}

#[test]
fn a_reply_that_never_arrives_ends_at_the_read_timeout() {
    let mut db = healthy();
    let bound = db.set_read_timeout(Some(Duration::from_millis(150)));
    assert_eq!(bound, Some(Duration::from_millis(150)));
    db.execute("SELECT 1").unwrap();
    let error = db
        .reply(Err(Error::from_io(IoFailure::WouldBlock, "no data")))
        .expect_err("no reply came");
    assert_eq!(error.kind, ErrorKind::Timeout);
    assert!(
        db.is_poisoned(),
        "the reply may still arrive, so the socket cannot be reused"
    );
}

#[test]
fn a_status_this_client_does_not_know_is_treated_as_a_failure() {
    let mut db = healthy();
    let op: Json = codec::parse(br#"{"Cache": {"XGroup": {}}}"#).unwrap();
    db.request(op).unwrap();
    let error = db
        .reply(answer(
            TAG_RESPONSE,
            r#"{"request_id":"r1","status":"not_implemented","data":{"Message":"Cache::XGroup is refused in V1"}}"#,
        ))
        .expect_err("anything but ok is a failure");
    assert_eq!(error.kind, ErrorKind::Server);
    assert!(error.message().contains("XGroup"));
}

#[test]
fn warnings_reach_the_caller_on_a_successful_response() {
    let mut db = healthy();
    db.execute("CREATE TABLE t (id INT)").unwrap();
    let response = db
        .reply(answer(
            TAG_RESPONSE,
            r#"{"request_id":"r1","status":"ok","data":{"Message":"done"},"diagnostics":{"route":"local","elapsed_ms":4,"warnings":["shard 2 was unreachable"]}}"#,
        ))
        .expect("ok");
    assert_eq!(response.status, "ok");
    assert_eq!(response.warnings, vec!["shard 2 was unreachable"]);
    assert_eq!(response.route.as_deref(), Some("local"));
    assert_eq!(response.elapsed_ms, Some(4));
}

#[test]
fn a_server_that_never_negotiated_capabilities_grants_none() {
    // An older server omits the features field entirely.
    let mut db = connect(
        &options(),
        r#"{"ok":true,"message":"ok"}"#,
        r#"{"ok":true,"session_id":"s-1"}"#,
    )
    .expect("connect");
    assert_eq!(db.granted_features(), 0);
    assert!(!db.server_params_granted());
    assert!(!db.session_txn_granted());

    let error = db
        .query_params("SELECT * FROM t WHERE id = ?", &[Param::from(1)])
        .expect_err("binding needs the capability");
    assert_eq!(error.kind, ErrorKind::FeatureNotGranted);
    assert!(!db.is_poisoned(), "nothing was sent");
}

#[test]
fn the_request_envelope_carries_the_database_and_a_unique_id() {
    let mut options = options();
    options.database = "reporting".to_string();
    let mut db = connect(
        &options,
        r#"{"ok":true,"server_version":{"major":1,"minor":0},"message":"ok","features":7}"#,
        r#"{"ok":true,"session_id":"s-1"}"#,
    )
    .expect("connect");
    db.set_request_timeout(Some(Duration::from_millis(2500)));
    let bytes = db.query("SELECT 1").expect("query");
    assert_eq!(bytes[1], TAG_REQUEST);
    let frame = received(bytes).unwrap();
    assert_eq!(frame.tag, Tag::Request);
    let envelope = codec::parse(&frame.payload).expect("json");
    assert_eq!(envelope.get("database").unwrap().as_str(), Some("reporting"));
    assert!(envelope.get("request_id").unwrap().as_str().unwrap().starts_with("rs-"));
    let sql = envelope.get("op").unwrap().get("Sql").unwrap().get("Query").unwrap();
    assert_eq!(sql.get("sql").unwrap().as_str(), Some("SELECT 1"));
    assert_eq!(
        envelope.get("options").unwrap().get("timeout_ms").unwrap().as_u64(),
        Some(2500)
    );
    assert_eq!(db.database(), "reporting");
    assert_eq!(db.session_id(), Some("s-1"));

    let rows = db
        .query_reply(answer(
            TAG_RESPONSE,
            r#"{"request_id":"r1","status":"ok","data":{"Rows":{"columns":["n"],"rows":[["1"]]}}}"#,
        ))
        .expect("rows");
    assert_eq!(rows.rows[0][0], "1");
}
