use tricoredb::client::{
    close_outcome, connection_prefix, error_code, error_text, error_text_of, Farewell, Opening,
    Shutdown, Stage,
};
use tricoredb::error::IoFailure;
use tricoredb::frame::{read_frame, ByteReader};
use tricoredb::sql::{rows_of, transaction_outcome, Control, Ending};
use tricoredb::{
    codec, CachePair, Client, DocumentFilter, DocumentUpdate, Duration, Error, ErrorKind, Float,
    Frame, GraphDirection, Json, LlmSource, NeighborOptions, Number, Object, Options, OutputFormat,
    Param, Result, Statement, Tag, VectorMetric,
};

fn json(text: &str) -> Json {
    codec::parse(text.as_bytes()).unwrap()
}

fn frame(tag: Tag, body: &str) -> Result<Frame> {
    Ok(Frame {
        tag,
        payload: body.as_bytes().to_vec(),
    })
}

fn response(body: &str) -> Result<Frame> {
    frame(Tag::Response, body)
}

/// A session whose server granted these capabilities.
fn session(features: u64) -> Client {
    let (mut c, hello) = Client::connect(&Options::default(), "px");
    assert!(hello.is_ok());
    c.hello_reply(frame(
        Tag::HelloOk,
        &format!(r#"{{"ok":true,"features":{features}}}"#),
    ))
    .unwrap();
    c
}

/// The tag and the payload of a frame that is to be written.
fn sent(bytes: Result<Vec<u8>>) -> (Tag, Json) {
    let f = read_frame(&mut ByteReader::new(bytes.unwrap())).unwrap();
    let body = if f.payload.is_empty() {
        Json::Null
    } else {
        codec::parse(&f.payload).unwrap()
    };
    (f.tag, body)
}

fn op(bytes: Result<Vec<u8>>) -> Json {
    let (tag, body) = sent(bytes);
    assert_eq!(tag, Tag::Request);
    body.get("op").unwrap().clone()
}

#[test]
fn a_connection_prefix_is_unique_per_connection() {
    let a = connection_prefix(4321, 1_700_000_000_000_000_000, 0);
    assert_ne!(a, connection_prefix(4322, 1_700_000_000_000_000_000, 0));
    let b = connection_prefix(4321, 1_700_000_000_000_000_000, 1);
    assert_ne!(a, b);
    assert_eq!(connection_prefix(255, 4096, 17), "ff100011");
}

#[test]
fn error_frames_are_read_for_message_and_code() {
    assert_eq!(error_text(br#"{"message":"nope"}"#), "nope");
    assert_eq!(error_text(br#"{"error":"nope"}"#), "nope");
    assert_eq!(
        error_code(br#"{"message":"x","code":"frame_too_large"}"#),
        Some("frame_too_large".to_string())
    );
    assert_eq!(error_code(br#"{"message":"x"}"#), None);
    assert!(!error_text(b"").is_empty());
}

#[test]
fn error_frames_without_a_message_are_quoted() {
    assert_eq!(error_text(br#"{"message":"","error":7}"#), r#"{"error":7,"message":""}"#);
    assert_eq!(error_text(b"plain \xff text"), "plain \u{fffd} text");
    assert_eq!(error_text(b"plain text"), "plain text");
    assert_eq!(error_code(br#"{"code":""}"#), None);
    assert_eq!(error_code(b"x"), None);
    assert_eq!(
        error_text(b""),
        "the server refused the connection without saying why"
    );
    assert_eq!(
        error_text_of(b"x", &Ok(json(r#"{"message": "m"}"#))),
        "m"
    );
}

#[test]
fn the_handshake_names_the_protocol_and_the_client() {
    let options = Options::default().client_name("me").features(5);
    let (c, hello) = Client::connect(&options, "px");
    let (tag, body) = sent(hello);
    assert_eq!(tag, Tag::Hello);
    assert_eq!(
        body,
        json(r#"{"protocol": "tricore", "version": {"major": 1, "minor": 0}, "client": "me", "features": 5}"#)
    );
    assert!(c.login(&options).is_none());
    assert_eq!(c.session_id(), None);
    let (tag, body) = sent(c.login(&options.user("u").secret("pé")).unwrap());
    assert_eq!(tag, Tag::Auth);
    assert_eq!(body, json(r#"{"username": "u", "secret": [112, 195, 169]}"#));
    let (_, body) = sent(c.login(&Options::default().user("u")).unwrap());
    assert_eq!(body, json(r#"{"username": "u", "secret": []}"#));
}

#[test]
fn the_handshake_is_answered_in_every_way() {
    let fresh = || Client::connect(&Options::default(), "px").0;
    let mut c = fresh();
    let e = c.hello_reply(frame(Tag::HelloOk, r#"{"ok":false}"#)).unwrap_err();
    assert_eq!((e.kind, e.message()), (ErrorKind::Handshake, "the server refused the handshake"));
    let mut c = fresh();
    let e = c
        .hello_reply(frame(Tag::Error, r#"{"message":"no","code":"c"}"#))
        .unwrap_err();
    assert_eq!((e.kind, e.message(), e.code()), (ErrorKind::Handshake, "no", Some("c")));
    let mut c = fresh();
    let e = c.hello_reply(frame(Tag::Pong, "")).unwrap_err();
    assert_eq!((e.kind, e.message()), (ErrorKind::Protocol, "expected HELLO_OK, got Pong"));
    assert!(c.is_poisoned());
    let mut c = fresh();
    let e = c.auth_reply(frame(Tag::AuthOk, r#"{"ok":false,"message":""}"#)).unwrap_err();
    assert_eq!((e.kind, e.message()), (ErrorKind::Auth, "authentication refused"));
    assert!(!c.is_poisoned());
    let e = c.auth_reply(frame(Tag::Error, "no")).unwrap_err();
    assert_eq!((e.kind, e.message(), e.code()), (ErrorKind::Auth, "no", None));
    c.auth_reply(frame(Tag::AuthOk, r#"{"ok":true,"session_id":"s"}"#)).unwrap();
    assert_eq!(c.session_id(), Some("s"));
    let e = c.auth_reply(frame(Tag::HelloOk, "{}")).unwrap_err();
    assert_eq!(e.message(), "expected AUTH_OK, got HelloOk");
}

#[test]
fn a_session_opens_in_stages() {
    let options = Options::default().read_timeout(Duration::from_secs(9));
    let (mut c, _) = Client::connect(&options, "px");
    let hello = || frame(Tag::HelloOk, r#"{"ok":true,"features":2}"#);
    let next = c.advance(&options, Stage::Hello, hello()).unwrap();
    assert!(matches!(next, Opening::Open(Some(d)) if d == Duration::from_secs(9)));
    assert_eq!((c.granted_features(), c.read_timeout()), (2, Some(Duration::from_secs(9))));

    let options = options.user("u").secret("s");
    let (mut c, _) = Client::connect(&options, "px");
    let next = c.advance(&options, Stage::Hello, hello()).unwrap();
    let Opening::Exchange(Stage::Auth, bytes) = next else {
        panic!("a login was expected");
    };
    assert_eq!(
        sent(Ok(bytes)),
        (Tag::Auth, json(r#"{"username": "u", "secret": [115]}"#))
    );
    assert_eq!((c.session_id(), c.read_timeout()), (None, None));
    let reply = frame(Tag::AuthOk, r#"{"ok":true,"session_id":"s-9"}"#);
    let next = c.advance(&options, Stage::Auth, reply).unwrap();
    assert!(matches!(next, Opening::Open(Some(_))));
    assert_eq!(c.session_id(), Some("s-9"));
    let refused = frame(Tag::AuthOk, r#"{"ok":false}"#);
    assert_eq!(
        c.advance(&options, Stage::Auth, refused).unwrap_err().kind,
        ErrorKind::Auth
    );
}

#[test]
fn requests_count_their_ids() {
    let mut c = session(7);
    assert_eq!(c.last_request_id(), None);
    let (_, body) = sent(c.request(json(r#"{"Cache": "Ping"}"#)));
    assert_eq!(
        body,
        json(r#"{"request_id": "rs-px-1", "database": "main", "op": {"Cache": "Ping"}}"#)
    );
    assert_eq!(c.last_request_id(), Some("rs-px-1"));
    c.set_request_timeout(Some(Duration::from_millis(2500)));
    let (_, body) = sent(c.execute("X"));
    assert_eq!(body.get("options"), Some(&json(r#"{"timeout_ms": 2500}"#)));
    assert_eq!(body.get("request_id").unwrap().as_str(), Some("rs-px-2"));
    c.set_request_timeout(Some(Duration::from_millis(0)));
    let (_, body) = sent(c.execute("X"));
    assert_eq!(body.get("options"), None);
    c.set_request_timeout(Some(Duration::from_secs(u64::MAX)));
    let (_, body) = sent(c.execute("X"));
    assert_eq!(
        body.get("options").unwrap().get("timeout_ms").unwrap().as_u64(),
        Some(u64::MAX)
    );
    assert!(c.ids_left());
}

#[test]
fn a_fatal_reply_drops_the_session() {
    for (reply, kind) in [
        (frame(Tag::Error, r#"{"message":"m"}"#), ErrorKind::Refused),
        (frame(Tag::Pong, ""), ErrorKind::Protocol),
        (response("{"), ErrorKind::Protocol),
        (Err(Error::from_io(IoFailure::WouldBlock, "late")), ErrorKind::Timeout),
        (Err(Error::from_io(IoFailure::Other, "reset")), ErrorKind::Io),
    ] {
        let mut c = session(7);
        c.execute("X").unwrap();
        let first = c.reply(reply).unwrap_err();
        assert_eq!(first.kind, kind);
        assert!(c.is_poisoned());
        let again = c.execute("X").unwrap_err();
        assert_eq!(again.kind, ErrorKind::Closed);
        assert_eq!(
            again.message(),
            format!(
                "this connection was dropped after an earlier failure and cannot be reused: {}",
                first.message()
            )
        );
        assert_eq!(c.ping().unwrap_err().kind, ErrorKind::Closed);
        assert!(!c.in_transaction());
    }
}

#[test]
fn a_frame_too_large_to_send_leaves_the_session_usable() {
    let mut c = session(7);
    let id = "x".repeat(70_000);
    let e = c.cancel(&id).unwrap_err();
    assert_eq!(e.kind, ErrorKind::Protocol);
    assert!(!c.is_poisoned());
    assert!(c.ping().is_ok());
}

#[test]
fn ping_and_cancel_have_their_answers() {
    let mut c = session(7);
    assert_eq!(sent(c.ping()), (Tag::Ping, Json::Null));
    c.ping_reply(frame(Tag::Pong, "")).unwrap();
    let e = c.cancel("").unwrap_err();
    assert_eq!(e.kind, ErrorKind::InvalidArgument);
    assert_eq!(
        sent(c.cancel("rs-a-1")),
        (Tag::Cancel, json(r#"{"request_id": "rs-a-1"}"#))
    );
    assert_eq!(c.cancel_reply(frame(Tag::CancelOk, r#"{"cancelled":2}"#)).unwrap(), 2);
    assert_eq!(c.cancel_reply(frame(Tag::CancelOk, "{}")).unwrap(), 0);
    let e = c.cancel_reply(frame(Tag::CancelOk, r#"{"cancelled":-1}"#)).unwrap_err();
    assert_eq!(e.kind, ErrorKind::Protocol);
    assert!(c.is_poisoned());
}

#[test]
fn an_error_frame_is_a_refusal_with_its_code() {
    let body = r#"{"message":"frame too large","code":"frame_too_large"}"#;
    let refusals: [fn(&mut Client, Result<Frame>) -> Error; 3] = [
        |c, r| c.ping_reply(r).unwrap_err(),
        |c, r| c.cancel_reply(r).unwrap_err(),
        |c, r| c.reply(r).unwrap_err(),
    ];
    for take in refusals {
        let mut c = session(7);
        let e = take(&mut c, frame(Tag::Error, body));
        assert_eq!(e.kind, ErrorKind::Refused);
        assert_eq!(e.code(), Some("frame_too_large"));
        assert_eq!(e.message(), "frame too large");
        assert!(c.is_poisoned());
    }
    let mut c = session(7);
    let e = c.ping_reply(frame(Tag::CancelOk, "{}")).unwrap_err();
    assert_eq!((e.kind, e.code()), (ErrorKind::Protocol, None));
    assert_eq!(e.message(), "expected PONG, got CancelOk");
}

#[test]
fn a_request_that_was_not_sent_is_not_the_last_one() {
    let mut c = session(7);
    c.execute("X").unwrap();
    assert_eq!(c.last_request_id(), Some("rs-px-1"));
    let e = c.request(Json::text(&"x".repeat(16 * 1024 * 1024 + 1))).unwrap_err();
    assert_eq!(e.kind, ErrorKind::Protocol);
    assert!(!c.is_poisoned());
    assert_eq!(c.last_request_id(), Some("rs-px-1"));
    let (_, body) = sent(c.execute("X"));
    assert_eq!(body.get("request_id").unwrap().as_str(), Some("rs-px-3"));
    assert_eq!(c.last_request_id(), Some("rs-px-3"));
    c.ping_reply(Err(Error::new(ErrorKind::Io, "gone"))).unwrap_err();
    assert_eq!(c.execute("X").unwrap_err().kind, ErrorKind::Closed);
    assert_eq!(c.last_request_id(), Some("rs-px-3"));
}

#[test]
fn a_body_that_names_a_field_twice_is_refused() {
    for body in [
        r#"{"status":"error","status":"ok","data":"Empty"}"#,
        r#" { "st\u0061tus" : "ok" , "data" : [1, 2] , "status" : "ok" } "#,
        r#"{"status":"ok","diagnostics":{"route":"a","route":"a"}}"#,
        r#"["r","ok",null,{"route":"a","route":"a"}]"#,
    ] {
        let mut c = session(7);
        let e = c.reply(response(body)).unwrap_err();
        assert_eq!(e.kind, ErrorKind::Protocol);
        assert_eq!(e.message(), "malformed RESPONSE body: a field is named twice");
        assert!(c.is_poisoned());
    }
    // A field of no record, or of a value in the data, may be there twice.
    let mut c = session(7);
    let r = c
        .reply(response(
            r#"{"x":1,"x":2,"status":"ok","data":{"Json":{"a":1,"a":2}},"diagnostics":{"y":1,"y":1}}"#,
        ))
        .unwrap();
    assert_eq!(r.data, json(r#"{"a": 2}"#));

    let (mut c, _) = Client::connect(&Options::default(), "px");
    let e = c
        .hello_reply(frame(Tag::HelloOk, r#"{"ok":false,"ok":true}"#))
        .unwrap_err();
    assert_eq!(e.message(), "malformed HELLO_OK body: a field is named twice");
    let mut c = session(7);
    let e = c
        .auth_reply(frame(Tag::AuthOk, r#"{"ok":false,"message":"m","ok":true}"#))
        .unwrap_err();
    assert_eq!(e.kind, ErrorKind::Protocol);
    let mut c = session(7);
    let e = c
        .cancel_reply(frame(Tag::CancelOk, r#"{"cancelled":0,"cancelled":1}"#))
        .unwrap_err();
    assert_eq!(e.kind, ErrorKind::Protocol);
    // The text of an ERROR frame is taken as it is.
    let mut c = session(7);
    let e = c
        .ping_reply(frame(Tag::Error, r#"{"message":"a","message":"b"}"#))
        .unwrap_err();
    assert_eq!((e.kind, e.message()), (ErrorKind::Refused, "b"));
}

#[test]
fn what_is_no_field_of_a_body_is_passed_over() {
    let deep = format!("{}{}", "[".repeat(200), "]".repeat(200));
    for odd in [deep.as_str(), r#""\ud800""#, r#"{"a":"\udc00","a":[1e999999]}"#] {
        let mut c = session(7);
        let r = c
            .reply(response(&format!(
                r#" {{"x" :{odd}, "request_id":"r","status" : "ok" , "data":{{"Json":[1,{{}}]}},
                "diagnostics":{{"y":{odd},"route":"local","elapsed_ms":3,"z":{odd}}},"w":{odd} }} "#
            )))
            .unwrap();
        assert_eq!((r.request_id.as_str(), r.kind.as_str()), ("r", "Json"));
        assert_eq!(r.data, json("[1, {}]"));
        assert_eq!((r.route.as_deref(), r.elapsed_ms), (Some("local"), Some(3)));

        let listed = format!(r#"["r","ok","Empty",{{"y":{odd},"route":"local"}}]"#);
        let r = c.reply(response(&listed)).unwrap();
        assert_eq!((r.kind.as_str(), r.route.as_deref()), ("Empty", Some("local")));

        let cancelled = format!(r#"{{"x":{odd},"cancelled":4}}"#);
        assert_eq!(c.cancel_reply(frame(Tag::CancelOk, &cancelled)).unwrap(), 4);
        let auth = format!(r#"{{"ok":true,"x":{odd},"session_id":"s"}}"#);
        c.auth_reply(frame(Tag::AuthOk, &auth)).unwrap();
        assert_eq!(c.session_id(), Some("s"));
        let hello = format!(r#"{{"ok":true,"features":5,"x":{odd}}}"#);
        c.hello_reply(frame(Tag::HelloOk, &hello)).unwrap();
        assert_eq!(c.granted_features(), 5);

        // In a field it counts, and so does what follows the body.
        for bad in [
            format!(r#"{{"status":"ok","data":{odd},"x":{odd}"#),
            format!(r#"{{"status":"ok","x":{odd}}} 1"#),
            format!(r#"{{"status":{odd}}}"#),
            format!(r#"{{"status":"ok","x":{odd},"status":"ok"}}"#),
        ] {
            let mut c = session(7);
            assert_eq!(c.reply(response(&bad)).unwrap_err().kind, ErrorKind::Protocol);
        }
    }
    let invalid = b"{\"status\":\"ok\",\"x\":\"\xff\",\"data\":\"Empty\"}".to_vec();
    let mut c = session(7);
    let reply = Ok(Frame {
        tag: Tag::Response,
        payload: invalid,
    });
    assert_eq!(c.reply(reply).unwrap().kind, "Empty");
    // As many levels as a field may hold are left to the data.
    for (levels, read) in [(126, true), (127, false)] {
        let data = format!("{}{}", "[".repeat(levels), "]".repeat(levels));
        for odd in ["1", r#""\ud800""#] {
            let mut c = session(7);
            let body = format!(r#"{{"status":"ok","data":{data},"x":{odd}}}"#);
            assert_eq!(c.reply(response(&body)).is_ok(), read, "{levels} {odd}");
        }
    }
}

#[test]
fn a_negative_zero_is_no_number_of_milliseconds() {
    for (ms, read) in [("0", Some(0)), ("-1", Some(-1)), ("-0", None), ("1.0", None)] {
        let mut c = session(7);
        let body = format!(r#"{{"status":"ok","diagnostics":{{"elapsed_ms":{ms}}}}}"#);
        let r = c.reply(response(&body));
        assert_eq!(r.as_ref().ok().and_then(|r| r.elapsed_ms), read);
        assert_eq!(r.is_ok(), read.is_some());
    }
    // A number in a payload is read from a value, not from its text.
    let mut c = session(7);
    let r = c.cache_incr_reply(response(r#"{"status":"ok","data":{"Json":{"value":-0}}}"#));
    assert_eq!(r.unwrap(), 0);
}

#[test]
fn a_session_ends_once() {
    let mut c = session(7);
    match c.close() {
        Farewell::Goodbye { bytes, deadline } => {
            assert_eq!(bytes, vec![1, 7, 0, 0, 0, 0]);
            assert_eq!(deadline, Duration::from_secs(2));
        }
        other => panic!("{other:?}"),
    }
    assert!(matches!(c.close(), Farewell::Nothing));
    assert_eq!(c.ping().unwrap_err().message(), "this connection is closed");

    let mut c = session(7);
    assert!(matches!(c.abandon(), Farewell::Drop));
    assert!(matches!(c.abandon(), Farewell::Nothing));
    assert!(matches!(c.close(), Farewell::Nothing));
    assert_eq!(c.ping().unwrap_err().kind, ErrorKind::Closed);

    let mut c = session(7);
    c.ping_reply(Err(Error::new(ErrorKind::Io, "gone"))).unwrap_err();
    assert!(matches!(c.close(), Farewell::Drop));
    assert!(close_outcome(Shutdown::Done).is_ok());
    assert!(close_outcome(Shutdown::Gone).is_ok());
    let e = close_outcome(Shutdown::Failed(IoFailure::Other, "busy".to_string())).unwrap_err();
    assert_eq!((e.kind, e.message()), (ErrorKind::Io, "busy"));
}

#[test]
fn read_timeouts_without_length_are_none() {
    let mut c = session(7);
    let bound = Some(Duration::from_millis(150));
    assert_eq!(c.set_read_timeout(bound), bound);
    assert_eq!(c.read_timeout(), bound);
    assert_eq!(c.set_read_timeout(Some(Duration::from_secs(0))), None);
    assert_eq!(c.read_timeout(), None);
}

#[test]
fn statements_travel_with_their_values_beside_them() {
    let mut c = session(7);
    assert_eq!(
        op(c.execute("DROP TABLE t")),
        json(r#"{"Sql": {"Exec": {"sql": "DROP TABLE t"}}}"#)
    );
    assert_eq!(
        op(c.execute_params("INSERT ?", &[Param::from(1), Param::from("x'; --")])),
        json(r#"{"Sql": {"Exec": {"sql": "INSERT ?", "params": [1, "x'; --"]}}}"#)
    );
    assert_eq!(
        op(c.query_params("S ?", &[Param::Null])),
        json(r#"{"Sql": {"Query": {"sql": "S ?", "params": [null]}}}"#)
    );
    assert_eq!(op(c.query("S")), json(r#"{"Sql": {"Query": {"sql": "S"}}}"#));
    let r = c
        .reply(response(r#"{"status":"ok","data":{"Rows":{"columns":["n"],"rows":[["1"]]}}}"#))
        .unwrap();
    assert_eq!(rows_of(&r, "query").unwrap().get(0, "n"), Some("1"));
    let rows = c
        .query_reply(response(r#"{"status":"ok","data":{"Rows":{"columns":["n"],"rows":[["2"]]}}}"#))
        .unwrap();
    assert_eq!(rows.get(0, "n"), Some("2"));
    let e = c.query_reply(response(r#"{"status":"ok","data":{"Json":1}}"#)).unwrap_err();
    assert_eq!(e.message(), "expected Rows from query, got Json");
    assert_eq!(e.kind, ErrorKind::Protocol);
    assert!(c.is_poisoned());
}

#[test]
fn a_non_finite_float_is_refused_before_it_is_sent() {
    let mut c = session(7);
    let e = c
        .execute_params("INSERT INTO t VALUES (?)", &[Param::from(Float::NotANumber)])
        .expect_err("NaN has no SQL form");
    assert_eq!(e.kind, ErrorKind::InvalidArgument);
    assert_eq!(c.last_request_id(), None);
    assert!(c.ping().is_ok(), "nothing was sent");
}

#[test]
fn masking_a_capability_out_makes_the_client_refuse_by_name() {
    let mut c = session(7 & !2);
    assert!(!c.server_params_granted());
    let error = c
        .execute_params("INSERT INTO nothing VALUES (?)", &[Param::from(1)])
        .expect_err("binding without the capability must be refused");
    assert_eq!(error.kind, ErrorKind::FeatureNotGranted);
    assert_eq!(error.code(), Some("feature_not_granted"));
    assert!(error.message().contains("SERVER_PARAMS"), "{}", error.message());
    assert!(c.ping().is_ok());
    assert!(c.query("SELECT 1").is_ok());

    let mut c = session(7 & !4);
    let error = c.begin().expect_err("begin without the capability");
    assert_eq!(error.kind, ErrorKind::FeatureNotGranted);
    assert!(!c.in_transaction());
    assert_eq!(c.last_request_id(), None);
}

#[test]
fn a_whole_transaction_is_one_request() {
    let mut c = session(7);
    assert_eq!(
        op(c.transaction(&[
            Statement::with_params("UPDATE a SET b = ?", vec![Param::from(1)]),
            Statement::new("UPDATE c;"),
        ])),
        json(r#"{"Sql": {"Exec": {"sql": "BEGIN; UPDATE a SET b = ?; UPDATE c; COMMIT", "params": [1]}}}"#)
    );
    let done = c
        .transaction_reply(response(
            r#"{"status":"ok","data":{"Json":{"statements":2,"committed_writes":2,"transaction":"committed"}}}"#,
        ))
        .unwrap();
    assert_eq!((done.committed_writes, done.outcome.as_str()), (2, "committed"));
    assert!(c.transaction(&[]).unwrap_err().was_refused_locally());
    assert_eq!(c.last_request_id(), Some("rs-px-1"));
}

#[test]
fn a_transaction_is_open_between_begin_and_its_end() {
    let began = r#"{"status":"ok","data":{"Json":{"transaction":"began"}}}"#;
    let refused = r#"{"status":"error","data":{"Message":"no"}}"#;
    let mut c = session(7);
    assert_eq!(op(c.begin()), json(r#"{"Sql": {"Exec": {"sql": "BEGIN"}}}"#));
    assert!(c.control_reply(Control::Begin, response(refused)).is_err());
    assert!(!c.in_transaction());
    assert_eq!(
        c.control_reply(Control::Begin, response(began)).unwrap().outcome,
        "began"
    );
    assert!(c.in_transaction());
    assert_eq!(c.with_transaction(true), Ending::Commit);
    assert_eq!(c.with_transaction(false), Ending::Rollback);
    assert_eq!(op(c.commit()), json(r#"{"Sql": {"Exec": {"sql": "COMMIT"}}}"#));
    assert!(c.in_transaction());
    assert!(c.control_reply(Control::Commit, response(refused)).is_err());
    assert!(!c.in_transaction(), "a refused commit ends it too");
    assert_eq!(c.with_transaction(false), Ending::Leave);
    c.control_reply(Control::Begin, response(began)).unwrap();
    assert_eq!(op(c.rollback()), json(r#"{"Sql": {"Exec": {"sql": "ROLLBACK"}}}"#));
    let done = c
        .control_reply(
            Control::Rollback,
            response(r#"{"status":"ok","data":{"Json":{"statements":2,"discarded_writes":1,"transaction":"rolled_back"}}}"#),
        )
        .unwrap();
    assert_eq!((done.statements, done.committed_writes, done.discarded_writes), (2, 0, 1));
    assert!(!c.in_transaction());
    c.control_reply(Control::Begin, response(began)).unwrap();
    assert!(c.in_transaction());
    c.ping_reply(Err(Error::new(ErrorKind::Io, "gone"))).unwrap_err();
    assert!(!c.in_transaction());
}

#[test]
fn the_work_of_a_transaction_has_one_outcome() {
    let done = || Ok(tricoredb::TransactionResult::default());
    let failed = || Err(Error::new(ErrorKind::Server, "commit"));
    assert_eq!(transaction_outcome(Ok(1), done()).unwrap(), 1);
    assert_eq!(transaction_outcome(Ok(1), failed()).unwrap_err().message(), "commit");
    let own: Result<i32> = Err(Error::new(ErrorKind::InvalidArgument, "give up"));
    assert_eq!(transaction_outcome(own, failed()).unwrap_err().message(), "give up");
}

#[test]
fn cache_requests_and_their_answers() {
    let mut c = session(7);
    assert_eq!(op(c.cache_ping()), json(r#"{"Cache": "Ping"}"#));
    assert_eq!(
        op(c.cache_set("n", "k", b"v")),
        json(r#"{"Cache": {"Set": {"namespace": "n", "key": "k", "value": [118], "ttl_ms": null}}}"#)
    );
    assert_eq!(
        op(c.cache_set_nx("n", "k", b"", Some(Duration::from_secs(1)))),
        json(r#"{"Cache": {"SetNx": {"namespace": "n", "key": "k", "value": [], "ttl_ms": 1000}}}"#)
    );
    assert!(c
        .cache_set_nx_reply(response(r#"{"status":"ok","data":{"Json":{"set":true}}}"#))
        .unwrap());
    assert_eq!(
        op(c.cache_keys("n", Some("a*"), None)),
        json(r#"{"Cache": {"Keys": {"namespace": "n", "pattern": "a*", "limit": null}}}"#)
    );
    let keys = c
        .cache_keys_reply(response(
            r#"{"status":"ok","data":{"Json":{"keys":[{"key":"a","ttl_ms":5},{"key":"b","bytes":2}]}}}"#,
        ))
        .unwrap();
    assert_eq!((keys[0].ttl_ms, keys[1].ttl_ms, keys[1].bytes), (Some(5), None, 2));
    assert_eq!(
        op(c.cache_rpush("n", "k", &[b"a".to_vec()])),
        json(r#"{"Cache": {"RPush": {"namespace": "n", "key": "k", "values": [[97]]}}}"#)
    );
    let e = c.cache_sadd("n", "k", &[]).unwrap_err();
    assert_eq!(e.message(), "`members` must not be empty");
    let e = c.cache_xdel("n", "k", &[]).unwrap_err();
    assert_eq!(e.message(), "`ids` must not be empty");
    let e = c.cache_hset("n", "k", &[]).unwrap_err();
    assert_eq!(e.message(), "`entries` must not be empty");
    assert_eq!(
        op(c.cache_xadd_text("n", "k", &[("f", "v")], Some(""))),
        json(r#"{"Cache": {"XAdd": {"namespace": "n", "key": "k", "fields": [[[102], [118]]], "id": null}}}"#)
    );
    let id = c
        .cache_xadd_reply(response(r#"{"status":"ok","data":{"Json":{"id":"1-0"}}}"#))
        .unwrap();
    assert_eq!(id, "1-0");
    let entries = c
        .cache_xrange_reply(response(
            r#"{"status":"ok","data":{"Json":{"entries":[{"id":"1-0","fields":[[[102],[118]]]}]}}}"#,
        ))
        .unwrap();
    assert_eq!(entries[0].fields[0], CachePair::new(b"f", b"v"));
    let pairs = c
        .cache_hgetall_reply(response(r#"{"status":"ok","data":{"Json":{"entries":[[[1],[2]]]}}}"#))
        .unwrap();
    assert_eq!(pairs, vec![CachePair::new(&[1], &[2])]);
    let values = c
        .cache_lrange_reply(response(r#"{"status":"ok","data":{"Json":{"values":[[1],[]]}}}"#))
        .unwrap();
    assert_eq!(values, vec![vec![1], vec![]]);
    let ttl = c
        .cache_ttl_reply(response(r#"{"status":"ok","data":{"Json":{"ttl_ms":1500}}}"#))
        .unwrap();
    assert_eq!(ttl, Some(Duration::from_millis(1500)));
    let ttl = c
        .cache_ttl_reply(response(r#"{"status":"ok","data":{"Json":{"ttl_ms":-2}}}"#))
        .unwrap();
    assert_eq!(ttl, None);
    let e = c
        .cache_hgetall_reply(response(r#"{"status":"ok","data":{"Json":{}}}"#))
        .unwrap_err();
    assert_eq!(e.message(), "malformed HGetAll payload: no entries");
    assert!(c.is_poisoned());
}

#[test]
fn a_miss_is_told_apart_from_an_empty_value() {
    let mut c = session(7);
    assert_eq!(
        op(c.cache_get("n", "k")),
        json(r#"{"Cache": {"Get": {"namespace": "n", "key": "k"}}}"#)
    );
    let get = |c: &mut Client, data: &str| {
        c.cache_get_reply(response(&format!(
            r#"{{"status":"ok","data":{{"CacheValue":{data}}}}}"#
        )))
    };
    assert_eq!(get(&mut c, "null").unwrap(), None);
    assert_eq!(get(&mut c, "[]").unwrap(), Some(vec![]));
    assert_eq!(get(&mut c, "[0,255]").unwrap(), Some(vec![0, 255]));
    assert!(get(&mut c, "[256]").is_err());
}

#[test]
fn document_requests_and_their_answers() {
    let mut c = session(7);
    assert_eq!(
        op(c.document_insert("p", json(r#"{"a": 1}"#))),
        json(r#"{"Document": {"Insert": {"collection": "p", "id": null, "document": {"a": 1}}}}"#)
    );
    let e = c.document_insert_with_id("p", "x", json("[1]")).unwrap_err();
    assert_eq!(e.kind, ErrorKind::InvalidArgument);
    let id = c
        .document_insert_reply(response(r#"{"status":"ok","data":{"Json":{"id":"d1"}}}"#))
        .unwrap();
    assert_eq!(id, "d1");
    assert_eq!(
        op(c.document_find_limit("p", &DocumentFilter::all(), 3)),
        json(r#"{"Document": {"Find": {"collection": "p", "filter": "All", "limit": 3}}}"#)
    );
    assert_eq!(
        op(c.document_find_limit("p", &DocumentFilter::all(), 0)),
        json(r#"{"Document": {"Find": {"collection": "p", "filter": "All", "limit": 0}}}"#)
    );
    assert_eq!(
        op(c.document_find("p", &DocumentFilter::all())),
        json(r#"{"Document": {"Find": {"collection": "p", "filter": "All", "limit": null}}}"#)
    );
    for (limit, kept) in [(0, 0), (1, 1), (2, 2), (3, 2)] {
        let two = response(r#"{"status":"ok","data":{"Documents":[{"_id":"a"},{"_id":"b"}]}}"#);
        let found = c.document_find_limit_reply(limit, two).unwrap();
        assert_eq!(found.len(), kept);
        let ids: Vec<_> = found.iter().map(|d| d.get("_id").unwrap().as_str()).collect();
        assert_eq!(ids, [Some("a"), Some("b")][..kept]);
    }
    let mut other = session(7);
    let e = other
        .document_find_limit_reply(1, response(r#"{"status":"ok","data":{"Documents":[1]}}"#))
        .unwrap_err();
    assert_eq!(e.kind, ErrorKind::Protocol);
    assert!(other.is_poisoned());
    let found = c
        .document_find_reply(response(r#"{"status":"ok","data":{"Documents":[{"_id":"a"},{}]}}"#))
        .unwrap();
    assert_eq!(found.len(), 2);
    assert_eq!(found[0].get("_id").unwrap().as_str(), Some("a"));
    let one = c
        .document_get_reply(response(r#"{"status":"ok","data":{"Documents":[]}}"#))
        .unwrap();
    assert_eq!(one, None);
    let e = c.document_update_one("p", "x", &DocumentUpdate::new()).unwrap_err();
    assert_eq!(e.message(), "an update must set or increment at least one field");
    let update = DocumentUpdate::new().inc("n", Json::signed(1));
    assert_eq!(
        op(c.document_upsert_one("p", "x", &update)),
        json(r#"{"Document": {"UpdateOne": {"collection": "p", "id": "x", "update": {"inc": {"n": 1}}, "upsert": true}}}"#)
    );
    assert!(c
        .document_upsert_one_reply(response(r#"{"status":"ok","data":{"Json":{"inserted":true}}}"#))
        .unwrap());
    let counts = c
        .document_update_many_reply(response(r#"{"status":"ok","data":{"Json":{"matched":3,"modified":1}}}"#))
        .unwrap();
    assert_eq!((counts.matched, counts.modified), (3, 1));
    let e = c
        .document_insert_reply(response(r#"{"status":"ok","data":{"Json":{}}}"#))
        .unwrap_err();
    assert_eq!(e.message(), "Insert answered with no document id");
}

#[test]
fn vector_graph_and_llm_requests() {
    let mut c = session(7);
    let half = Float::Finite(Number::parse("0.5").unwrap());
    assert_eq!(
        op(c.vector_search("e", &[half, Float::Infinity], 5)),
        json(r#"{"Vector": {"Search": {"collection": "e", "vector": [0.5, null], "top_k": 5, "filter": null}}}"#)
    );
    assert_eq!(
        op(c.vector_create_collection("e", 3, VectorMetric::Dot)),
        json(r#"{"Vector": {"CreateCollection": {"collection": "e", "dimension": 3, "metric": "dot", "quantization": "none"}}}"#)
    );
    let filter = Object::new().with("kind", Json::text("doc"));
    assert_eq!(
        op(c.vector_search_filtered("e", &[], 1, &filter)).get("Vector").unwrap()
            .get("Search").unwrap().get("filter"),
        Some(&json(r#"{"kind": "doc"}"#))
    );
    assert_eq!(
        op(c.vector_list_vectors("e", Some(0), Some(20))),
        json(r#"{"Vector": {"ListVectors": {"collection": "e", "offset": 20}}}"#)
    );
    let gone = c.vector_get_reply(response(r#"{"status":"ok","data":{"Json":null}}"#)).unwrap();
    assert!(gone.is_none());
    let hits = c
        .vector_search_reply(response(r#"{"status":"ok","data":{"Json":{"results":[{"id":"a","score":-0.02}],"index":"flat"}}}"#))
        .unwrap();
    assert_eq!((hits.index.as_str(), hits.results[0].score.as_str()), ("flat", "-0.02"));

    let options = NeighborOptions {
        direction: Some(GraphDirection::Both),
        label: Some("F".to_string()),
        limit: None,
    };
    assert_eq!(
        op(c.graph_neighbors("g", "u", &options)),
        json(r#"{"Graph": {"Neighbors": {"graph": "g", "node_id": "u", "direction": "both", "label": "F"}}}"#)
    );
    assert_eq!(
        op(c.graph_add_node("g", "u", &["User"], None)),
        json(r#"{"Graph": {"AddNode": {"graph": "g", "id": "u", "labels": ["User"], "properties": null}}}"#)
    );
    let degree = c
        .graph_degree_reply(response(r#"{"status":"ok","data":{"Json":{"degree":4}}}"#))
        .unwrap();
    assert_eq!(degree, 4);

    let e = c.llm_context(&[], OutputFormat::Json, None).unwrap_err();
    assert_eq!(e.kind, ErrorKind::InvalidArgument);
    assert_eq!(
        op(c.llm_context(&[LlmSource::sql("S")], OutputFormat::Toon, None)),
        json(r#"{"Llm": {"Context": {"sources": [{"Sql": {"query": "S"}}], "format": "toon", "options": {"max_rows": null, "redact_sensitive": true, "include_schema": false}}}}"#)
    );
    assert_eq!(op(c.admin_status()), json(r#"{"Admin": "Status"}"#));
    let text = c
        .llm_schema_reply(response(r#"{"status":"ok","data":{"Message":"t"}}"#))
        .unwrap();
    assert_eq!(text, "t");
}
