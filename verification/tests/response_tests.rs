use tricoredb::codec;
use tricoredb::decode::{take_or_null, Decode};
use tricoredb::response::{decode_variant, parse_body, read_body, settle, WireResponse};
use tricoredb::{ErrorKind, Json, Object, Response, Rows};

fn json(text: &str) -> Json {
    codec::parse(text.as_bytes()).unwrap()
}

fn response(status: &str, kind: &str, data: Json) -> Response {
    Response {
        request_id: "r1".into(),
        status: status.into(),
        kind: kind.into(),
        data,
        route: None,
        elapsed_ms: None,
        warnings: vec![],
        error_code: None,
        leader_hint: None,
    }
}

#[test]
fn an_externally_tagged_variant_splits_into_name_and_payload() {
    let (kind, data) = decode_variant(json(r#"{"Rows": {"columns": ["a"], "rows": []}}"#));
    assert_eq!(kind, "Rows");
    assert_eq!(
        data.get("columns").unwrap().as_array().unwrap()[0].as_str(),
        Some("a")
    );
}

#[test]
fn a_unit_variant_is_a_bare_string() {
    let (kind, data) = decode_variant(json("\"Empty\""));
    assert_eq!(kind, "Empty");
    assert_eq!(data, Json::Null);
}

#[test]
fn absent_data_is_no_kind_at_all() {
    let (kind, _) = decode_variant(Json::Null);
    assert_eq!(kind, "");
}

#[test]
fn the_wrong_variant_is_named_in_the_error() {
    let response = response("ok", "Message", json("\"hi\""));
    let err = response.expect("Rows", "query").unwrap_err();
    assert!(err.message.contains("expected Rows"), "{}", err.message);
    assert!(err.message.contains("Message"), "{}", err.message);
}

#[test]
fn a_failure_reports_the_servers_own_message() {
    let mut response = response("error", "Message", json("\"no such table\""));
    response.error_code = Some("sql.unknown_table".into());
    assert_eq!(response.failure_message(), "no such table");
    response.kind = "Empty".into();
    assert!(response.failure_message().contains("error"));
}

#[test]
fn null_absent_and_present_all_decode() {
    let node = |text: &str| {
        let j = json(text);
        let labels: Vec<String> = take_or_null(&j, 0, "labels", Vec::new()).unwrap();
        let properties: Object = take_or_null(&j, 1, "properties", Object::new()).unwrap();
        (labels, properties)
    };
    let explicit_null = node(r#"{"labels": null, "properties": null}"#);
    assert!(explicit_null.0.is_empty());
    assert!(explicit_null.1.is_empty());

    let absent = node("{}");
    assert!(absent.0.is_empty());

    let present = node(r#"{"labels": ["User"], "properties": {"name": "ada"}}"#);
    assert_eq!(present.0, vec!["User"]);
    assert_eq!(present.1.get("name"), Some(&Json::text("ada")));
}

#[test]
fn only_the_expected_payload_is_decoded() {
    let r = response("ok", "Json", json(r#"{"columns": null, "rows": [["1"]]}"#));
    let rows: Rows = r.decode("x").unwrap();
    assert_eq!(rows.rows, vec![vec!["1".to_string()]]);
    assert!(rows.columns.is_empty());

    let r = response("ok", "", Json::Null);
    let err = r.decode::<Rows>("thing").unwrap_err();
    assert_eq!(err.kind, ErrorKind::Protocol);
    assert_eq!(err.message, "expected Json from thing, got no data");

    let r = response("ok", "Json", json("[[1]]"));
    let err = r.decode::<Rows>("thing").unwrap_err();
    assert!(err.message.starts_with("malformed thing payload: "), "{}", err.message);
    assert_eq!(
        r.unexpected_payload("why").message,
        "unexpected Json payload: why"
    );
}

#[test]
fn a_record_is_read_by_name_or_by_position() {
    let by_name = Rows::decode(&json(r#"{"rows": [["x"]], "columns": ["a"], "more": 1}"#)).unwrap();
    let by_position = Rows::decode(&json(r#"[["a"], [["x"]]]"#)).unwrap();
    assert_eq!(by_name, by_position);
    assert!(Rows::decode(&json(r#"[["a"], [["x"]], 3]"#)).is_none());
    assert!(Rows::decode(&json("7")).is_none());
    assert!(Rows::decode(&json(r#"{"columns": [1]}"#)).is_none());
}

#[test]
fn a_failure_message_falls_back_step_by_step() {
    let text = |kind: &str, status: &str, data: &str| {
        response(status, kind, json(data)).failure_message()
    };
    assert_eq!(text("Message", "error", "\"\""), "\"\"");
    assert_eq!(text("Toon", "error", "[1]"), "[1]");
    assert_eq!(text("Json", "error", r#"{"a": 1}"#), r#"{"a":1}"#);
    assert_eq!(text("Rows", "late", "null"), "the server answered `late`");
    assert_eq!(text("", "", "null"), "the request failed");
}

fn wire(text: &str) -> WireResponse {
    WireResponse::decode(&json(text)).unwrap()
}

#[test]
fn nothing_but_ok_is_a_success() {
    let ok = settle(wire(
        r#"{"request_id": "r", "status": "ok", "data": {"Json": [1]}, "diagnostics": {"route": "local", "elapsed_ms": 2, "warnings": ["w"]}}"#,
    ))
    .unwrap();
    assert_eq!(ok.kind, "Json");
    assert_eq!(ok.data, json("[1]"));
    assert_eq!(ok.route.as_deref(), Some("local"));
    assert_eq!(ok.elapsed_ms, Some(2));
    assert_eq!(ok.warnings, vec!["w"]);
    assert_eq!(ok.clone(), ok);

    for status in ["error", "OK", "", "okay", "not_implemented"] {
        let text = format!(
            r#"{{"status": "{status}", "data": {{"Message": "m"}}, "diagnostics": {{"error_code": "c", "leader_hint": "h"}}}}"#
        );
        let err = settle(wire(&text)).unwrap_err();
        assert_eq!(err.kind, ErrorKind::Server);
        assert_eq!(err.code(), Some("c"));
        assert_eq!(err.leader_hint(), Some("h"));
        assert_eq!(err.message(), "m");
    }
}

#[test]
fn a_body_that_cannot_be_read_says_so() {
    let err = parse_body::<WireResponse>(b"{", "RESPONSE").err().unwrap();
    assert_eq!(err.kind, ErrorKind::Protocol);
    assert!(err.message.starts_with("malformed RESPONSE body: EOF"), "{}", err.message);
    let err = read_body::<WireResponse>(Ok(json(r#"{"status": 1}"#)), "RESPONSE").err().unwrap();
    assert!(err.message.starts_with("malformed RESPONSE body: "), "{}", err.message);
    let err = read_body::<WireResponse>(Err("bad".to_string()), "X").err().unwrap();
    assert_eq!(err.message, "malformed X body: bad");
    assert!(parse_body::<WireResponse>(b"{}", "RESPONSE").is_ok());
}

#[test]
fn variants_with_several_names_take_the_first() {
    let (kind, data) = decode_variant(json(r#"{"b": 2, "a": 1}"#));
    assert_eq!((kind.as_str(), data), ("a", Json::unsigned(1)));
    assert_eq!(decode_variant(json("{}")), (String::new(), Json::Null));
    assert_eq!(decode_variant(json("[1]")), (String::new(), json("[1]")));
}
