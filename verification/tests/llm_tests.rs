use tricoredb::codec;
use tricoredb::llm::{rendered, status_of};
use tricoredb::{DocumentFilter, ErrorKind, Json, LlmOptions, LlmSource, OutputFormat, Response};

fn json(text: &str) -> Json {
    codec::parse(text.as_bytes()).unwrap()
}

fn response(kind: &str, data: Json) -> Response {
    Response {
        request_id: "r".into(),
        status: "ok".into(),
        kind: kind.into(),
        data,
        route: None,
        elapsed_ms: None,
        warnings: vec![],
        error_code: None,
        leader_hint: None,
    }
}

#[test]
fn formats_use_the_servers_spelling() {
    for (format, text) in [
        (OutputFormat::Native, "native"),
        (OutputFormat::Json, "json"),
        (OutputFormat::Toon, "toon"),
        (OutputFormat::Markdown, "markdown"),
    ] {
        assert_eq!(format.wire().as_str(), Some(text));
    }
}

#[test]
fn the_default_options_redact() {
    let options = LlmOptions::default();
    assert!(options.redact_sensitive);
    assert_eq!(
        options.to_wire(),
        json(r#"{"max_rows": null, "redact_sensitive": true, "include_schema": false}"#)
    );
    assert_eq!(
        LlmOptions::default().max_rows(10).to_wire().get("max_rows"),
        Some(&json("10"))
    );
}

#[test]
fn sources_are_externally_tagged() {
    assert_eq!(
        LlmSource::sql("SELECT 1").wire(),
        json(r#"{"Sql": {"query": "SELECT 1"}}"#)
    );
    let source = LlmSource::document_find("products", &DocumentFilter::all(), None);
    let value = source.wire();
    let find = value.get("DocumentFind").unwrap();
    assert_eq!(find.get("collection").unwrap().as_str(), Some("products"));
    assert_eq!(find.get("filter"), Some(&json("\"All\"")));
    assert_eq!(find.get("limit"), Some(&Json::Null));
}

#[test]
fn a_rendered_export_reads_text_or_json() {
    let mut response = response("Toon", json("\"users:\\n  1 ada\""));
    assert_eq!(rendered(&response).unwrap(), "users:\n  1 ada");
    response.kind = "Json".into();
    response.data = json(r#"{"users": []}"#);
    assert_eq!(rendered(&response).unwrap(), r#"{"users":[]}"#);
    response.kind = "Rows".into();
    assert!(rendered(&response).is_err());
}

#[test]
fn options_are_chosen_one_by_one() {
    let o = LlmOptions::default()
        .redact_sensitive(false)
        .include_schema(true)
        .max_rows(0);
    assert_eq!(
        o.to_wire(),
        json(r#"{"max_rows": 0, "redact_sensitive": false, "include_schema": true}"#)
    );
    assert_eq!(OutputFormat::default(), OutputFormat::Toon);
    let source = LlmSource::document_find("c", &DocumentFilter::all(), Some(7));
    assert_eq!(
        source.wire().get("DocumentFind").unwrap().get("limit").unwrap().as_u64(),
        Some(7)
    );
}

#[test]
fn what_cannot_be_rendered_is_named() {
    let err = rendered(&response("", Json::Null)).unwrap_err();
    assert_eq!(err.kind, ErrorKind::Protocol);
    assert_eq!(err.message, "expected a rendered export, got no data");
    assert_eq!(rendered(&response("Message", json("[1]"))).unwrap(), "[1]");
}

#[test]
fn a_plain_status_stands_under_the_message_key() {
    let status = status_of(&response("Message", json("\"fine\""))).unwrap();
    assert_eq!(status.get("message").unwrap().as_str(), Some("fine"));
    let status = status_of(&response("Message", json("3"))).unwrap();
    assert_eq!(status.get("message").unwrap().as_str(), Some(""));
    let status = status_of(&response("Json", json(r#"{"role": "leader"}"#))).unwrap();
    assert_eq!(status.get("role").unwrap().as_str(), Some("leader"));
    assert!(status_of(&response("Json", json("[]"))).is_err());
}
