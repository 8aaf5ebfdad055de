use tricoredb::cache::{ns_key, op, ttl_value};
use tricoredb::codec;
use tricoredb::{CachePair, Duration, Json, StreamEntry};

fn json(text: &str) -> Json {
    codec::parse(text.as_bytes()).unwrap()
}

#[test]
fn an_absent_ttl_is_null_rather_than_zero() {
    assert_eq!(ttl_value(None), Json::Null);
    assert_eq!(ttl_value(Some(Duration::from_millis(0))), Json::Null);
    assert_eq!(ttl_value(Some(Duration::from_millis(1500))), json("1500"));
}

#[test]
fn a_keyed_operation_carries_its_namespace_and_key() {
    let body = op("Get", ns_key("sessions", "u1"));
    let get = body.get("Cache").unwrap().get("Get").unwrap();
    assert_eq!(get.get("namespace").unwrap().as_str(), Some("sessions"));
    assert_eq!(get.get("key").unwrap().as_str(), Some("u1"));
}

#[test]
fn pairs_encode_both_halves_as_byte_arrays() {
    let pair = CachePair::new(b"name", b"ada");
    assert_eq!(pair.to_wire(), json("[[110, 97, 109, 101], [97, 100, 97]]"));
    assert_eq!(pair.field_text(), Some("name"));
    assert_eq!(pair.value_text(), Some("ada"));
}

#[test]
fn text_pairs_keep_their_order() {
    let pairs = CachePair::from_text(&[("a", "1"), ("b", "2")]);
    assert_eq!(pairs.len(), 2);
    assert_eq!(pairs[0].field_text(), Some("a"));
    assert_eq!(pairs[1].value_text(), Some("2"));
}

#[test]
fn a_stream_entry_reads_back_as_text() {
    let entry = StreamEntry {
        id: "1-0".into(),
        fields: CachePair::from_text(&[("msg", "hi")]),
    };
    assert_eq!(entry.text().get("msg").map(String::as_str), Some("hi"));
}

#[test]
fn bytes_that_are_not_text_stay_bytes() {
    let pair = CachePair::new(&[0xff, b'a'], "é".as_bytes());
    assert_eq!(pair.field_text(), None);
    assert_eq!(pair.value_text(), Some("é"));
    let entry = StreamEntry {
        id: "1-0".into(),
        fields: vec![pair.clone(), CachePair::new(b"k", b"1"), CachePair::new(b"k", b"2")],
    };
    let text = entry.text();
    assert_eq!(text.get("\u{fffd}a").map(String::as_str), Some("é"));
    assert_eq!(text.get("k").map(String::as_str), Some("2"));
    assert_eq!(text.len(), 2);
    assert_eq!(entry.clone(), entry);
}

#[test]
fn a_ttl_is_no_longer_than_an_i64_holds() {
    assert_eq!(
        ttl_value(Some(Duration::from_secs(u64::MAX))),
        json("9223372036854775807")
    );
    assert_eq!(ttl_value(Some(Duration::new(0, 1))), json("0"));
}
