use tricoredb::codec::{parse, render, NUMBER_TOKEN};
use tricoredb::json::put;
use tricoredb::{Json, Object};

fn json(text: &str) -> Json {
    parse(text.as_bytes()).unwrap()
}

#[test]
fn text_is_written_compactly_with_its_names_in_order() {
    let value = json(r#" { "b" : [1, 2.50, null, true], "a" : {"x": "q\"\n"} } "#);
    assert_eq!(render(&value), r#"{"a":{"x":"q\"\n"},"b":[1,2.50,null,true]}"#);
    assert_eq!(json(&render(&value)), value);
}

#[test]
fn numbers_pass_through_digit_for_digit() {
    let text = "[123456789012345678901234567890.123456789012345678901234567890,1e+400,-0]";
    assert_eq!(render(&json(text)), text);
    assert_eq!(render(&json("[1E5]")), "[1e+5]");
}

#[test]
fn what_is_not_json_is_refused_with_the_place() {
    let complaint = parse(b"{\"a\": }").unwrap_err();
    assert!(complaint.contains("line 1 column"), "{complaint}");
    assert!(parse(b"").is_err());
    assert!(parse(b"[1] 2").is_err());
}

#[test]
fn a_later_member_replaces_an_earlier_one() {
    assert_eq!(json(r#"{"a": 1, "a": 2}"#), json(r#"{"a": 2}"#));
    let mut o = Object::new();
    o.insert("a", Json::unsigned(1));
    o.insert("b", Json::Null);
    o.insert("a", Json::text("x"));
    assert_eq!(o.len(), 2);
    assert_eq!(o.get("a"), Some(&Json::text("x")));
    assert_eq!(o.get("c"), None);
    let mut names = o.names();
    names.sort();
    assert_eq!(names, vec!["a", "b"]);
    assert_eq!(render(&Json::Object(o.clone())), r#"{"a":"x","b":null}"#);
    assert!(!o.is_empty());
    assert!(Object::new().is_empty());
}

#[test]
fn objects_compare_without_regard_to_order() {
    let a = Object::new().with("x", Json::Bool(true)).with("y", Json::array(vec![Json::Null]));
    let b = Object::new().with("y", Json::array(vec![Json::Null])).with("x", Json::Bool(true));
    assert_eq!(a, b);
    assert_ne!(a, b.clone().with("z", Json::Null));
    assert_ne!(b.clone().with("z", Json::Null), a);
    assert_ne!(a, Object::new().with("x", Json::Bool(true)).with("y", Json::Null));
    assert_ne!(Json::Null, Json::Bool(false));
    assert_ne!(json("[1]"), json("[1,2]"));
}

#[test]
fn the_first_and_the_only_member_are_found() {
    let o = Object::new().with("b", Json::Null).with("B", Json::Bool(true)).with("é", Json::Null);
    assert_eq!(o.take_first(), Some(("B".to_string(), Json::Bool(true))));
    assert_eq!(Object::new().take_first(), None);
    let one = Object::new().with("k", Json::text("v"));
    assert_eq!(one.only(), Some(("k", &Json::text("v"))));
    assert_eq!(Object::new().only(), None);
    assert_eq!(one.with("l", Json::Null).only(), None);
}

#[test]
fn values_are_read_by_kind() {
    let v = json(r#"{"n": -3, "u": 7, "t": "x", "l": [1], "f": 1.5}"#);
    assert_eq!(v.get("n").unwrap().as_i64(), Some(-3));
    assert_eq!(v.get("n").unwrap().as_u64(), None);
    assert_eq!(v.get("u").unwrap().as_u64(), Some(7));
    assert_eq!(v.get("f").unwrap().as_i64(), None);
    assert_eq!(v.get("t").unwrap().as_str(), Some("x"));
    assert_eq!(v.get("t").unwrap().as_i64(), None);
    assert_eq!(v.get("l").unwrap().as_array().unwrap().len(), 1);
    assert!(v.as_array().is_none());
    assert_eq!(json("[1]").get("n"), None);
    assert_eq!(v.clone(), v);
}

#[test]
fn an_unset_value_is_not_put() {
    let o = put(Object::new(), "a", None);
    assert!(o.is_empty());
    let o = put(o, "a", Some(Json::text("x")));
    assert_eq!(o.get("a"), Some(&Json::text("x")));
    assert_eq!(Json::positive(Some(0)), None);
    assert_eq!(Json::positive(Some(4)), Some(Json::unsigned(4)));
}

#[test]
fn what_is_written_reads_back() {
    for text in [
        "null",
        "-0",
        "1e+2",
        "-12.50e-7",
        "340282366920938463463374607431768211455",
        "\"\"",
        r#""\" \\ / \b\f\n\r\t \u0000 \u007f   😀""#,
        r#"{"":[],"a\"b":{"c":[true,false,null]}}"#,
    ] {
        let value = parse(text.as_bytes()).unwrap();
        let again = render(&value);
        assert_eq!(parse(again.as_bytes()).unwrap(), value, "{text}");
    }
}

#[test]
fn only_so_many_levels_are_read() {
    let nested = |n: usize| {
        let mut j = Json::Null;
        for _ in 0..n {
            j = Json::array(vec![j]);
        }
        render(&j)
    };
    assert!(parse(nested(127).as_bytes()).is_ok());
    assert!(parse(nested(128).as_bytes()).is_err());
}

#[test]
fn one_member_name_stands_for_a_number() {
    let value = Json::wrap(NUMBER_TOKEN, Json::text("7"));
    let read = parse(render(&value).as_bytes()).unwrap();
    assert_eq!(read, Json::unsigned(7));
}
