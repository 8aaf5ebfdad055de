use tricoredb::codec;
use tricoredb::wire::{byte_list, byte_lists, decode_byte_list, decode_byte_lists, decode_pair};
use tricoredb::{ErrorKind, Json};

fn json(text: &str) -> Json {
    codec::parse(text.as_bytes()).unwrap()
}

#[test]
fn bytes_travel_as_numbers_not_as_base64() {
    assert_eq!(byte_list(b"hi"), json("[104, 105]"));
    assert_eq!(byte_list(&[]), json("[]"));
    assert_eq!(byte_list(&[0x00, 0xff]), json("[0, 255]"));
}

#[test]
fn a_value_round_trips_byte_for_byte() {
    let original: Vec<u8> = (0..=255).collect();
    let decoded = decode_byte_list(&byte_list(&original)).unwrap();
    assert_eq!(decoded, original);
}

#[test]
fn a_non_byte_element_is_refused_rather_than_masked() {
    let err = decode_byte_list(&json("[1, 256]")).unwrap_err();
    assert!(err.message.contains("0..=255"), "{}", err.message);
    assert!(decode_byte_list(&json("[1, -1]")).is_err());
    assert!(decode_byte_list(&json("\"hi\"")).is_err());
}

#[test]
fn an_empty_list_of_values_is_refused_by_name() {
    let empty: [Vec<u8>; 0] = [];
    let err = byte_lists(&empty, "members").unwrap_err();
    assert_eq!(err.kind, ErrorKind::InvalidArgument);
    assert!(err.message.contains("members"), "{}", err.message);
}

#[test]
fn pairs_need_exactly_two_halves() {
    let (field, value) = decode_pair(&json("[[97], [98]]")).unwrap();
    assert_eq!((field, value), (vec![97], vec![98]));
    assert!(decode_pair(&json("[[97]]")).is_err());
}

#[test]
fn the_refused_element_is_named_with_its_place() {
    let err = decode_byte_list(&json("[1, {\"a\": [true]}, 300]")).unwrap_err();
    assert_eq!(
        err.message,
        "byte 1 of the value is {\"a\":[true]}, which is not a number in 0..=255"
    );
    for (text, kind) in [
        ("null", "null"),
        ("true", "a boolean"),
        ("1", "a number"),
        ("\"x\"", "a string"),
        ("{}", "an object"),
    ] {
        let err = decode_byte_list(&json(text)).unwrap_err();
        assert_eq!(err.message, format!("expected an array of bytes, got {kind}"));
    }
    let err = decode_byte_lists(&json("7")).unwrap_err();
    assert_eq!(err.message, "expected an array of byte arrays, got a number");
    let err = decode_byte_lists(&json("[[1], [], [-1]]")).unwrap_err();
    assert!(err.message.starts_with("byte 0 of the value is -1"));
}

#[test]
fn lists_of_byte_strings_round_trip() {
    let values = vec![b"a".to_vec(), Vec::new(), vec![0u8, 255]];
    let wire = byte_lists(&values, "values").unwrap();
    assert_eq!(wire, json("[[97], [], [0, 255]]"));
    assert_eq!(decode_byte_lists(&wire).unwrap(), values);
}
