use tricoredb::frame::{encode, read_frame, read_header, write_frame, ByteReader, HEADER_LEN};
use tricoredb::{ErrorKind, Tag, MAX_CONTROL_PAYLOAD, MAX_DATA_PAYLOAD};

#[test]
fn every_tag_round_trips_through_its_byte() {
    for b in 0u8..=12 {
        let tag = Tag::from_u8(b).expect("known tag");
        assert_eq!(tag.as_u8(), b);
    }
    assert_eq!(Tag::from_u8(13), None);
    assert_eq!(Tag::from_u8(255), None);
}

#[test]
fn header_layout_is_version_tag_big_endian_length() {
    let bytes = encode(Tag::Request, b"{}").unwrap();
    assert_eq!(bytes, vec![1, 2, 0, 0, 0, 2, b'{', b'}']);
    let empty = encode(Tag::Ping, b"").unwrap();
    assert_eq!(empty, vec![1, 4, 0, 0, 0, 0]);
}

#[test]
fn a_frame_round_trips() {
    let mut buf = Vec::new();
    write_frame(&mut buf, Tag::AuthOk, br#"{"ok":false}"#).unwrap();
    let f = read_frame(&mut ByteReader::new(buf)).unwrap();
    assert_eq!(f.tag, Tag::AuthOk);
    assert_eq!(f.payload, br#"{"ok":false}"#);
}

#[test]
fn only_data_tags_take_the_large_ceiling() {
    assert_eq!(Tag::Request.max_payload(), 16 * 1024 * 1024);
    assert_eq!(Tag::Response.max_payload(), 16 * 1024 * 1024);
    for b in [0u8, 1, 4, 5, 6, 7, 8, 9, 10, 11, 12] {
        assert_eq!(Tag::from_u8(b).unwrap().max_payload(), 64 * 1024);
    }
}

#[test]
fn an_oversized_control_frame_is_refused_on_write() {
    let big = vec![b'a'; MAX_CONTROL_PAYLOAD + 1];
    let err = encode(Tag::Auth, &big).unwrap_err();
    assert_eq!(err.kind, ErrorKind::Protocol);
    assert!(encode(Tag::Request, &big).is_ok());
}

#[test]
fn an_oversized_declared_length_is_refused_before_reading_the_payload() {
    let mut head = vec![1u8, 9];
    head.extend_from_slice(&((MAX_CONTROL_PAYLOAD as u32) + 1).to_be_bytes());
    let err = read_frame(&mut ByteReader::new(head)).unwrap_err();
    assert_eq!(err.kind, ErrorKind::Protocol);
    assert!(err.message.contains("limit"), "{}", err.message);

    let mut data = vec![1u8, 3];
    data.extend_from_slice(&((MAX_DATA_PAYLOAD as u32) + 1).to_be_bytes());
    assert_eq!(
        read_frame(&mut ByteReader::new(data)).unwrap_err().kind,
        ErrorKind::Protocol
    );
}

#[test]
fn a_newer_frame_version_is_refused() {
    let bytes = vec![2u8, 3, 0, 0, 0, 0];
    let err = read_frame(&mut ByteReader::new(bytes)).unwrap_err();
    assert!(err.message.contains("version 2"), "{}", err.message);
}

#[test]
fn an_unknown_tag_is_refused() {
    let bytes = vec![1u8, 42, 0, 0, 0, 0];
    let err = read_frame(&mut ByteReader::new(bytes)).unwrap_err();
    assert!(
        err.message.contains("unknown frame tag 42"),
        "{}",
        err.message
    );
}

#[test]
fn a_truncated_payload_is_an_io_error() {
    let bytes = vec![1u8, 3, 0, 0, 0, 10, b'{'];
    let err = read_frame(&mut ByteReader::new(bytes)).unwrap_err();
    assert_eq!(err.kind, ErrorKind::Io);
}

#[test]
fn frames_are_read_one_after_the_other() {
    let mut buf = Vec::new();
    write_frame(&mut buf, Tag::Pong, b"").unwrap();
    write_frame(&mut buf, Tag::Response, b"[1]").unwrap();
    buf.push(9);
    let mut reader = ByteReader::new(buf);
    assert_eq!(read_frame(&mut reader).unwrap().tag, Tag::Pong);
    let second = read_frame(&mut reader).unwrap();
    assert_eq!(second.payload, b"[1]");
    assert_eq!(reader.remaining(), 1);
    let err = read_frame(&mut reader).unwrap_err();
    assert_eq!(err.message, "the server closed the connection mid-frame");
    assert_eq!(reader.remaining(), 0);
}

#[test]
fn a_refused_frame_appends_nothing() {
    let mut buf = vec![7u8];
    let big = vec![0u8; MAX_CONTROL_PAYLOAD + 1];
    let err = write_frame(&mut buf, Tag::Ping, &big).unwrap_err();
    assert_eq!(
        err.message,
        "refusing to send a 65537-byte Ping frame: the protocol caps it at 65536 bytes"
    );
    assert_eq!(buf, vec![7u8]);
}

#[test]
fn a_header_says_what_follows_it() {
    let header = read_header(&[1, 3, 0, 1, 2, 3]).unwrap();
    assert_eq!(header.tag, Tag::Response);
    assert_eq!(header.len, 66051);
    let err = read_header(&[1, 9, 0, 1, 0, 1]).unwrap_err();
    assert_eq!(
        err.message,
        "AuthOk frame declares a 65537-byte payload, above its 65536-byte limit"
    );
    let err = read_header(&[3, 9, 0, 0, 0, 0]).unwrap_err();
    assert_eq!(
        err.message,
        "frame header version 3 is newer than this client can read (max 1)"
    );
    assert_eq!(HEADER_LEN, 6);
    assert_eq!(read_header(&[0, 4, 0, 0, 0, 0]).unwrap().tag, Tag::Ping);
}
