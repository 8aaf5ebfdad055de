//! Frame layout: `version: u8 | tag: u8 | payload_len: u32 (big-endian) | payload`.
//!
//! Size ceilings are enforced in both directions and before a payload byte is
//! read, so a hostile or wrong-port peer cannot make this client allocate a
//! declared 4 GiB payload.

use crate::error::{Error, ErrorKind, IoFailure, Result};
#[allow(unused_imports)]
use crate::error::{io_error, plain, ErrorView};
use crate::text;
use vstd::prelude::*;

verus! {

/// The frame header format version this client writes and the highest it reads.
pub const FRAME_VERSION: u8 = 1;

/// Length of the fixed frame header in bytes.
pub const HEADER_LEN: usize = 6;

/// Payload ceiling for `REQUEST` and `RESPONSE` frames (16 MiB).
pub const MAX_DATA_PAYLOAD: usize = 16 * 1024 * 1024;

/// Payload ceiling for every other (control) frame (64 KiB).
pub const MAX_CONTROL_PAYLOAD: usize = 64 * 1024;

/// A frame tag as it appears on the wire.
#[derive(Debug, Clone, Copy, PartialEq, Eq, Hash, Structural)]
#[non_exhaustive]
pub enum Tag {
    /// Client handshake request.
    Hello,
    /// Client credentials.
    Auth,
    /// Client request envelope.
    Request,
    /// Server response envelope.
    Response,
    /// Client liveness probe.
    Ping,
    /// Server answer to `Ping`.
    Pong,
    /// Server connection-level refusal.
    Error,
    /// Client asks to end the session.
    Close,
    /// Server answer to `Hello`.
    HelloOk,
    /// Server answer to `Auth`, successful or not.
    AuthOk,
    /// Server acknowledgement of `Close`.
    Bye,
    /// Client asks the server to stop a running statement.
    Cancel,
    /// Server answer to `Cancel`.
    CancelOk,
}

/// The wire byte of a tag.
pub open spec fn tag_byte(tag: Tag) -> u8 {
    match tag {
        Tag::Hello => 0,
        Tag::Auth => 1,
        Tag::Request => 2,
        Tag::Response => 3,
        Tag::Ping => 4,
        Tag::Pong => 5,
        Tag::Error => 6,
        Tag::Close => 7,
        Tag::HelloOk => 8,
        Tag::AuthOk => 9,
        Tag::Bye => 10,
        Tag::Cancel => 11,
        Tag::CancelOk => 12,
    }
}

/// The name of a tag.
pub open spec fn tag_name(tag: Tag) -> Seq<char> {
    match tag {
        Tag::Hello => "Hello"@,
        Tag::Auth => "Auth"@,
        Tag::Request => "Request"@,
        Tag::Response => "Response"@,
        Tag::Ping => "Ping"@,
        Tag::Pong => "Pong"@,
        Tag::Error => "Error"@,
        Tag::Close => "Close"@,
        Tag::HelloOk => "HelloOk"@,
        Tag::AuthOk => "AuthOk"@,
        Tag::Bye => "Bye"@,
        Tag::Cancel => "Cancel"@,
        Tag::CancelOk => "CancelOk"@,
    }
}

/// The largest payload of a frame with this tag.
pub open spec fn payload_limit(tag: Tag) -> nat {
    match tag {
        Tag::Request => MAX_DATA_PAYLOAD as nat,
        Tag::Response => MAX_DATA_PAYLOAD as nat,
        _ => MAX_CONTROL_PAYLOAD as nat,
    }
}

/// A length as four bytes, the most significant first.
pub open spec fn big_endian(n: nat) -> Seq<u8> {
    seq![
        (n / 0x100_0000 % 0x100) as u8,
        (n / 0x1_0000 % 0x100) as u8,
        (n / 0x100 % 0x100) as u8,
        (n % 0x100) as u8,
    ]
}

/// The length that four bytes spell, the most significant first.
pub open spec fn big_endian_value(a: u8, b: u8, c: u8, d: u8) -> nat {
    (a as nat) * 0x100_0000 + (b as nat) * 0x1_0000 + (c as nat) * 0x100 + (d as nat)
}

/// The bytes of a frame.
pub open spec fn frame_bytes(tag: Tag, payload: Seq<u8>) -> Seq<u8> {
    seq![FRAME_VERSION, tag_byte(tag)] + big_endian(payload.len()) + payload
}

/// The refusal to send a payload of this size.
pub open spec fn too_large(tag: Tag, len: nat) -> ErrorView {
    plain(
        ErrorKind::Protocol,
        "refusing to send a "@ + text::decimal(len) + "-byte "@ + tag_name(tag)
            + " frame: the protocol caps it at "@ + text::decimal(payload_limit(tag)) + " bytes"@,
    )
}

/// What a frame header announces.
pub struct HeaderView {
    pub tag: Tag,
    pub len: nat,
}

/// The tag that a wire byte stands for, if any.
pub open spec fn tag_of(b: u8) -> Option<Tag> {
    match b {
        0 => Some(Tag::Hello),
        1 => Some(Tag::Auth),
        2 => Some(Tag::Request),
        3 => Some(Tag::Response),
        4 => Some(Tag::Ping),
        5 => Some(Tag::Pong),
        6 => Some(Tag::Error),
        7 => Some(Tag::Close),
        8 => Some(Tag::HelloOk),
        9 => Some(Tag::AuthOk),
        10 => Some(Tag::Bye),
        11 => Some(Tag::Cancel),
        12 => Some(Tag::CancelOk),
        _ => None,
    }
}

/// What six header bytes announce, or why they are refused.
pub open spec fn header(h: Seq<u8>) -> std::result::Result<HeaderView, ErrorView> {
    if h[0] > FRAME_VERSION {
        Err(
            plain(
                ErrorKind::Protocol,
                "frame header version "@ + text::decimal(h[0] as nat)
                    + " is newer than this client can read (max "@ + text::decimal(
                    FRAME_VERSION as nat,
                ) + ")"@,
            ),
        )
    } else {
        match tag_of(h[1]) {
            None => Err(
                plain(ErrorKind::Protocol, "unknown frame tag "@ + text::decimal(h[1] as nat)),
            ),
            Some(tag) => {
                let len = big_endian_value(h[2], h[3], h[4], h[5]);
                if len > payload_limit(tag) {
                    Err(
                        plain(
                            ErrorKind::Protocol,
                            tag_name(tag) + " frame declares a "@ + text::decimal(len)
                                + "-byte payload, above its "@ + text::decimal(payload_limit(tag))
                                + "-byte limit"@,
                        ),
                    )
                } else {
                    Ok(HeaderView { tag, len })
                }
            },
        }
    }
}

/// What a frame holds.
#[verifier::ext_equal]
pub struct FrameView {
    pub tag: Tag,
    pub payload: Seq<u8>,
}

/// The failure of a stream that ends within a frame.
pub open spec fn cut_short() -> ErrorView {
    io_error(IoFailure::UnexpectedEof, ""@)
}

/// The frame at the front of a stream of bytes, or why there is none.
pub open spec fn first_frame(stream: Seq<u8>) -> std::result::Result<FrameView, ErrorView> {
    if stream.len() < HEADER_LEN {
        Err(cut_short())
    } else {
        match header(stream.take(HEADER_LEN as int)) {
            Err(e) => Err(e),
            Ok(h) => if stream.len() < HEADER_LEN + h.len {
                Err(cut_short())
            } else {
                Ok(
                    FrameView {
                        tag: h.tag,
                        payload: stream.subrange(HEADER_LEN as int, HEADER_LEN + h.len),
                    },
                )
            },
        }
    }
}

/// What is left of a stream after a frame was read from its front.
pub open spec fn after_frame(stream: Seq<u8>) -> Seq<u8> {
    if stream.len() < HEADER_LEN {
        Seq::empty()
    } else {
        match header(stream.take(HEADER_LEN as int)) {
            Err(_) => stream.skip(HEADER_LEN as int),
            Ok(h) => if stream.len() < HEADER_LEN + h.len {
                Seq::empty()
            } else {
                stream.skip(HEADER_LEN + h.len)
            },
        }
    }
}

/// A wire byte and its tag determine each other.
pub proof fn tag_bytes_are_distinct(a: Tag, b: Tag)
    requires
        tag_byte(a) == tag_byte(b),
    ensures
        a == b,
{
}

/// Every tag comes back from its wire byte.
pub proof fn tag_round_trips(tag: Tag)
    ensures
        tag_of(tag_byte(tag)) == Some(tag),
{
}

/// A known wire byte comes back from its tag.
pub proof fn byte_round_trips(b: u8)
    requires
        b <= 12,
    ensures
        tag_of(b) is Some,
        tag_byte(tag_of(b)->0) == b,
{
}

proof fn big_endian_round_trips(n: nat)
    requires
        n < 0x1_0000_0000,
    ensures
        big_endian_value(big_endian(n)[0], big_endian(n)[1], big_endian(n)[2], big_endian(n)[3]) == n,
{
    assert(n == (n / 0x100_0000) * 0x100_0000 + (n / 0x1_0000 % 0x100) * 0x1_0000 + (n / 0x100 % 0x100) * 0x100 + n
        % 0x100);
}

/// A frame that was encoded is read back as it was, whatever follows it in the
/// stream, and what follows it is left for the next read.
pub proof fn encoded_frame_reads_back(tag: Tag, payload: Seq<u8>, rest: Seq<u8>)
    requires
        payload.len() <= payload_limit(tag),
    ensures
        first_frame(frame_bytes(tag, payload) + rest) == Ok::<FrameView, ErrorView>(
            FrameView { tag, payload },
        ),
        after_frame(frame_bytes(tag, payload) + rest) == rest,
{
    let stream = frame_bytes(tag, payload) + rest;
    let h = stream.take(HEADER_LEN as int);
    let len = big_endian(payload.len());
    assert(h[2] == len[0] && h[3] == len[1] && h[4] == len[2] && h[5] == len[3]);
    big_endian_round_trips(payload.len());
    tag_round_trips(tag);
    assert(stream.subrange(HEADER_LEN as int, HEADER_LEN + payload.len()) =~= payload);
    assert(stream.skip(HEADER_LEN + payload.len()) =~= rest);
}

/// A header that is refused is refused whatever follows it: no payload byte is
/// looked at.
pub proof fn bad_header_is_refused_unread(h: Seq<u8>, rest: Seq<u8>)
    requires
        h.len() == HEADER_LEN,
        header(h) is Err,
    ensures
        first_frame(h + rest) == Err::<FrameView, ErrorView>(header(h)->Err_0),
        after_frame(h + rest) == rest,
{
    assert((h + rest).take(HEADER_LEN as int) =~= h);
    assert((h + rest).skip(HEADER_LEN as int) =~= rest);
}

/// No frame that is read carries more than its tag allows.
pub proof fn read_frames_keep_their_ceiling(stream: Seq<u8>)
    ensures
        first_frame(stream) matches Ok(f) ==> f.payload.len() <= payload_limit(f.tag),
{
}

impl Tag {
    /// The wire byte for this tag.
    pub fn as_u8(self) -> (b: u8)
        ensures
            b == tag_byte(self),
    {
        match self {
            Tag::Hello => 0,
            Tag::Auth => 1,
            Tag::Request => 2,
            Tag::Response => 3,
            Tag::Ping => 4,
            Tag::Pong => 5,
            Tag::Error => 6,
            Tag::Close => 7,
            Tag::HelloOk => 8,
            Tag::AuthOk => 9,
            Tag::Bye => 10,
            Tag::Cancel => 11,
            Tag::CancelOk => 12,
        }
    }

    /// Parse a wire byte, or `None` for a tag this client does not know.
    pub fn from_u8(b: u8) -> (r: Option<Tag>)
        ensures
            r == tag_of(b),
    {
        let tag = match b {
            0 => Tag::Hello,
            1 => Tag::Auth,
            2 => Tag::Request,
            3 => Tag::Response,
            4 => Tag::Ping,
            5 => Tag::Pong,
            6 => Tag::Error,
            7 => Tag::Close,
            8 => Tag::HelloOk,
            9 => Tag::AuthOk,
            10 => Tag::Bye,
            11 => Tag::Cancel,
            12 => Tag::CancelOk,
            _ => return None,
        };
        Some(tag)
    }

    /// The largest payload a frame with this tag may carry.
    pub fn max_payload(self) -> (n: usize)
        ensures
            n == payload_limit(self),
    {
        match self {
            Tag::Request | Tag::Response => MAX_DATA_PAYLOAD,
            _ => MAX_CONTROL_PAYLOAD,
        }
    }

    /// The name of the tag.
    pub fn name(self) -> (s: &'static str)
        ensures
            s@ == tag_name(self),
    {
        match self {
            Tag::Hello => "Hello",
            Tag::Auth => "Auth",
            Tag::Request => "Request",
            Tag::Response => "Response",
            Tag::Ping => "Ping",
            Tag::Pong => "Pong",
            Tag::Error => "Error",
            Tag::Close => "Close",
            Tag::HelloOk => "HelloOk",
            Tag::AuthOk => "AuthOk",
            Tag::Bye => "Bye",
            Tag::Cancel => "Cancel",
            Tag::CancelOk => "CancelOk",
        }
    }
}

/// One decoded frame.
#[derive(Debug, Clone, PartialEq, Eq)]
pub struct Frame {
    /// The frame's tag.
    pub tag: Tag,
    /// The raw payload (UTF-8 JSON, or empty).
    pub payload: Vec<u8>,
}

impl View for Frame {
    type V = FrameView;

    open spec fn view(&self) -> FrameView {
        FrameView { tag: self.tag, payload: self.payload@ }
    }
}

/// Encode a frame into bytes, refusing a payload above the tag's ceiling.
pub fn encode(tag: Tag, payload: &[u8]) -> (r: Result<Vec<u8>>)
    ensures
        match r {
            Ok(bytes) => payload@.len() <= payload_limit(tag) && bytes@ == frame_bytes(tag, payload@),
            Err(e) => payload@.len() > payload_limit(tag) && e@ == too_large(tag, payload@.len()),
        },
{
    let limit: usize = tag.max_payload();
    let len: usize = payload.len();
    if len > limit {
        let mut message = "refusing to send a ".to_owned();
        text::push_decimal(&mut message, len as u128);
        message.append("-byte ");
        message.append(tag.name());
        message.append(" frame: the protocol caps it at ");
        text::push_decimal(&mut message, limit as u128);
        message.append(" bytes");
        return Err(Error::protocol(message.as_str()));
    }
    let mut out: Vec<u8> = Vec::with_capacity(HEADER_LEN + len);
    out.push(FRAME_VERSION);
    out.push(tag.as_u8());
    out.push((len / 0x100_0000 % 0x100) as u8);
    out.push((len / 0x1_0000 % 0x100) as u8);
    out.push((len / 0x100 % 0x100) as u8);
    out.push((len % 0x100) as u8);
    out.extend_from_slice(payload);
    assert(out@ =~= frame_bytes(tag, payload@));
    Ok(out)
}

/// Append one frame to the bytes that wait to be sent. A refused frame appends
/// nothing.
pub fn write_frame(out: &mut Vec<u8>, tag: Tag, payload: &[u8]) -> (r: Result<()>)
    ensures
        match r {
            Ok(_) => payload@.len() <= payload_limit(tag) && final(out)@ == old(out)@ + frame_bytes(
                tag,
                payload@,
            ),
            Err(e) => payload@.len() > payload_limit(tag) && e@ == too_large(tag, payload@.len())
                && final(out)@ == old(out)@,
        },
{
    match encode(tag, payload) {
        Ok(bytes) => {
            out.extend_from_slice(bytes.as_slice());
            Ok(())
        },
        Err(e) => Err(e),
    }
}

/// What the six bytes of a frame header announce.
#[derive(Debug, Clone, Copy, PartialEq, Eq)]
pub struct FrameHeader {
    /// The frame's tag.
    pub tag: Tag,
    /// How many payload bytes follow.
    pub len: usize,
}

/// Read the header of a frame: its version, tag and size are checked before a
/// byte of the payload is read.
pub fn read_header(head: &[u8; 6]) -> (r: Result<FrameHeader>)
    ensures
        match r {
            Ok(h) => header(head@) == Ok::<HeaderView, ErrorView>(
                HeaderView { tag: h.tag, len: h.len as nat },
            ),
            Err(e) => header(head@) == Err::<HeaderView, ErrorView>(e@),
        },
{
    let version: u8 = head[0];
    if version > FRAME_VERSION {
        let mut message = "frame header version ".to_owned();
        text::push_decimal(&mut message, version as u128);
        message.append(" is newer than this client can read (max ");
        text::push_decimal(&mut message, FRAME_VERSION as u128);
        message.append(")");
        return Err(Error::protocol(message.as_str()));
    }
    let tag = match Tag::from_u8(head[1]) {
        Some(tag) => tag,
        None => {
            let mut message = "unknown frame tag ".to_owned();
            text::push_decimal(&mut message, head[1] as u128);
            return Err(Error::protocol(message.as_str()));
        },
    };
    let len: u64 = (head[2] as u64) * 0x100_0000 + (head[3] as u64) * 0x1_0000 + (head[4] as u64)
        * 0x100 + (head[5] as u64);
    if len > tag.max_payload() as u64 {
        let mut message = tag.name().to_owned();
        message.append(" frame declares a ");
        text::push_decimal(&mut message, len as u128);
        message.append("-byte payload, above its ");
        text::push_decimal(&mut message, tag.max_payload() as u128);
        message.append("-byte limit");
        return Err(Error::protocol(message.as_str()));
    }
    Ok(FrameHeader { tag, len: len as usize })
}

/// Received bytes that were not read yet.
pub struct ByteReader {
    bytes: Vec<u8>,
    at: usize,
}

impl View for ByteReader {
    type V = Seq<u8>;

    closed spec fn view(&self) -> Seq<u8> {
        self.bytes@.skip(self.at as int)
    }
}

impl ByteReader {
    #[verifier::type_invariant]
    spec fn well_formed(self) -> bool {
        self.at <= self.bytes@.len()
    }

    /// A reader of these bytes.
    pub fn new(bytes: Vec<u8>) -> (r: ByteReader)
        ensures
            r@ == bytes@,
    {
        assert(bytes@.skip(0) =~= bytes@);
        ByteReader { bytes, at: 0 }
    }

    /// How many bytes are left.
    pub fn remaining(&self) -> (n: usize)
        ensures
            n == self@.len(),
    {
        proof {
            use_type_invariant(self);
        }
        self.bytes.len() - self.at
    }

    /// Takes bytes from the front. All that is left goes when there are fewer.
    fn take(&mut self, n: usize) -> (r: Option<Vec<u8>>)
        ensures
            match r {
                Some(v) => n <= old(self)@.len() && v@ == old(self)@.take(n as int) && final(self)@ == old(
                    self,
                )@.skip(n as int),
                None => n > old(self)@.len() && final(self)@ == Seq::<u8>::empty(),
            },
    {
        proof {
            use_type_invariant(&*self);
        }
        let total: usize = self.bytes.len();
        let left: usize = self.remaining();
        if n > left {
            self.at = self.bytes.len();
            assert(self@ =~= Seq::<u8>::empty());
            return None;
        }
        let mut out: Vec<u8> = Vec::with_capacity(n);
        let start: usize = self.at;
        let mut i: usize = 0;
        while i < n
            invariant
                i <= n,
                start + n <= total == self.bytes@.len(),
                out@ == self.bytes@.subrange(start as int, start + i),
            decreases n - i,
        {
            out.push(self.bytes[start + i]);
            i = i + 1;
            assert(out@ =~= self.bytes@.subrange(start as int, start + i));
        }
        self.at = start + n;
        assert(out@ =~= old(self)@.take(n as int));
        assert(self@ =~= old(self)@.skip(n as int));
        Some(out)
    }
}

/// Read one frame, validating version, tag and size before reading the payload.
pub fn read_frame(r: &mut ByteReader) -> (res: Result<Frame>)
    ensures
        match res {
            Ok(f) => first_frame(old(r)@) == Ok::<FrameView, ErrorView>(f@),
            Err(e) => first_frame(old(r)@) == Err::<FrameView, ErrorView>(e@),
        },
        final(r)@ == after_frame(old(r)@),
{
    let head = match r.take(HEADER_LEN) {
        Some(head) => head,
        None => {
            return Err(Error::from_io(IoFailure::UnexpectedEof, ""));
        },
    };
    let head: [u8; 6] = [head[0], head[1], head[2], head[3], head[4], head[5]];
    assert(head@ =~= old(r)@.take(HEADER_LEN as int));
    let h = match read_header(&head) {
        Ok(h) => h,
        Err(e) => {
            return Err(e);
        },
    };
    match r.take(h.len) {
        Some(payload) => {
            assert(payload@ =~= old(r)@.subrange(HEADER_LEN as int, HEADER_LEN + h.len));
            assert(r@ =~= old(r)@.skip(HEADER_LEN + h.len));
            Ok(Frame { tag: h.tag, payload })
        },
        None => Err(Error::from_io(IoFailure::UnexpectedEof, "")),
    }
}

/// The tags are numbered in this order, from zero, and no other number is a tag.
pub proof fn tags_are_numbered_in_order(tag: Tag, b: u8)
    ensures
        tag_byte(tag) < 13,
        seq![
            Tag::Hello,
            Tag::Auth,
            Tag::Request,
            Tag::Response,
            Tag::Ping,
            Tag::Pong,
            Tag::Error,
            Tag::Close,
            Tag::HelloOk,
            Tag::AuthOk,
            Tag::Bye,
            Tag::Cancel,
            Tag::CancelOk,
        ][tag_byte(tag) as int] == tag,
        tag_of(b) is Some <==> b < 13,
        tag_of(b) matches Some(t) ==> seq![
            Tag::Hello,
            Tag::Auth,
            Tag::Request,
            Tag::Response,
            Tag::Ping,
            Tag::Pong,
            Tag::Error,
            Tag::Close,
            Tag::HelloOk,
            Tag::AuthOk,
            Tag::Bye,
            Tag::Cancel,
            Tag::CancelOk,
        ][b as int] == t,
        tag_name(Tag::Hello) == "Hello"@,
        tag_name(Tag::Auth) == "Auth"@,
        tag_name(Tag::Request) == "Request"@,
        tag_name(Tag::Response) == "Response"@,
        tag_name(Tag::Ping) == "Ping"@,
        tag_name(Tag::Pong) == "Pong"@,
        tag_name(Tag::Error) == "Error"@,
        tag_name(Tag::Close) == "Close"@,
        tag_name(Tag::HelloOk) == "HelloOk"@,
        tag_name(Tag::AuthOk) == "AuthOk"@,
        tag_name(Tag::Bye) == "Bye"@,
        tag_name(Tag::Cancel) == "Cancel"@,
        tag_name(Tag::CancelOk) == "CancelOk"@,
{
    let all = seq![
        Tag::Hello,
        Tag::Auth,
        Tag::Request,
        Tag::Response,
        Tag::Ping,
        Tag::Pong,
        Tag::Error,
        Tag::Close,
        Tag::HelloOk,
        Tag::AuthOk,
        Tag::Bye,
        Tag::Cancel,
        Tag::CancelOk,
    ];
    assert(all[tag_byte(tag) as int] == tag);
}

/// Requests and responses may be large, and every other frame is small.
pub proof fn only_data_frames_may_be_large(tag: Tag)
    ensures
        tag == Tag::Request || tag == Tag::Response ==> payload_limit(tag) == 0x100_0000,
        tag != Tag::Request && tag != Tag::Response ==> payload_limit(tag) == 0x1_0000,
{
}

/// A frame is a version, a tag, the length of the payload from its highest byte down,
/// and the payload.
pub proof fn a_frame_is_laid_out_in_order(tag: Tag, payload: Seq<u8>)
    requires
        payload.len() < 0x1_0000_0000,
    ensures
        frame_bytes(tag, payload).len() == 6 + payload.len(),
        frame_bytes(tag, payload)[0] == 1,
        frame_bytes(tag, payload)[1] == tag_byte(tag),
        ((frame_bytes(tag, payload)[2] * 0x100 + frame_bytes(tag, payload)[3]) * 0x100
            + frame_bytes(tag, payload)[4]) * 0x100 + frame_bytes(tag, payload)[5]
            == payload.len(),
        frame_bytes(tag, payload).skip(6) == payload,
{
    let bytes = frame_bytes(tag, payload);
    let len = big_endian(payload.len());
    assert(bytes[2] == len[0] && bytes[3] == len[1] && bytes[4] == len[2] && bytes[5] == len[3]);
    big_endian_round_trips(payload.len());
    assert(bytes.skip(6) =~= payload);
}

/// A header is accepted exactly when its version is not newer than this one, its tag
/// is known, and the length that it declares is within the limit of that tag.
pub proof fn a_header_says_what_follows(h: Seq<u8>)
    requires
        h.len() == 6,
    ensures
        header(h) is Ok <==> {
            &&& h[0] <= 1
            &&& h[1] < 13
            &&& ((h[2] * 0x100 + h[3]) * 0x100 + h[4]) * 0x100 + h[5] <= payload_limit(
                tag_of(h[1])->0,
            )
        },
        header(h) matches Ok(v) ==> {
            &&& tag_byte(v.tag) == h[1]
            &&& v.len == ((h[2] * 0x100 + h[3]) * 0x100 + h[4]) * 0x100 + h[5]
        },
        header(h) matches Err(e) ==> e.kind == ErrorKind::Protocol && e.code is None
            && e.leader_hint is None,
        h[0] > 1 ==> header(h)->Err_0.message == "frame header version "@ + text::integer(
            h[0] as int,
        ) + " is newer than this client can read (max "@ + text::integer(1) + ")"@,
        h[0] <= 1 && h[1] >= 13 ==> header(h)->Err_0.message == "unknown frame tag "@
            + text::integer(h[1] as int),
{
    if h[1] <= 12 {
        byte_round_trips(h[1]);
    }
}

/// A stream that ends before a frame does is told as one that was closed, and nothing
/// of it is left.
pub proof fn a_cut_frame_is_a_closed_stream(tag: Tag, payload: Seq<u8>, n: int)
    requires
        payload.len() <= payload_limit(tag),
        0 <= n < frame_bytes(tag, payload).len(),
    ensures
        first_frame(frame_bytes(tag, payload).take(n)) is Err,
        first_frame(frame_bytes(tag, payload).take(n))->Err_0.kind == ErrorKind::Io,
        first_frame(frame_bytes(tag, payload).take(n))->Err_0.message
            == "the server closed the connection mid-frame"@,
        after_frame(frame_bytes(tag, payload).take(n)).len() == 0,
{
    if n >= HEADER_LEN {
        let whole = frame_bytes(tag, payload);
        encoded_frame_reads_back(tag, payload, Seq::empty());
        assert(whole + Seq::<u8>::empty() =~= whole);
        assert(whole.take(n).take(HEADER_LEN as int) =~= whole.take(HEADER_LEN as int));
        let h = whole.take(HEADER_LEN as int);
        let len = big_endian(payload.len());
        assert(h[2] == len[0] && h[3] == len[1] && h[4] == len[2] && h[5] == len[3]);
        big_endian_round_trips(payload.len());
        tag_round_trips(tag);
    }
}

/// A payload above its limit is refused by its size, its tag and the limit.
pub proof fn a_large_frame_is_refused_by_its_size(tag: Tag, len: nat)
    ensures
        too_large(tag, len).kind == ErrorKind::Protocol,
        too_large(tag, len).message == "refusing to send a "@ + text::integer(len as int) + "-byte "@
            + tag_name(tag) + " frame: the protocol caps it at "@ + text::integer(
            payload_limit(tag) as int,
        ) + " bytes"@,
{
}

/// A frame is its tag and the bytes of its payload.
pub proof fn a_frame_is_its_tag_and_payload(f: Frame)
    ensures
        f@.tag == f.tag,
        f@.payload == f.payload@,
{
}

/// A header that declares too much is refused by what it declares and by the limit.
pub proof fn a_header_that_declares_too_much_is_refused(h: Seq<u8>, tag: Tag)
    requires
        h.len() == 6,
        h[0] <= 1,
        h[1] == tag_byte(tag),
        ((h[2] * 0x100 + h[3]) * 0x100 + h[4]) * 0x100 + h[5] > payload_limit(tag),
    ensures
        header(h) == Err::<HeaderView, ErrorView>(
            plain(
                ErrorKind::Protocol,
                tag_name(tag) + " frame declares a "@ + text::integer(
                    ((h[2] * 0x100 + h[3]) * 0x100 + h[4]) * 0x100 + h[5],
                ) + "-byte payload, above its "@ + text::integer(payload_limit(tag) as int)
                    + "-byte limit"@,
            ),
        ),
{
    tag_round_trips(tag);
}

/// What a reader has left is what follows the bytes it has read.
proof fn a_reader_has_the_rest_left(r: ByteReader)
    requires
        r.at <= r.bytes@.len(),
    ensures
        r@.len() == r.bytes@.len() - r.at,
        forall|i: int| 0 <= i < r@.len() ==> #[trigger] r@[i] == r.bytes@[r.at + i],
{
}

/// A frame that is all there is read whole: its payload is what follows the header, as
/// long as the header says, and what follows the payload is left.
pub proof fn a_frame_is_as_long_as_its_header_says(
    h: Seq<u8>,
    payload: Seq<u8>,
    rest: Seq<u8>,
    tag: Tag,
)
    requires
        h.len() == 6,
        header(h) == Ok::<HeaderView, ErrorView>(HeaderView { tag, len: payload.len() }),
    ensures
        first_frame(h + payload + rest) == Ok::<FrameView, ErrorView>(FrameView { tag, payload }),
        after_frame(h + payload + rest) == rest,
{
    let stream = h + payload + rest;
    assert(stream.take(6) =~= h);
    assert(stream.subrange(6, 6 + payload.len() as int) =~= payload);
    assert(stream.skip(6 + payload.len() as int) =~= rest);
}

/// What `encode` and `write_frame` give: the frame, when the payload is within its limit.
pub proof fn a_frame_is_encoded_when_it_fits(
    tag: Tag,
    payload: &[u8],
    r: Result<Vec<u8>>,
    out: &mut Vec<u8>,
    w: Result<()>,
)
    ensures
        call_ensures(encode, (tag, payload), r) ==> (r is Ok <==> payload@.len() <= payload_limit(
            tag,
        )),
        call_ensures(encode, (tag, payload), r) ==> (r matches Ok(bytes) ==> bytes@ == frame_bytes(
            tag,
            payload@,
        )),
        call_ensures(write_frame, (out, tag, payload), w) ==> (w is Ok <==> payload@.len()
            <= payload_limit(tag)),
        call_ensures(write_frame, (out, tag, payload), w) ==> final(out)@ == if w is Ok {
            old(out)@ + frame_bytes(tag, payload@)
        } else {
            old(out)@
        },
{
}

/// What two calls have to do with one another: a frame that was encoded is read back by
/// `read_frame`, and what follows it is left.
pub proof fn an_encoded_frame_is_read_back(
    tag: Tag,
    payload: &[u8],
    bytes: Vec<u8>,
    r: &mut ByteReader,
    rest: Seq<u8>,
    f: Result<Frame>,
)
    requires
        call_ensures(encode, (tag, payload), Ok(bytes)),
        old(r)@ == bytes@ + rest,
        call_ensures(read_frame, (r,), f),
    ensures
        f is Ok,
        f->Ok_0.tag == tag,
        f->Ok_0.payload@ == payload@,
        final(r)@ == rest,
{
    encoded_frame_reads_back(tag, payload@, rest);
}

/// What the tags tell of themselves, each read back from its number.
pub proof fn tags_tell_what_they_are(tag: Tag, b: u8, r: Option<Tag>, n: usize)
    ensures
        call_ensures(Tag::as_u8, (tag,), b) && call_ensures(Tag::from_u8, (b,), r) ==> r == Some(tag),
        call_ensures(Tag::max_payload, (tag,), n) ==> n == if tag == Tag::Request || tag
            == Tag::Response {
            16 * 1024 * 1024
        } else {
            64 * 1024
        },
{
    tag_round_trips(tag);
}

} // verus!
