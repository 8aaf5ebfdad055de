//! One session with a server: a connection plus a completed handshake.
//!
//! The session decides which bytes go to the socket and what the bytes that
//! come back mean. Whoever holds the socket writes what a call returns, reads
//! one frame, and hands that frame, or the failure to get it, to the matching
//! reply.

use crate::body;
use crate::body::Body;
use crate::codec;
use crate::decode;
use crate::decode::Decode;
use crate::error::{Error, ErrorKind, IoFailure, Result};
#[allow(unused_imports)]
use crate::error::{coded, io_error, is_fatal, plain, ErrorView};
use crate::frame;
use crate::frame::{Frame, Tag};
#[allow(unused_imports)]
use crate::frame::{
    encoded_frame_reads_back, first_frame, frame_bytes, payload_limit, tag_name, too_large,
    FrameView,
};
use crate::json::{Json, JsonTree, Object};
#[allow(unused_imports)]
use crate::json::{as_text, member, wrapped};
use crate::options::{Duration, Options, FEATURE_SERVER_PARAMS, FEATURE_SESSION_TXN};
#[allow(unused_imports)]
use crate::options::{announced, bound_of};
use crate::response;
use crate::response::{Response, WireResponse};
#[allow(unused_imports)]
use crate::response::{assembled, body_of, outcome, parse_view, ResponseView};
use crate::text;
use crate::wire;
use vstd::prelude::*;
#[allow(unused_imports)]
use vstd::utf8::encode_utf8;

verus! {

/// The protocol named in the handshake.
pub const PROTOCOL_NAME: &'static str = "tricore";

/// The major version of the protocol.
pub const PROTOCOL_VERSION: u64 = 1;

/// How many seconds [`Client::close`] waits for the server's goodbye before
/// dropping the socket. The goodbye is optional; the teardown is not.
pub const CLOSE_TIMEOUT_SECS: u64 = 2;

/// One session with a TriCoreDB server.
///
/// A connection is a single request/response stream, so every call takes
/// `&mut self`. Use a [`crate::Pool`] for concurrency.
#[derive(Debug)]
pub struct Client {
    database: String,
    session_id: Option<String>,
    granted_features: u64,
    txn_open: bool,
    request_counter: u64,
    request_id_prefix: String,
    last_request_id: Option<String>,
    request_timeout_ms: Option<u64>,
    read_timeout: Option<Duration>,
    /// Set once this connection can no longer be used. Every later call fails
    /// with the same error rather than reading the previous reply as the next
    /// answer.
    fault: Option<Error>,
    closed: bool,
}

/// What a [`Client`] knows of its session.
#[verifier::ext_equal]
pub struct ClientView {
    pub database: Seq<char>,
    pub session_id: Option<Seq<char>>,
    pub granted_features: u64,
    pub txn_open: bool,
    pub request_counter: u64,
    pub request_id_prefix: Seq<char>,
    pub last_request_id: Option<Seq<char>>,
    pub request_timeout_ms: Option<u64>,
    pub read_timeout: Option<Duration>,
    pub fault: Option<ErrorView>,
    pub closed: bool,
}

/// What an optional error holds.
pub open spec fn fault_view(fault: Option<Error>) -> Option<ErrorView> {
    match fault {
        Some(e) => Some(e@),
        None => None,
    }
}

impl Client {
    /// What the client knows.
    pub closed spec fn spec_view(&self) -> ClientView {
        ClientView {
            database: self.database@,
            session_id: text::opt_view(self.session_id),
            granted_features: self.granted_features,
            txn_open: self.txn_open,
            request_counter: self.request_counter,
            request_id_prefix: self.request_id_prefix@,
            last_request_id: text::opt_view(self.last_request_id),
            request_timeout_ms: self.request_timeout_ms,
            read_timeout: self.read_timeout,
            fault: fault_view(self.fault),
            closed: self.closed,
        }
    }
}

impl View for Client {
    type V = ClientView;

    open spec fn view(&self) -> ClientView {
        self.spec_view()
    }
}

/// A session before its handshake.
pub open spec fn fresh(database: Seq<char>, prefix: Seq<char>) -> ClientView {
    ClientView {
        database,
        session_id: None,
        granted_features: 0,
        txn_open: false,
        request_counter: 0,
        request_id_prefix: prefix,
        last_request_id: None,
        request_timeout_ms: None,
        read_timeout: None,
        fault: None,
        closed: false,
    }
}

/// The bytes that a call returned, or its error.
pub open spec fn bytes_view(r: Result<Vec<u8>>) -> std::result::Result<Seq<u8>, ErrorView> {
    match r {
        Ok(b) => Ok(b@),
        Err(e) => Err(e@),
    }
}

/// The reply that came back, or the failure to get it.
pub open spec fn reply_view(r: Result<Frame>) -> std::result::Result<FrameView, ErrorView> {
    match r {
        Ok(f) => Ok(f@),
        Err(e) => Err(e@),
    }
}

/// Why nothing can be sent on a session, if nothing can.
pub open spec fn unusable(c: ClientView) -> Option<ErrorView> {
    match c.fault {
        Some(fault) => Some(
            plain(
                ErrorKind::Closed,
                "this connection was dropped after an earlier failure and cannot be reused: "@
                    + fault.message,
            ),
        ),
        None => if c.closed {
            Some(plain(ErrorKind::Closed, "this connection is closed"@))
        } else {
            None
        },
    }
}

/// The payload of a frame: the text of a value, or nothing.
pub open spec fn payload_bytes(payload: Option<JsonTree>) -> Seq<u8> {
    match payload {
        Some(t) => encode_utf8(codec::json_text(t)),
        None => Seq::empty(),
    }
}

/// The frame to write for a payload, or why none is written.
pub open spec fn outgoing(
    c: ClientView,
    tag: Tag,
    payload: Option<JsonTree>,
) -> std::result::Result<Seq<u8>, ErrorView> {
    match unusable(c) {
        Some(e) => Err(e),
        None => {
            let body = payload_bytes(payload);
            if body.len() > payload_limit(tag) {
                Err(too_large(tag, body.len()))
            } else {
                Ok(frame_bytes(tag, body))
            }
        },
    }
}

/// Whether these bytes are a frame whose payload is read as this value.
pub open spec fn carries(bytes: Seq<u8>, tag: Tag, t: JsonTree) -> bool {
    match first_frame(bytes) {
        Ok(f) => f.tag == tag && codec::parsed(f.payload) == Ok::<JsonTree, Seq<char>>(t),
        Err(_) => false,
    }
}

/// A session after an error that its connection cannot outlive. The first such
/// error stays.
pub open spec fn poisoned(c: ClientView, e: ErrorView) -> ClientView {
    match c.fault {
        Some(_) => c,
        None => ClientView { fault: Some(e), txn_open: false, ..c },
    }
}

/// A session after an error: a fatal one ends it.
pub open spec fn after_error(c: ClientView, e: ErrorView) -> ClientView {
    if is_fatal(e.kind) {
        poisoned(c, e)
    } else {
        c
    }
}

/// A session after a reply was read: no reply at all ends it, and so does a
/// reply that turns out to be a fatal error.
pub open spec fn after_reply<T>(
    c: ClientView,
    reply: std::result::Result<FrameView, ErrorView>,
    meaning: std::result::Result<T, ErrorView>,
) -> ClientView {
    match reply {
        Err(e) => poisoned(c, e),
        Ok(_) => match meaning {
            Err(e) => after_error(c, e),
            Ok(_) => c,
        },
    }
}

/// A reply with an unexpected tag.
pub open spec fn unexpected_tag(wanted: Seq<char>, tag: Tag) -> ErrorView {
    plain(ErrorKind::Protocol, "expected "@ + wanted + ", got "@ + tag_name(tag))
}

/// The text of a member, when it is there and not empty.
pub open spec fn filled(t: JsonTree, name: Seq<char>) -> Option<Seq<char>> {
    match member(t, name) {
        Some(x) => match as_text(x) {
            Some(s) => if s.len() > 0 {
                Some(s)
            } else {
                None
            },
            None => None,
        },
        None => None,
    }
}

/// The human-readable text of an `ERROR` frame.
pub open spec fn refusal_text(
    payload: Seq<u8>,
    parsed: std::result::Result<JsonTree, Seq<char>>,
) -> Seq<char> {
    if payload.len() == 0 {
        "the server refused the connection without saying why"@
    } else {
        match parsed {
            Err(_) => text::lossy_text(payload),
            Ok(t) => match filled(t, "message"@) {
                Some(s) => s,
                None => match filled(t, "error"@) {
                    Some(s) => s,
                    None => codec::json_text(t),
                },
            },
        }
    }
}

/// The machine-readable code of an `ERROR` frame, when it carries one.
pub open spec fn refusal_code(
    parsed: std::result::Result<JsonTree, Seq<char>>,
) -> Option<Seq<char>> {
    match parsed {
        Err(_) => None,
        Ok(t) => filled(t, "code"@),
    }
}

/// The error that an `ERROR` frame stands for.
pub open spec fn refusal(
    kind: ErrorKind,
    payload: Seq<u8>,
    parsed: std::result::Result<JsonTree, Seq<char>>,
) -> ErrorView {
    coded(kind, refusal_text(payload, parsed), refusal_code(parsed))
}

fn filled_member(value: &Json, name: &str) -> (r: Option<String>)
    ensures
        text::opt_view(r) == filled(value@, name@),
{
    match value.get(name) {
        Some(x) => match x.as_str() {
            Some(s) => if s.is_empty() {
                None
            } else {
                Some(s.to_owned())
            },
            None => None,
        },
        None => None,
    }
}

/// The human-readable text of an `ERROR` frame, from its payload and what that
/// was parsed into.
pub fn error_text_of(payload: &[u8], parsed: &std::result::Result<Json, String>) -> (s: String)
    ensures
        s@ == refusal_text(payload@, parse_view(*parsed)),
{
    if payload.len() == 0 {
        return "the server refused the connection without saying why".to_owned();
    }
    match parsed {
        Err(_) => text::from_utf8_lossy(payload),
        Ok(value) => match filled_member(value, "message") {
            Some(s) => s,
            None => match filled_member(value, "error") {
                Some(s) => s,
                None => codec::render(value),
            },
        },
    }
}

/// The machine-readable code of an `ERROR` frame, from what its payload was
/// parsed into.
pub fn error_code_of(parsed: &std::result::Result<Json, String>) -> (r: Option<String>)
    ensures
        text::opt_view(r) == refusal_code(parse_view(*parsed)),
{
    match parsed {
        Err(_) => None,
        Ok(value) => filled_member(value, "code"),
    }
}

/// The human-readable text of an `ERROR` frame.
pub fn error_text(payload: &[u8]) -> (s: String)
    ensures
        s@ == refusal_text(payload@, codec::parsed(payload@)),
{
    error_text_of(payload, &codec::parse(payload))
}

/// The machine-readable code of an `ERROR` frame, when it carries one.
pub fn error_code(payload: &[u8]) -> (r: Option<String>)
    ensures
        text::opt_view(r) == refusal_code(codec::parsed(payload@)),
{
    error_code_of(&codec::parse(payload))
}

fn refused(
    kind: ErrorKind,
    payload: &[u8],
    parsed: &std::result::Result<Json, String>,
) -> (e: Error)
    ensures
        e@ == refusal(kind, payload@, parse_view(*parsed)),
{
    Error::new(kind, error_text_of(payload, parsed).as_str()).with_code_opt(error_code_of(parsed))
}

fn wrong_tag(wanted: &str, tag: Tag) -> (e: Error)
    ensures
        e@ == unexpected_tag(wanted@, tag),
{
    let mut message = "expected ".to_owned();
    message.append(wanted);
    message.append(", got ");
    message.append(tag.name());
    Error::protocol(message.as_str())
}

/// A prefix that makes a connection's request ids unique among every other
/// connection the same principal holds.
pub open spec fn connection_prefix_text(process: nat, stamp: nat, sequence: nat) -> Seq<char> {
    text::hexadecimal(process) + text::hexadecimal(stamp) + text::hexadecimal(sequence)
}

/// A prefix that makes this connection's request ids unique among every other
/// connection the same principal holds.
///
/// The server's cancel registry is keyed by request id **scoped to the
/// principal**, and it stops every entry that matches. With a bare per-connection
/// counter, a pool's connections all issue a `-1`, and one cancel would stop all
/// of them. Uniqueness is the requirement, not unguessability: the id is
/// guessable by construction and every lookup is already scoped to the principal.
pub fn connection_prefix(process: u32, stamp: u64, sequence: u64) -> (s: String)
    ensures
        s@ == connection_prefix_text(process as nat, stamp as nat, sequence as nat),
{
    let mut out = String::new();
    text::push_hexadecimal(&mut out, process as u64);
    text::push_hexadecimal(&mut out, stamp);
    text::push_hexadecimal(&mut out, sequence);
    assert(out@ =~= connection_prefix_text(process as nat, stamp as nat, sequence as nat));
    out
}

/// The id of a request.
pub open spec fn request_id_text(prefix: Seq<char>, counter: nat) -> Seq<char> {
    "rs-"@ + prefix + "-"@ + text::decimal(counter)
}

/// A session that has sent a request under the next request id.
pub open spec fn counted(c: ClientView) -> ClientView {
    let n = (c.request_counter + 1) as u64;
    ClientView {
        request_counter: n,
        last_request_id: Some(request_id_text(c.request_id_prefix, n as nat)),
        ..c
    }
}

/// A session that has taken the next request id and sent nothing under it.
pub open spec fn attempted(c: ClientView) -> ClientView {
    ClientView { last_request_id: c.last_request_id, ..counted(c) }
}

/// The envelope of a request.
pub open spec fn envelope(c: ClientView, op: JsonTree) -> JsonTree {
    let base = Map::<Seq<char>, JsonTree>::empty().insert(
        "request_id"@,
        JsonTree::Text(c.last_request_id->0),
    ).insert("database"@, JsonTree::Text(c.database)).insert("op"@, op);
    match c.request_timeout_ms {
        Some(ms) => JsonTree::Object(
            base.insert(
                "options"@,
                wrapped("timeout_ms"@, JsonTree::Number(text::integer(ms as int))),
            ),
        ),
        None => JsonTree::Object(base),
    }
}

/// What sending an operation returns: the frame of its request, under the next
/// request id.
pub open spec fn request_bytes(c: ClientView, op: JsonTree) -> std::result::Result<
    Seq<u8>,
    ErrorView,
> {
    outgoing(counted(c), Tag::Request, Some(envelope(counted(c), op)))
}

/// Whether an operation can be read by whoever gets its request: all of them
/// can but those that are nested too deeply.
pub open spec fn legible(op: JsonTree) -> bool {
    codec::readable(op, (codec::NESTING - 1) as nat)
}

/// Whether a call sent this operation: it took the next request id and returned
/// the frame of the request, from which a legible operation is read as it is.
/// Without a frame nothing was sent, and the id of the last request stays.
pub open spec fn sends(
    before: ClientView,
    after: ClientView,
    op: JsonTree,
    r: Result<Vec<u8>>,
) -> bool {
    &&& after == (if r is Ok {
        counted(before)
    } else {
        attempted(before)
    })
    &&& bytes_view(r) == request_bytes(before, op)
    &&& r is Ok && legible(op) ==> carries(r->Ok_0@, Tag::Request, envelope(after, op))
}

proof fn envelopes_are_readable(c: ClientView, op: JsonTree)
    requires
        legible(op),
    ensures
        codec::readable(envelope(c, op), codec::NESTING as nat),
{
    reveal_strlit("request_id");
    reveal_strlit("database");
    reveal_strlit("op");
    reveal_strlit("options");
    codec::names_no_number("request_id"@);
    codec::names_no_number("database"@);
    codec::names_no_number("op"@);
    codec::names_no_number("options"@);
    let n = codec::NESTING as nat;
    let none = Map::<Seq<char>, JsonTree>::empty();
    let id = JsonTree::Text(c.last_request_id->0);
    let database = JsonTree::Text(c.database);
    let one = none.insert("request_id"@, id);
    let two = one.insert("database"@, database);
    codec::readable_when_empty(n);
    codec::readable_with(none, "request_id"@, id, n);
    codec::readable_with(one, "database"@, database, n);
    codec::readable_with(two, "op"@, op, n);
    match c.request_timeout_ms {
        Some(ms) => {
            let number = JsonTree::Number(text::integer(ms as int));
            reveal_strlit("timeout_ms");
            codec::names_no_number("timeout_ms"@);
            codec::readable_when_empty((n - 1) as nat);
            codec::readable_with(none, "timeout_ms"@, number, (n - 1) as nat);
            let options = wrapped("timeout_ms"@, number);
            codec::readable_with(two.insert("op"@, op), "options"@, options, n);
        },
        None => {},
    }
}

/// Whether a call refused its arguments with this error and changed nothing.
pub open spec fn declines(
    before: ClientView,
    after: ClientView,
    e: ErrorView,
    r: Result<Vec<u8>>,
) -> bool {
    after == before && bytes_view(r) == Err::<Seq<u8>, ErrorView>(e)
}

/// What a result is, by the model of its value.
pub open spec fn model_view<T: Decode>(r: Result<T>) -> std::result::Result<T::V, ErrorView> {
    match r {
        Ok(x) => Ok(x.model()),
        Err(e) => Err(e@),
    }
}

/// Whether a call took the answer to a request: it returned what the response
/// means, and ended the session when there was no response or a fatal error in
/// it.
pub open spec fn answered<T>(
    before: ClientView,
    after: ClientView,
    reply: std::result::Result<FrameView, ErrorView>,
    meaning: spec_fn(ResponseView) -> std::result::Result<T, ErrorView>,
    r: std::result::Result<T, ErrorView>,
) -> bool {
    match response_result(reply) {
        Err(e) => r == Err::<T, ErrorView>(e) && after == after_reply(
            before,
            reply,
            response_result(reply),
        ),
        Ok(x) => r == meaning(x) && after == (match meaning(x) {
            Err(e) => after_error(before, e),
            Ok(_) => before,
        }),
    }
}

/// What the frame that answers a request means, with what its payload was
/// parsed into.
pub open spec fn response_meaning(
    f: FrameView,
    parsed: std::result::Result<JsonTree, Seq<char>>,
) -> std::result::Result<ResponseView, ErrorView> {
    match f.tag {
        Tag::Response => match body_of::<WireResponse>(parsed, "RESPONSE"@) {
            Err(e) => Err(e),
            Ok(w) => outcome(assembled(w)),
        },
        Tag::Error => Err(refusal(ErrorKind::Refused, f.payload, parsed)),
        other => Err(unexpected_tag("RESPONSE"@, other)),
    }
}

/// The `HELLO` payload.
pub open spec fn hello_tree(client_name: Seq<char>, features: u64) -> JsonTree {
    JsonTree::Object(
        Map::<Seq<char>, JsonTree>::empty().insert("protocol"@, JsonTree::Text(PROTOCOL_NAME@)).insert(
            "version"@,
            JsonTree::Object(
                Map::<Seq<char>, JsonTree>::empty().insert(
                    "major"@,
                    JsonTree::Number(text::integer(PROTOCOL_VERSION as int)),
                ).insert("minor"@, JsonTree::Number(text::integer(0))),
            ),
        ).insert("client"@, JsonTree::Text(client_name)).insert(
            "features"@,
            JsonTree::Number(text::integer(features as int)),
        ),
    )
}

/// The `AUTH` payload.
pub open spec fn auth_tree(user: Seq<char>, secret: Seq<char>) -> JsonTree {
    JsonTree::Object(
        Map::<Seq<char>, JsonTree>::empty().insert("username"@, JsonTree::Text(user)).insert(
            "secret"@,
            wire::bytes_tree(encode_utf8(secret)),
        ),
    )
}

/// The `CANCEL` payload.
pub open spec fn cancel_tree(request_id: Seq<char>) -> JsonTree {
    wrapped("request_id"@, JsonTree::Text(request_id))
}

proof fn cancel_is_readable(request_id: Seq<char>)
    ensures
        codec::readable(cancel_tree(request_id), codec::NESTING as nat),
{
    reveal_strlit("request_id");
    codec::names_no_number("request_id"@);
    let n = codec::NESTING as nat;
    codec::readable_when_empty(n);
    codec::readable_with(
        Map::<Seq<char>, JsonTree>::empty(),
        "request_id"@,
        JsonTree::Text(request_id),
        n,
    );
}

proof fn hello_is_readable(client_name: Seq<char>, features: u64)
    ensures
        codec::readable(hello_tree(client_name, features), codec::NESTING as nat),
{
    reveal_strlit("protocol");
    reveal_strlit("version");
    reveal_strlit("major");
    reveal_strlit("minor");
    reveal_strlit("client");
    reveal_strlit("features");
    codec::names_no_number("protocol"@);
    codec::names_no_number("version"@);
    codec::names_no_number("major"@);
    codec::names_no_number("minor"@);
    codec::names_no_number("client"@);
    codec::names_no_number("features"@);
    let n = codec::NESTING as nat;
    let none = Map::<Seq<char>, JsonTree>::empty();
    let major = JsonTree::Number(text::integer(PROTOCOL_VERSION as int));
    let minor = JsonTree::Number(text::integer(0));
    let named = none.insert("major"@, major);
    codec::readable_when_empty((n - 1) as nat);
    codec::readable_with(none, "major"@, major, (n - 1) as nat);
    codec::readable_with(named, "minor"@, minor, (n - 1) as nat);
    let version = JsonTree::Object(named.insert("minor"@, minor));
    let protocol = JsonTree::Text(PROTOCOL_NAME@);
    let client = JsonTree::Text(client_name);
    let one = none.insert("protocol"@, protocol);
    let two = one.insert("version"@, version);
    let three = two.insert("client"@, client);
    codec::readable_when_empty(n);
    codec::readable_with(none, "protocol"@, protocol, n);
    codec::readable_with(one, "version"@, version, n);
    codec::readable_with(two, "client"@, client, n);
    codec::readable_with(three, "features"@, JsonTree::Number(text::integer(features as int)), n);
}

proof fn auth_is_readable(user: Seq<char>, secret: Seq<char>)
    ensures
        codec::readable(auth_tree(user, secret), codec::NESTING as nat),
{
    reveal_strlit("username");
    reveal_strlit("secret");
    codec::names_no_number("username"@);
    codec::names_no_number("secret"@);
    let n = codec::NESTING as nat;
    let none = Map::<Seq<char>, JsonTree>::empty();
    let bytes = wire::bytes_tree(encode_utf8(secret));
    codec::readable_array(bytes->Array_0, (n - 1) as nat);
    codec::readable_when_empty(n);
    codec::readable_with(none, "username"@, JsonTree::Text(user), n);
    codec::readable_with(none.insert("username"@, JsonTree::Text(user)), "secret"@, bytes, n);
}

/// The body of a `HELLO_OK` frame.
pub struct HelloOk {
    pub ok: bool,
    pub message: String,
    pub features: u64,
}

/// What a [`HelloOk`] holds.
#[verifier::ext_equal]
pub struct HelloOkView {
    pub ok: bool,
    pub message: Seq<char>,
    pub features: u64,
}

impl Decode for HelloOk {
    type V = HelloOkView;

    open spec fn decoded(t: JsonTree) -> Option<HelloOkView> {
        let ok = decode::or_absent::<bool>(t, 0, "ok"@, false);
        let message = decode::or_absent::<String>(t, 1, "message"@, Seq::empty());
        let features = decode::or_absent::<u64>(t, 2, "features"@, 0);
        if decode::is_record(t, 3) && ok is Some && message is Some && features is Some {
            Some(HelloOkView { ok: ok->0, message: message->0, features: features->0 })
        } else {
            None
        }
    }

    open spec fn model(&self) -> HelloOkView {
        HelloOkView { ok: self.ok, message: self.message@, features: self.features }
    }

    fn decode(j: &Json) -> (r: Option<HelloOk>) {
        if !decode::check_record(j, 3) {
            return None;
        }
        let ok = decode::take_or::<bool>(j, 0, "ok", false)?;
        let message = decode::take_or::<String>(j, 1, "message", String::new())?;
        let features = decode::take_or::<u64>(j, 2, "features", 0)?;
        Some(HelloOk { ok, message, features })
    }
}

impl Body for HelloOk {
    open spec fn repeats(bytes: Seq<u8>) -> bool {
        body::named_twice(bytes, seq!["ok"@, "message"@, "features"@])
    }

    open spec fn essence(bytes: Seq<u8>) -> Seq<u8> {
        body::slim(bytes, seq!["ok"@, "message"@, "features"@])
    }

    fn check(bytes: &[u8]) -> (b: bool) {
        let names = vec!["ok", "message", "features"];
        assert(body::name_views(names@) =~= seq!["ok"@, "message"@, "features"@]);
        body::names_twice(bytes, names.as_slice())
    }

    fn reduce(bytes: &[u8]) -> (r: Vec<u8>) {
        let names = vec!["ok", "message", "features"];
        assert(body::name_views(names@) =~= seq!["ok"@, "message"@, "features"@]);
        body::slimmed(bytes, names.as_slice())
    }
}

/// The body of an `AUTH_OK` frame.
pub struct AuthOk {
    pub ok: bool,
    pub session_id: Option<String>,
    pub message: String,
}

/// What an [`AuthOk`] holds.
#[verifier::ext_equal]
pub struct AuthOkView {
    pub ok: bool,
    pub session_id: Option<Seq<char>>,
    pub message: Seq<char>,
}

impl Decode for AuthOk {
    type V = AuthOkView;

    open spec fn decoded(t: JsonTree) -> Option<AuthOkView> {
        let ok = decode::or_absent::<bool>(t, 0, "ok"@, false);
        let session_id = decode::or_absent::<Option<String>>(t, 1, "session_id"@, None);
        let message = decode::or_absent::<String>(t, 2, "message"@, Seq::empty());
        if decode::is_record(t, 3) && ok is Some && session_id is Some && message is Some {
            Some(AuthOkView { ok: ok->0, session_id: session_id->0, message: message->0 })
        } else {
            None
        }
    }

    open spec fn model(&self) -> AuthOkView {
        AuthOkView { ok: self.ok, session_id: self.session_id.model(), message: self.message@ }
    }

    fn decode(j: &Json) -> (r: Option<AuthOk>) {
        if !decode::check_record(j, 3) {
            return None;
        }
        let ok = decode::take_or::<bool>(j, 0, "ok", false)?;
        let session_id = decode::take_or::<Option<String>>(j, 1, "session_id", None)?;
        let message = decode::take_or::<String>(j, 2, "message", String::new())?;
        Some(AuthOk { ok, session_id, message })
    }
}

impl Body for AuthOk {
    open spec fn repeats(bytes: Seq<u8>) -> bool {
        body::named_twice(bytes, seq!["ok"@, "session_id"@, "message"@])
    }

    open spec fn essence(bytes: Seq<u8>) -> Seq<u8> {
        body::slim(bytes, seq!["ok"@, "session_id"@, "message"@])
    }

    fn check(bytes: &[u8]) -> (b: bool) {
        let names = vec!["ok", "session_id", "message"];
        assert(body::name_views(names@) =~= seq!["ok"@, "session_id"@, "message"@]);
        body::names_twice(bytes, names.as_slice())
    }

    fn reduce(bytes: &[u8]) -> (r: Vec<u8>) {
        let names = vec!["ok", "session_id", "message"];
        assert(body::name_views(names@) =~= seq!["ok"@, "session_id"@, "message"@]);
        body::slimmed(bytes, names.as_slice())
    }
}

/// The body of a `CANCEL_OK` frame.
pub struct CancelOk {
    pub cancelled: u64,
}

impl Decode for CancelOk {
    type V = u64;

    open spec fn decoded(t: JsonTree) -> Option<u64> {
        let cancelled = decode::or_absent::<u64>(t, 0, "cancelled"@, 0);
        if decode::is_record(t, 1) {
            cancelled
        } else {
            None
        }
    }

    open spec fn model(&self) -> u64 {
        self.cancelled
    }

    fn decode(j: &Json) -> (r: Option<CancelOk>) {
        if !decode::check_record(j, 1) {
            return None;
        }
        let cancelled = decode::take_or::<u64>(j, 0, "cancelled", 0)?;
        Some(CancelOk { cancelled })
    }
}

impl Body for CancelOk {
    open spec fn repeats(bytes: Seq<u8>) -> bool {
        body::named_twice(bytes, seq!["cancelled"@])
    }

    open spec fn essence(bytes: Seq<u8>) -> Seq<u8> {
        body::slim(bytes, seq!["cancelled"@])
    }

    fn check(bytes: &[u8]) -> (b: bool) {
        let names = vec!["cancelled"];
        assert(body::name_views(names@) =~= seq!["cancelled"@]);
        body::names_twice(bytes, names.as_slice())
    }

    fn reduce(bytes: &[u8]) -> (r: Vec<u8>) {
        let names = vec!["cancelled"];
        assert(body::name_views(names@) =~= seq!["cancelled"@]);
        body::slimmed(bytes, names.as_slice())
    }
}

/// A refusal in the server's words, or in these when it has none.
pub open spec fn worded(message: Seq<char>, default: Seq<char>) -> Seq<char> {
    if message.len() == 0 {
        default
    } else {
        message
    }
}

/// What the frame that answers `HELLO` means: the granted capabilities, or an
/// error.
pub open spec fn hello_meaning(
    f: FrameView,
    parsed: std::result::Result<JsonTree, Seq<char>>,
) -> std::result::Result<u64, ErrorView> {
    match f.tag {
        Tag::HelloOk => match body_of::<HelloOk>(parsed, "HELLO_OK"@) {
            Err(e) => Err(e),
            Ok(body) => if body.ok {
                Ok(body.features)
            } else {
                Err(
                    plain(
                        ErrorKind::Handshake,
                        worded(body.message, "the server refused the handshake"@),
                    ),
                )
            },
        },
        Tag::Error => Err(refusal(ErrorKind::Handshake, f.payload, parsed)),
        other => Err(unexpected_tag("HELLO_OK"@, other)),
    }
}

/// What the frame that answers `AUTH` means: the session id, if one was
/// assigned, or an error.
pub open spec fn auth_meaning(
    f: FrameView,
    parsed: std::result::Result<JsonTree, Seq<char>>,
) -> std::result::Result<Option<Seq<char>>, ErrorView> {
    match f.tag {
        Tag::AuthOk => match body_of::<AuthOk>(parsed, "AUTH_OK"@) {
            Err(e) => Err(e),
            Ok(body) => if body.ok {
                Ok(body.session_id)
            } else {
                Err(plain(ErrorKind::Auth, worded(body.message, "authentication refused"@)))
            },
        },
        Tag::Error => Err(refusal(ErrorKind::Auth, f.payload, parsed)),
        other => Err(unexpected_tag("AUTH_OK"@, other)),
    }
}

/// What the frame that answers `CANCEL` means: how many statements were
/// stopped, or an error.
pub open spec fn cancel_meaning(
    f: FrameView,
    parsed: std::result::Result<JsonTree, Seq<char>>,
) -> std::result::Result<u64, ErrorView> {
    match f.tag {
        Tag::CancelOk => body_of::<CancelOk>(parsed, "CANCEL_OK"@),
        Tag::Error => Err(refusal(ErrorKind::Refused, f.payload, parsed)),
        other => Err(unexpected_tag("CANCEL_OK"@, other)),
    }
}

/// What the frame that answers `PING` means.
pub open spec fn ping_meaning(
    f: FrameView,
    parsed: std::result::Result<JsonTree, Seq<char>>,
) -> std::result::Result<(), ErrorView> {
    match f.tag {
        Tag::Pong => Ok(()),
        Tag::Error => Err(refusal(ErrorKind::Refused, f.payload, parsed)),
        other => Err(unexpected_tag("PONG"@, other)),
    }
}

/// What the payload of a frame is read as. A body that names one of its fields
/// twice is refused; an `ERROR` frame carries any value, which is read as it is.
pub open spec fn payload_parsed(f: FrameView) -> std::result::Result<JsonTree, Seq<char>> {
    match f.tag {
        Tag::HelloOk => body::strict::<HelloOk>(f.payload),
        Tag::AuthOk => body::strict::<AuthOk>(f.payload),
        Tag::CancelOk => body::strict::<CancelOk>(f.payload),
        Tag::Response => body::strict::<WireResponse>(f.payload),
        _ => codec::parsed(f.payload),
    }
}

/// Reads the payload of a frame.
pub fn read_payload(frame: &Frame) -> (r: std::result::Result<Json, String>)
    ensures
        parse_view(r) == payload_parsed(frame@),
{
    let payload = frame.payload.as_slice();
    match frame.tag {
        Tag::HelloOk => body::parse_strictly::<HelloOk>(payload),
        Tag::AuthOk => body::parse_strictly::<AuthOk>(payload),
        Tag::CancelOk => body::parse_strictly::<CancelOk>(payload),
        Tag::Response => body::parse_strictly::<WireResponse>(payload),
        _ => codec::parse(payload),
    }
}

/// What a reply means: the failure to get one, or what its frame means.
pub open spec fn understood<T>(
    reply: std::result::Result<FrameView, ErrorView>,
    meaning: spec_fn(
        FrameView,
        std::result::Result<JsonTree, Seq<char>>,
    ) -> std::result::Result<T, ErrorView>,
) -> std::result::Result<T, ErrorView> {
    match reply {
        Err(e) => Err(e),
        Ok(f) => meaning(f, payload_parsed(f)),
    }
}

/// What the reply to `HELLO` means.
pub open spec fn hello_result(
    reply: std::result::Result<FrameView, ErrorView>,
) -> std::result::Result<u64, ErrorView> {
    understood(
        reply,
        |f: FrameView,
        p: std::result::Result<JsonTree, Seq<char>>| hello_meaning(f, p),
    )
}

/// What the reply to `AUTH` means.
pub open spec fn auth_result(
    reply: std::result::Result<FrameView, ErrorView>,
) -> std::result::Result<Option<Seq<char>>, ErrorView> {
    understood(
        reply,
        |f: FrameView,
        p: std::result::Result<JsonTree, Seq<char>>| auth_meaning(f, p),
    )
}

/// What the reply to `CANCEL` means.
pub open spec fn cancel_result(
    reply: std::result::Result<FrameView, ErrorView>,
) -> std::result::Result<u64, ErrorView> {
    understood(
        reply,
        |f: FrameView,
        p: std::result::Result<JsonTree, Seq<char>>| cancel_meaning(f, p),
    )
}

/// What the reply to `PING` means.
pub open spec fn ping_result(
    reply: std::result::Result<FrameView, ErrorView>,
) -> std::result::Result<(), ErrorView> {
    understood(
        reply,
        |f: FrameView,
        p: std::result::Result<JsonTree, Seq<char>>| ping_meaning(f, p),
    )
}

/// What the reply to a request means.
pub open spec fn response_result(
    reply: std::result::Result<FrameView, ErrorView>,
) -> std::result::Result<ResponseView, ErrorView> {
    understood(
        reply,
        |f: FrameView, p: std::result::Result<JsonTree, Seq<char>>| response_meaning(f, p),
    )
}

/// Reads the frame that answers `HELLO`.
pub fn read_hello(frame: &Frame, parsed: std::result::Result<Json, String>) -> (r: Result<u64>)
    ensures
        match r {
            Ok(n) => hello_meaning(frame@, parse_view(parsed)) == Ok::<u64, ErrorView>(n),
            Err(e) => hello_meaning(frame@, parse_view(parsed)) == Err::<u64, ErrorView>(e@),
        },
{
    match frame.tag {
        Tag::HelloOk => {
            let body = response::read_body::<HelloOk>(parsed, "HELLO_OK")?;
            if body.ok {
                Ok(body.features)
            } else if body.message.as_str().is_empty() {
                Err(Error::new(ErrorKind::Handshake, "the server refused the handshake"))
            } else {
                Err(Error::new(ErrorKind::Handshake, body.message.as_str()))
            }
        },
        Tag::Error => Err(refused(ErrorKind::Handshake, frame.payload.as_slice(), &parsed)),
        other => Err(wrong_tag("HELLO_OK", other)),
    }
}

/// Reads the frame that answers `AUTH`.
pub fn read_auth(frame: &Frame, parsed: std::result::Result<Json, String>) -> (r: Result<
    Option<String>,
>)
    ensures
        match r {
            Ok(id) => auth_meaning(frame@, parse_view(parsed)) == Ok::<Option<Seq<char>>, ErrorView>(
                text::opt_view(id),
            ),
            Err(e) => auth_meaning(frame@, parse_view(parsed)) == Err::<
                Option<Seq<char>>,
                ErrorView,
            >(e@),
        },
{
    match frame.tag {
        Tag::AuthOk => {
            let body = response::read_body::<AuthOk>(parsed, "AUTH_OK")?;
            // An AUTH_OK-tagged frame carrying `ok: false` is still a refusal: the
            // tag names the answer's shape, not its verdict.
            if body.ok {
                Ok(body.session_id)
            } else if body.message.as_str().is_empty() {
                Err(Error::new(ErrorKind::Auth, "authentication refused"))
            } else {
                Err(Error::new(ErrorKind::Auth, body.message.as_str()))
            }
        },
        Tag::Error => Err(refused(ErrorKind::Auth, frame.payload.as_slice(), &parsed)),
        other => Err(wrong_tag("AUTH_OK", other)),
    }
}

/// Reads the frame that answers `CANCEL`.
pub fn read_cancel(frame: &Frame, parsed: std::result::Result<Json, String>) -> (r: Result<u64>)
    ensures
        match r {
            Ok(n) => cancel_meaning(frame@, parse_view(parsed)) == Ok::<u64, ErrorView>(n),
            Err(e) => cancel_meaning(frame@, parse_view(parsed)) == Err::<u64, ErrorView>(e@),
        },
{
    match frame.tag {
        Tag::CancelOk => {
            let body = response::read_body::<CancelOk>(parsed, "CANCEL_OK")?;
            Ok(body.cancelled)
        },
        Tag::Error => Err(refused(ErrorKind::Refused, frame.payload.as_slice(), &parsed)),
        other => Err(wrong_tag("CANCEL_OK", other)),
    }
}

/// Reads the frame that answers `PING`.
pub fn read_ping(frame: &Frame, parsed: std::result::Result<Json, String>) -> (r: Result<()>)
    ensures
        match r {
            Ok(_) => ping_meaning(frame@, parse_view(parsed)) == Ok::<(), ErrorView>(()),
            Err(e) => ping_meaning(frame@, parse_view(parsed)) == Err::<(), ErrorView>(e@),
        },
{
    match frame.tag {
        Tag::Pong => Ok(()),
        Tag::Error => Err(refused(ErrorKind::Refused, frame.payload.as_slice(), &parsed)),
        other => Err(wrong_tag("PONG", other)),
    }
}

/// Reads the frame that answers a request.
pub fn read_response(frame: &Frame, parsed: std::result::Result<Json, String>) -> (r: Result<
    Response,
>)
    ensures
        match r {
            Ok(x) => response_meaning(frame@, parse_view(parsed)) == Ok::<ResponseView, ErrorView>(
                x@,
            ),
            Err(e) => response_meaning(frame@, parse_view(parsed)) == Err::<
                ResponseView,
                ErrorView,
            >(e@),
        },
{
    match frame.tag {
        Tag::Response => {
            let wire = response::read_body::<WireResponse>(parsed, "RESPONSE")?;
            response::settle(wire)
        },
        Tag::Error => Err(refused(ErrorKind::Refused, frame.payload.as_slice(), &parsed)),
        other => Err(wrong_tag("RESPONSE", other)),
    }
}

/// What is to be done to end a session.
#[derive(Debug)]
pub enum Farewell {
    /// Nothing: the session was ended before.
    Nothing,
    /// Drop the socket.
    Drop,
    /// Within the deadline write these bytes and read one frame, ignoring every
    /// failure, then drop the socket.
    Goodbye { bytes: Vec<u8>, deadline: Duration },
}

/// How far the opening of a session has come.
#[derive(Debug, Clone, Copy, PartialEq, Eq, Structural)]
pub enum Stage {
    /// `HELLO` was written.
    Hello,
    /// `AUTH` was written.
    Auth,
}

/// What the opening of a session asks for next.
#[derive(Debug)]
pub enum Opening {
    /// Within the connect budget write these bytes and read one frame; the
    /// answer belongs to this stage.
    Exchange(Stage, Vec<u8>),
    /// Nothing: the session is open. Each later wait for a reply has this
    /// bound, and no later write has one.
    Open(Option<Duration>),
}

/// What an [`Opening`] holds.
#[verifier::ext_equal]
pub enum OpeningView {
    Exchange(Stage, Seq<u8>),
    Open(Option<Duration>),
}

/// What a step of the opening returned.
pub open spec fn opening_view(r: Result<Opening>) -> std::result::Result<OpeningView, ErrorView> {
    match r {
        Ok(Opening::Exchange(stage, bytes)) => Ok(OpeningView::Exchange(stage, bytes@)),
        Ok(Opening::Open(bound)) => Ok(OpeningView::Open(bound)),
        Err(e) => Err(e@),
    }
}

/// The secret in the options, which is empty when none is there.
pub open spec fn secret_of(options: Options) -> Seq<char> {
    match options.secret {
        Some(secret) => secret@,
        None => Seq::empty(),
    }
}

/// A session that is open, with its bound on each wait for a reply.
pub open spec fn opened(c: ClientView, options: Options) -> ClientView {
    ClientView { read_timeout: bound_of(options.read_timeout), ..c }
}

/// A session that was accepted in the handshake, and what its opening asks for
/// next: the login when the options name a principal, and otherwise nothing.
pub open spec fn greeted(c: ClientView, options: Options) -> (
    ClientView,
    std::result::Result<OpeningView, ErrorView>,
) {
    match options.user {
        None => (opened(c, options), Ok(OpeningView::Open(bound_of(options.read_timeout)))),
        Some(user) => (
            c,
            match outgoing(c, Tag::Auth, Some(auth_tree(user@, secret_of(options)))) {
                Ok(bytes) => Ok(OpeningView::Exchange(Stage::Auth, bytes)),
                Err(e) => Err(e),
            },
        ),
    }
}

/// A session that took the answer to a stage of its opening, and what the
/// opening asks for next.
pub open spec fn advanced(
    c: ClientView,
    options: Options,
    stage: Stage,
    reply: std::result::Result<FrameView, ErrorView>,
) -> (ClientView, std::result::Result<OpeningView, ErrorView>) {
    match stage {
        Stage::Hello => match hello_result(reply) {
            Err(e) => (after_reply(c, reply, hello_result(reply)), Err(e)),
            Ok(features) => greeted(ClientView { granted_features: features, ..c }, options),
        },
        Stage::Auth => match auth_result(reply) {
            Err(e) => (after_reply(c, reply, auth_result(reply)), Err(e)),
            Ok(id) => (
                opened(ClientView { session_id: id, ..c }, options),
                Ok(OpeningView::Open(bound_of(options.read_timeout))),
            ),
        },
    }
}

/// A session that was ended.
pub open spec fn ended(c: ClientView) -> ClientView {
    if c.closed {
        c
    } else {
        ClientView { closed: true, txn_open: false, ..c }
    }
}

/// Whether a transaction is open on a session. A broken connection has none.
pub open spec fn has_transaction(c: ClientView) -> bool {
    c.txn_open && c.fault is None && !c.closed
}

/// A server-side deadline in milliseconds: a span without length is none.
pub open spec fn deadline_ms(timeout: Option<Duration>) -> Option<u64> {
    match bound_of(timeout) {
        Some(d) => Some(
            if d@ / 1_000_000 > u64::MAX {
                u64::MAX
            } else {
                (d@ / 1_000_000) as u64
            },
        ),
        None => None,
    }
}

impl Client {
    /// Begin a session: the client, and the `HELLO` frame to write first.
    ///
    /// The prefix is put into every request id of the session; see
    /// [`connection_prefix`].
    pub fn connect(options: &Options, prefix: &str) -> (r: (Client, Result<Vec<u8>>))
        ensures
            r.0@ == fresh(options.database@, prefix@),
            bytes_view(r.1) == outgoing(
                r.0@,
                Tag::Hello,
                Some(hello_tree(options.client_name@, announced(options.features))),
            ),
            r.1 is Ok ==> carries(
                r.1->Ok_0@,
                Tag::Hello,
                hello_tree(options.client_name@, announced(options.features)),
            ),
    {
        let client = Client {
            database: options.database.clone(),
            session_id: None,
            granted_features: 0,
            txn_open: false,
            request_counter: 0,
            request_id_prefix: prefix.to_owned(),
            last_request_id: None,
            request_timeout_ms: None,
            read_timeout: None,
            fault: None,
            closed: false,
        };
        let hello = client.hello(options.client_name.as_str(), options.announced_features());
        (client, hello)
    }

    fn hello(&self, client_name: &str, features: u64) -> (r: Result<Vec<u8>>)
        ensures
            bytes_view(r) == outgoing(self@, Tag::Hello, Some(hello_tree(client_name@, features))),
            r is Ok ==> carries(r->Ok_0@, Tag::Hello, hello_tree(client_name@, features)),
    {
        proof {
            hello_is_readable(client_name@, features);
        }
        let version = Object::new().with("major", Json::unsigned(PROTOCOL_VERSION)).with(
            "minor",
            Json::unsigned(0),
        );
        let payload = Object::new().with("protocol", Json::text(PROTOCOL_NAME)).with(
            "version",
            Json::Object(version),
        ).with("client", Json::text(client_name)).with("features", Json::unsigned(features));
        self.exchange(Tag::Hello, Some(Json::Object(payload)))
    }

    /// Take the answer to `HELLO`.
    pub fn hello_reply(&mut self, reply: Result<Frame>) -> (r: Result<()>)
        ensures
            match hello_result(reply_view(reply)) {
                Ok(features) => r is Ok && final(self)@ == (ClientView {
                    granted_features: features,
                    ..old(self)@
                }),
                Err(e) => r is Err && r->Err_0@ == e && final(self)@ == after_reply(
                    old(self)@,
                    reply_view(reply),
                    hello_result(reply_view(reply)),
                ),
            },
    {
        let frame = self.received(reply)?;
        let parsed = read_payload(&frame);
        match self.keep(read_hello(&frame, parsed)) {
            Ok(features) => {
                self.granted_features = features;
                Ok(())
            },
            Err(e) => Err(e),
        }
    }

    /// The `AUTH` frame to write after the handshake, when the options name a
    /// principal.
    pub fn login(&self, options: &Options) -> (r: Option<Result<Vec<u8>>>)
        ensures
            r is Some <==> options.user is Some,
            r matches Some(x) ==> bytes_view(x) == outgoing(
                self@,
                Tag::Auth,
                Some(auth_tree(options.user->0@, secret_of(*options))),
            ),
            r is Some && r->0 is Ok ==> carries(
                r->0->Ok_0@,
                Tag::Auth,
                auth_tree(options.user->0@, secret_of(*options)),
            ),
    {
        match &options.user {
            Some(user) => {
                let secret = match &options.secret {
                    Some(secret) => secret.clone(),
                    None => String::new(),
                };
                Some(self.auth(user.as_str(), secret.as_str()))
            },
            None => None,
        }
    }

    fn auth(&self, user: &str, secret: &str) -> (r: Result<Vec<u8>>)
        ensures
            bytes_view(r) == outgoing(self@, Tag::Auth, Some(auth_tree(user@, secret@))),
            r is Ok ==> carries(r->Ok_0@, Tag::Auth, auth_tree(user@, secret@)),
    {
        proof {
            auth_is_readable(user@, secret@);
        }
        let payload = Object::new().with("username", Json::text(user)).with(
            "secret",
            wire::byte_list(secret.as_bytes()),
        );
        self.exchange(Tag::Auth, Some(Json::Object(payload)))
    }

    /// Take the answer to `AUTH`.
    pub fn auth_reply(&mut self, reply: Result<Frame>) -> (r: Result<()>)
        ensures
            match auth_result(reply_view(reply)) {
                Ok(id) => r is Ok && final(self)@ == (ClientView { session_id: id, ..old(self)@ }),
                Err(e) => r is Err && r->Err_0@ == e && final(self)@ == after_reply(
                    old(self)@,
                    reply_view(reply),
                    auth_result(reply_view(reply)),
                ),
            },
    {
        let frame = self.received(reply)?;
        let parsed = read_payload(&frame);
        match self.keep(read_auth(&frame, parsed)) {
            Ok(id) => {
                self.session_id = id;
                Ok(())
            },
            Err(e) => Err(e),
        }
    }

    /// Take the answer to a stage of the opening. After `HELLO` comes `AUTH` when
    /// the options name a principal, and then the session is open.
    pub fn advance(&mut self, options: &Options, stage: Stage, reply: Result<Frame>) -> (r: Result<
        Opening,
    >)
        ensures
            (final(self)@, opening_view(r)) == advanced(
                old(self)@,
                *options,
                stage,
                reply_view(reply),
            ),
    {
        match stage {
            Stage::Hello => {
                self.hello_reply(reply)?;
                match self.login(options) {
                    Some(Ok(bytes)) => {
                        return Ok(Opening::Exchange(Stage::Auth, bytes));
                    },
                    Some(Err(e)) => {
                        return Err(e);
                    },
                    None => {},
                }
            },
            Stage::Auth => {
                self.auth_reply(reply)?;
            },
        }
        Ok(Opening::Open(self.set_read_timeout(options.read_timeout)))
    }

    /// The session id the server assigned, or `None` when the connection never
    /// authenticated.
    pub fn session_id(&self) -> (r: Option<&str>)
        ensures
            self@.session_id == (match r { Some(s) => Some(s@), None => None::<Seq<char>> }),
    {
        text::borrowed(&self.session_id)
    }

    /// The capabilities the server granted in the handshake.
    pub fn granted_features(&self) -> (n: u64)
        ensures
            n == self@.granted_features,
    {
        self.granted_features
    }

    /// Whether the server granted server-side parameter binding.
    pub fn server_params_granted(&self) -> (b: bool)
        ensures
            b == (self@.granted_features & FEATURE_SERVER_PARAMS != 0),
    {
        self.granted_features & FEATURE_SERVER_PARAMS != 0
    }

    /// Whether the server granted session transactions.
    pub fn session_txn_granted(&self) -> (b: bool)
        ensures
            b == (self@.granted_features & FEATURE_SESSION_TXN != 0),
    {
        self.granted_features & FEATURE_SESSION_TXN != 0
    }

    /// Whether a [`Client::begin`] block is open on this connection.
    ///
    /// A broken connection has no transaction: the server rolls one back the
    /// moment the socket goes.
    pub fn in_transaction(&self) -> (b: bool)
        ensures
            b == has_transaction(self@),
    {
        self.txn_open && self.fault.is_none() && !self.closed
    }

    /// Notes whether a transaction is open.
    pub(crate) fn set_txn_open(&mut self, open: bool)
        ensures
            final(self)@ == (ClientView { txn_open: open, ..old(self)@ }),
    {
        self.txn_open = open;
    }

    /// The database named in every request from this connection.
    pub fn database(&self) -> (s: &str)
        ensures
            s@ == self@.database,
    {
        self.database.as_str()
    }

    /// Whether this connection was dropped after a failure it cannot recover
    /// from. A [`crate::Pool`] retires such a connection instead of reusing it.
    pub fn is_poisoned(&self) -> (b: bool)
        ensures
            b == (self@.fault is Some),
    {
        self.fault.is_some()
    }

    /// Bound each later wait for a reply. `None` clears the bound, and so does a
    /// span without length. Returns the bound to put on the socket.
    pub fn set_read_timeout(&mut self, timeout: Option<Duration>) -> (r: Option<Duration>)
        ensures
            r == bound_of(timeout),
            final(self)@ == (ClientView { read_timeout: bound_of(timeout), ..old(self)@ }),
    {
        self.read_timeout = crate::options::bounded(timeout);
        self.read_timeout
    }

    /// The bound on each wait for a reply.
    pub fn read_timeout(&self) -> (r: Option<Duration>)
        ensures
            r == self@.read_timeout,
    {
        self.read_timeout
    }

    /// Stamp a server-side deadline on every later request. `None` clears it.
    ///
    /// This is not the same as [`Client::set_read_timeout`]: abandoning the wait
    /// on this side leaves the server working. This makes the server stop.
    pub fn set_request_timeout(&mut self, timeout: Option<Duration>)
        ensures
            final(self)@ == (ClientView { request_timeout_ms: deadline_ms(timeout), ..old(self)@ }),
    {
        self.request_timeout_ms = match crate::options::bounded(timeout) {
            Some(d) => {
                let ms: u128 = d.as_millis();
                if ms > 0xffff_ffff_ffff_ffffu128 {
                    Some(u64::MAX)
                } else {
                    Some(ms as u64)
                }
            },
            None => None,
        };
    }

    /// The `request_id` most recently sent. Pass it to [`Client::cancel`] from a
    /// *second* connection to stop a running statement.
    pub fn last_request_id(&self) -> (r: Option<&str>)
        ensures
            self@.last_request_id == (match r { Some(s) => Some(s@), None => None::<Seq<char>> }),
    {
        text::borrowed(&self.last_request_id)
    }

    /// Whether there is a request id left to send a request under.
    pub fn ids_left(&self) -> (b: bool)
        ensures
            b == (self@.request_counter < u64::MAX),
    {
        self.request_counter < u64::MAX
    }

    /// Check liveness with a PING/PONG round trip: the frame to write.
    pub fn ping(&mut self) -> (r: Result<Vec<u8>>)
        ensures
            final(self)@ == old(self)@,
            bytes_view(r) == outgoing(old(self)@, Tag::Ping, None),
    {
        self.exchange(Tag::Ping, None)
    }

    /// Take the answer to a [`Client::ping`].
    pub fn ping_reply(&mut self, reply: Result<Frame>) -> (r: Result<()>)
        ensures
            match ping_result(reply_view(reply)) {
                Ok(_) => r is Ok,
                Err(e) => r is Err && r->Err_0@ == e,
            },
            final(self)@ == after_reply(
                old(self)@,
                reply_view(reply),
                ping_result(reply_view(reply)),
            ),
    {
        let frame = self.received(reply)?;
        let parsed = read_payload(&frame);
        self.keep(read_ping(&frame, parsed))
    }

    /// Ask the server to stop one of this principal's running statements: the
    /// frame to write.
    ///
    /// Send this on a **second** connection: the one running the statement is
    /// blocked reading its reply and will not see anything else. The reply says
    /// how many statements were stopped; an unknown id stops none and is not an
    /// error.
    pub fn cancel(&mut self, request_id: &str) -> (r: Result<Vec<u8>>)
        ensures
            final(self)@ == old(self)@,
            bytes_view(r) == (if request_id@.len() == 0 {
                Err(plain(ErrorKind::InvalidArgument, "a request id to cancel must not be empty"@))
            } else {
                outgoing(
                    old(self)@,
                    Tag::Cancel,
                    Some(cancel_tree(request_id@)),
                )
            }),
            r is Ok ==> carries(r->Ok_0@, Tag::Cancel, cancel_tree(request_id@)),
    {
        if request_id.is_empty() {
            return Err(Error::invalid("a request id to cancel must not be empty"));
        }
        proof {
            cancel_is_readable(request_id@);
        }
        self.exchange(Tag::Cancel, Some(Json::wrap("request_id", Json::text(request_id))))
    }

    /// Take the answer to a [`Client::cancel`]: how many statements were
    /// stopped.
    pub fn cancel_reply(&mut self, reply: Result<Frame>) -> (r: Result<u64>)
        ensures
            match cancel_result(reply_view(reply)) {
                Ok(n) => r == Ok::<u64, Error>(n),
                Err(e) => r is Err && r->Err_0@ == e,
            },
            final(self)@ == after_reply(
                old(self)@,
                reply_view(reply),
                cancel_result(reply_view(reply)),
            ),
    {
        let frame = self.received(reply)?;
        let parsed = read_payload(&frame);
        self.keep(read_cancel(&frame, parsed))
    }

    /// Send a raw operation: the frame to write.
    ///
    /// The typed methods cover every operation a client should need; reach for
    /// this only when there is none — an operation that exists to be refused
    /// (`Cache::XGroup`), or one a newer server added ahead of this crate.
    /// Nothing here validates the shape, so a wrong one is refused by the
    /// server rather than by this crate.
    pub fn request(&mut self, op: Json) -> (r: Result<Vec<u8>>)
        requires
            old(self)@.request_counter < u64::MAX,
        ensures
            sends(old(self)@, final(self)@, op@, r),
    {
        self.send(op)
    }

    /// Puts an operation into the envelope of the next request.
    pub fn send(&mut self, op: Json) -> (r: Result<Vec<u8>>)
        requires
            old(self)@.request_counter < u64::MAX,
        ensures
            sends(old(self)@, final(self)@, op@, r),
    {
        let ghost op_tree = op@;
        self.request_counter = self.request_counter + 1;
        let mut request_id = "rs-".to_owned();
        request_id.append(self.request_id_prefix.as_str());
        request_id.append("-");
        text::push_decimal(&mut request_id, self.request_counter as u128);
        let mut envelope = Object::new().with("request_id", Json::Text(request_id.clone())).with(
            "database",
            Json::text(self.database.as_str()),
        ).with("op", op);
        match self.request_timeout_ms {
            Some(ms) => {
                envelope = envelope.with(
                    "options",
                    Json::wrap("timeout_ms", Json::unsigned(ms)),
                );
            },
            None => {},
        }
        proof {
            if legible(op_tree) {
                envelopes_are_readable(counted(old(self)@), op_tree);
            }
        }
        let bytes = self.exchange(Tag::Request, Some(Json::Object(envelope)))?;
        self.last_request_id = Some(request_id);
        Ok(bytes)
    }

    /// Take the answer to a request.
    pub fn reply(&mut self, reply: Result<Frame>) -> (r: Result<Response>)
        ensures
            match response_result(reply_view(reply)) {
                Ok(x) => r is Ok && r->Ok_0@ == x,
                Err(e) => r is Err && r->Err_0@ == e,
            },
            final(self)@ == after_reply(
                old(self)@,
                reply_view(reply),
                response_result(reply_view(reply)),
            ),
    {
        let frame = self.received(reply)?;
        let parsed = read_payload(&frame);
        self.keep(read_response(&frame, parsed))
    }

    /// The frame to write, unless the connection cannot be used or the frame
    /// would be too large.
    fn exchange(&self, tag: Tag, payload: Option<Json>) -> (r: Result<Vec<u8>>)
        ensures
            bytes_view(r) == outgoing(
                self@,
                tag,
                match payload {
                    Some(j) => Some(j@),
                    None => None,
                },
            ),
            r is Ok && payload is Some && codec::readable(payload->0@, codec::NESTING as nat)
                ==> carries(r->Ok_0@, tag, payload->0@),
    {
        match &self.fault {
            Some(fault) => {
                return Err(
                    Error::new(
                        ErrorKind::Closed,
                        text::join(
                            "this connection was dropped after an earlier failure and cannot be reused: ",
                            fault.message.as_str(),
                        ).as_str(),
                    ),
                );
            },
            None => {},
        }
        if self.closed {
            return Err(Error::new(ErrorKind::Closed, "this connection is closed"));
        }
        match payload {
            Some(value) => {
                let text = codec::render(&value);
                let bytes = text.as_str().as_bytes();
                proof {
                    if bytes@.len() <= payload_limit(tag) {
                        let none = Seq::<u8>::empty();
                        assert(frame_bytes(tag, bytes@) + none =~= frame_bytes(tag, bytes@));
                        encoded_frame_reads_back(tag, bytes@, none);
                    }
                }
                frame::encode(tag, bytes)
            },
            None => {
                let empty: Vec<u8> = Vec::new();
                frame::encode(tag, empty.as_slice())
            },
        }
    }

    /// Takes a reply. Without one the connection cannot be used any more: the
    /// reply may still arrive, and reusing the socket would read it as the
    /// answer to the next request.
    fn received(&mut self, reply: Result<Frame>) -> (r: Result<Frame>)
        ensures
            r == reply,
            final(self)@ == (match reply {
                Ok(_) => old(self)@,
                Err(e) => poisoned(old(self)@, e@),
            }),
    {
        match reply {
            Ok(frame) => Ok(frame),
            Err(e) => {
                self.poison(&e);
                Err(e)
            },
        }
    }

    /// Hands a result on. An error that the connection cannot outlive is
    /// recorded first, so that every later call reports it.
    pub(crate) fn keep<T>(&mut self, result: Result<T>) -> (r: Result<T>)
        ensures
            r == result,
            final(self)@ == (match result {
                Ok(_) => old(self)@,
                Err(e) => after_error(old(self)@, e@),
            }),
    {
        match result {
            Ok(x) => Ok(x),
            Err(e) => {
                if e.is_connection_fatal() {
                    self.poison(&e);
                }
                Err(e)
            },
        }
    }

    /// Records an error as fatal.
    fn poison(&mut self, error: &Error)
        ensures
            final(self)@ == poisoned(old(self)@, error@),
    {
        if self.fault.is_none() {
            self.txn_open = false;
            self.fault = Some(error.clone());
        }
    }

    /// End the session politely and release the socket.
    ///
    /// A failure during the goodbye is not reported: the socket closes either
    /// way. Whether the socket closed cleanly is: see [`close_outcome`].
    pub fn close(&mut self) -> (r: Farewell)
        ensures
            final(self)@ == ended(old(self)@),
            match r {
                Farewell::Nothing => old(self)@.closed,
                Farewell::Drop => !old(self)@.closed && old(self)@.fault is Some,
                Farewell::Goodbye { bytes, deadline } => {
                    &&& !old(self)@.closed
                    &&& old(self)@.fault is None
                    &&& bytes@ == frame_bytes(Tag::Close, Seq::empty())
                    &&& deadline@ == CLOSE_TIMEOUT_SECS * 1_000_000_000
                },
            },
    {
        if self.closed {
            return Farewell::Nothing;
        }
        self.closed = true;
        self.txn_open = false;
        if self.fault.is_some() {
            return Farewell::Drop;
        }
        let empty: Vec<u8> = Vec::new();
        match frame::encode(Tag::Close, empty.as_slice()) {
            Ok(bytes) => Farewell::Goodbye {
                bytes,
                deadline: Duration::from_secs(CLOSE_TIMEOUT_SECS),
            },
            Err(_) => Farewell::Drop,
        }
    }

    /// End the session without the goodbye, as when a client goes out of use.
    pub fn abandon(&mut self) -> (r: Farewell)
        ensures
            final(self)@ == ended(old(self)@),
            match r {
                Farewell::Nothing => old(self)@.closed,
                Farewell::Drop => !old(self)@.closed,
                Farewell::Goodbye { .. } => false,
            },
    {
        if self.closed {
            return Farewell::Nothing;
        }
        self.closed = true;
        self.txn_open = false;
        Farewell::Drop
    }
}

/// How the socket of an ended session was closed.
#[derive(Debug)]
pub enum Shutdown {
    /// In both directions.
    Done,
    /// It was gone already.
    Gone,
    /// It was not: this failed, in the system's words.
    Failed(IoFailure, String),
}

/// Whether the socket of an ended session closed cleanly. One that was gone
/// already did.
pub fn close_outcome(shutdown: Shutdown) -> (r: Result<()>)
    ensures
        match shutdown {
            Shutdown::Done => r is Ok,
            Shutdown::Gone => r is Ok,
            Shutdown::Failed(failure, detail) => r is Err && r->Err_0@ == io_error(failure, detail@),
        },
{
    match shutdown {
        Shutdown::Done => Ok(()),
        Shutdown::Gone => Ok(()),
        Shutdown::Failed(failure, detail) => Err(Error::from_io(failure, detail.as_str())),
    }
}

/// Whether a text holds no `-`.
pub open spec fn no_dash(s: Seq<char>) -> bool {
    forall|i: int| 0 <= i < s.len() ==> #[trigger] s[i] != '-'
}

proof fn hexadecimal_has_no_dash(n: nat)
    ensures
        no_dash(text::hexadecimal(n)),
    decreases n,
{
    if n >= 16 {
        hexadecimal_has_no_dash(n / 16);
    }
}

/// The prefix of a connection holds no `-`.
pub proof fn connection_prefix_has_no_dash(process: nat, stamp: nat, sequence: nat)
    ensures
        no_dash(connection_prefix_text(process, stamp, sequence)),
{
    hexadecimal_has_no_dash(process);
    hexadecimal_has_no_dash(stamp);
    hexadecimal_has_no_dash(sequence);
}

/// Two connections have different prefixes, whether one process holds them or
/// two, as long as the process ids and the stamps of both are written with as
/// many digits.
pub proof fn connection_prefixes_are_unique(
    process: nat,
    stamp: nat,
    sequence: nat,
    other_process: nat,
    other_stamp: nat,
    other_sequence: nat,
)
    requires
        text::hexadecimal(process).len() == text::hexadecimal(other_process).len(),
        text::hexadecimal(stamp).len() == text::hexadecimal(other_stamp).len(),
        connection_prefix_text(process, stamp, sequence) == connection_prefix_text(
            other_process,
            other_stamp,
            other_sequence,
        ),
    ensures
        process == other_process,
        stamp == other_stamp,
        sequence == other_sequence,
{
    let a = connection_prefix_text(process, stamp, sequence);
    let b = connection_prefix_text(other_process, other_stamp, other_sequence);
    let p = text::hexadecimal(process).len() as int;
    let q = p + text::hexadecimal(stamp).len();
    assert(a.take(p) =~= text::hexadecimal(process));
    assert(b.take(p) =~= text::hexadecimal(other_process));
    text::hexadecimal_injective(process, other_process);
    assert(a.subrange(p, q) =~= text::hexadecimal(stamp));
    assert(b.subrange(p, q) =~= text::hexadecimal(other_stamp));
    text::hexadecimal_injective(stamp, other_stamp);
    assert(a.skip(q) =~= text::hexadecimal(sequence));
    assert(b.skip(q) =~= text::hexadecimal(other_sequence));
    text::hexadecimal_injective(sequence, other_sequence);
}

/// No two requests have the same id: neither two of one connection nor two of
/// connections with different prefixes.
pub proof fn request_ids_are_unique(
    prefix: Seq<char>,
    counter: nat,
    other_prefix: Seq<char>,
    other_counter: nat,
)
    requires
        no_dash(prefix),
        no_dash(other_prefix),
        request_id_text(prefix, counter) == request_id_text(other_prefix, other_counter),
    ensures
        prefix == other_prefix,
        counter == other_counter,
{
    reveal_strlit("-");
    let start = "rs-"@.len() as int;
    let s = request_id_text(prefix, counter);
    let t = request_id_text(other_prefix, other_counter);
    let n = prefix.len() as int;
    let m = other_prefix.len() as int;
    assert(s[start + n] == '-');
    assert(t[start + m] == '-');
    if n < m {
        assert(t[start + n] == other_prefix[n]);
    }
    if m < n {
        assert(s[start + m] == prefix[m]);
    }
    assert(s.subrange(start, start + n) =~= prefix);
    assert(t.subrange(start, start + m) =~= other_prefix);
    assert(s.skip(start + n + 1) =~= text::decimal(counter));
    assert(t.skip(start + m + 1) =~= text::decimal(other_counter));
    text::decimal_reads_back(counter as int);
    text::decimal_reads_back(other_counter as int);
}

/// A request goes out under an id that no earlier request of the session had,
/// and its envelope holds that id, the database and the operation.
pub proof fn each_request_has_a_new_id(c: ClientView, op: JsonTree, earlier: nat)
    requires
        c.request_counter < u64::MAX,
        earlier <= c.request_counter,
    ensures
        counted(c).last_request_id is Some,
        counted(c).last_request_id->0 != request_id_text(c.request_id_prefix, earlier),
        member(envelope(counted(c), op), "request_id"@) == Some(
            JsonTree::Text(counted(c).last_request_id->0),
        ),
        member(envelope(counted(c), op), "database"@) == Some(JsonTree::Text(c.database)),
        member(envelope(counted(c), op), "op"@) == Some(op),
{
    let n = (c.request_counter + 1) as nat;
    let s = request_id_text(c.request_id_prefix, earlier);
    let t = request_id_text(c.request_id_prefix, n);
    let start = ("rs-"@ + c.request_id_prefix + "-"@).len() as int;
    assert(s.skip(start) =~= text::decimal(earlier));
    assert(t.skip(start) =~= text::decimal(n));
    text::decimal_reads_back(earlier as int);
    text::decimal_reads_back(n as int);
    reveal_strlit("request_id");
    reveal_strlit("database");
    reveal_strlit("op");
    reveal_strlit("options");
    assert("request_id"@.len() != "database"@.len());
    assert("options"@.len() != "database"@.len());
}

/// The last request id names the request that was sent last: one for which no
/// frame was written leaves it, and one that was sent is found under it.
pub proof fn only_a_sent_request_is_remembered(
    before: ClientView,
    after: ClientView,
    op: JsonTree,
    r: Result<Vec<u8>>,
)
    requires
        sends(before, after, op, r),
        before.request_counter < u64::MAX,
    ensures
        r is Err ==> after.last_request_id == before.last_request_id,
        r is Ok ==> member(envelope(after, op), "request_id"@) == Some(
            JsonTree::Text(after.last_request_id->0),
        ) && bytes_view(r) == outgoing(after, Tag::Request, Some(envelope(after, op))),
{
    each_request_has_a_new_id(before, op, 0);
}

/// A session opens only once the server has accepted the handshake and, when
/// the options name a principal, the login.
pub proof fn a_session_opens_only_when_accepted(
    c: ClientView,
    options: Options,
    stage: Stage,
    reply: std::result::Result<FrameView, ErrorView>,
)
    requires
        advanced(c, options, stage, reply).1 matches Ok(OpeningView::Open(_)),
    ensures
        stage == Stage::Hello ==> hello_result(reply) is Ok && options.user is None,
        stage == Stage::Auth ==> auth_result(reply) is Ok,
        advanced(c, options, stage, reply).0.fault == c.fault,
        advanced(c, options, stage, reply).0.read_timeout == bound_of(options.read_timeout),
{
}

/// A session that was dropped or ended sends nothing: every call on it fails
/// with `Closed`, and after a failure with the text of that failure.
pub proof fn a_dropped_session_sends_nothing(c: ClientView, tag: Tag, payload: Option<JsonTree>)
    requires
        c.fault is Some || c.closed,
    ensures
        outgoing(c, tag, payload) is Err,
        outgoing(c, tag, payload)->Err_0.kind == ErrorKind::Closed,
        c.fault matches Some(fault) ==> outgoing(c, tag, payload)->Err_0.message
            == "this connection was dropped after an earlier failure and cannot be reused: "@
            + fault.message,
        !has_transaction(c),
{
}

/// What ended a session stays: no request, no reply and no goodbye makes it
/// usable again, and the first failure is the one that is kept.
pub proof fn a_dropped_session_stays_dropped<T>(
    c: ClientView,
    reply: std::result::Result<FrameView, ErrorView>,
    meaning: std::result::Result<T, ErrorView>,
)
    ensures
        c.fault is Some ==> after_reply(c, reply, meaning).fault == c.fault,
        c.closed ==> after_reply(c, reply, meaning).closed,
        counted(c).fault == c.fault && counted(c).closed == c.closed,
        attempted(c).fault == c.fault && attempted(c).closed == c.closed,
        ended(c).fault == c.fault && ended(c).closed,
{
}

/// A reply that does not come, or that is a fatal error, drops the session:
/// every later call reports that failure instead of taking a late reply for its
/// own.
pub proof fn a_fatal_reply_drops_the_session<T>(
    c: ClientView,
    reply: std::result::Result<FrameView, ErrorView>,
    meaning: std::result::Result<T, ErrorView>,
    tag: Tag,
    payload: Option<JsonTree>,
)
    requires
        c.fault is None,
        reply is Err || (meaning matches Err(e) && is_fatal(e.kind)),
    ensures
        after_reply(c, reply, meaning).fault is Some,
        outgoing(after_reply(c, reply, meaning), tag, payload) is Err,
        outgoing(after_reply(c, reply, meaning), tag, payload)->Err_0.kind == ErrorKind::Closed,
        !has_transaction(after_reply(c, reply, meaning)),
{
}

/// An `ERROR` frame in answer to `PING`, `CANCEL` or a request is a refusal with
/// the server's own text and code, and the session does not outlive it.
pub proof fn an_error_frame_is_a_refusal(
    c: ClientView,
    f: FrameView,
    parsed: std::result::Result<JsonTree, Seq<char>>,
)
    requires
        f.tag == Tag::Error,
        c.fault is None,
    ensures
        ping_meaning(f, parsed) == Err::<(), ErrorView>(
            refusal(ErrorKind::Refused, f.payload, parsed),
        ),
        cancel_meaning(f, parsed) == Err::<u64, ErrorView>(
            refusal(ErrorKind::Refused, f.payload, parsed),
        ),
        response_meaning(f, parsed) == Err::<ResponseView, ErrorView>(
            refusal(ErrorKind::Refused, f.payload, parsed),
        ),
        refusal(ErrorKind::Refused, f.payload, parsed).code == refusal_code(parsed),
        after_reply(c, Ok::<FrameView, ErrorView>(f), response_meaning(f, parsed)).fault is Some,
        after_reply(c, Ok::<FrameView, ErrorView>(f), ping_meaning(f, parsed)).fault is Some,
        after_reply(c, Ok::<FrameView, ErrorView>(f), cancel_meaning(f, parsed)).fault is Some,
{
}

/// A body that names one of its fields twice is refused, whichever of the two
/// would have been good news.
pub proof fn a_body_that_repeats_a_field_is_refused(f: FrameView)
    requires
        f.tag == Tag::HelloOk ==> HelloOk::repeats(f.payload),
        f.tag == Tag::AuthOk ==> AuthOk::repeats(f.payload),
        f.tag == Tag::CancelOk ==> CancelOk::repeats(f.payload),
        f.tag == Tag::Response ==> WireResponse::repeats(f.payload),
    ensures
        hello_meaning(f, payload_parsed(f)) is Err,
        auth_meaning(f, payload_parsed(f)) is Err,
        cancel_meaning(f, payload_parsed(f)) is Err,
        response_meaning(f, payload_parsed(f)) is Err,
{
}

/// A refusal of the request by the server leaves the session as it was: the
/// next request is sent as if nothing had happened.
pub proof fn a_refusal_leaves_the_session_usable(
    c: ClientView,
    f: FrameView,
    meaning: std::result::Result<ResponseView, ErrorView>,
)
    requires
        meaning matches Err(e) && e.kind == ErrorKind::Server,
    ensures
        after_reply(c, Ok::<FrameView, ErrorView>(f), meaning) == c,
{
}

/// The secret travels as its bytes, and each of them comes back.
pub proof fn the_secret_travels_as_bytes(user: Seq<char>, secret: Seq<char>)
    ensures
        member(auth_tree(user, secret), "secret"@) is Some,
        wire::bytes_of(member(auth_tree(user, secret), "secret"@)->0) == Ok::<Seq<u8>, ErrorView>(
            encode_utf8(secret),
        ),
{
    wire::bytes_round_trip(encode_utf8(secret));
}

/// A greeting reply holds what was sent under the name of each field, lists whole and
/// in order.
pub proof fn hello_ok_reads_back(m: Map<Seq<char>, JsonTree>, x: HelloOk)
    requires
        m.dom().contains("ok"@),
        m["ok"@] == JsonTree::Bool(x.ok),
        m.dom().contains("message"@),
        m["message"@] == JsonTree::Text(x.message@),
        m.dom().contains("features"@),
        m["features"@] == JsonTree::Number(crate::text::integer(x.features as int)),
    ensures
        HelloOk::decoded(JsonTree::Object(m)) == Some(x.model()),
        x.model() == (HelloOkView {
            ok: x.ok,
            message: x.message@,
            features: x.features,
        }),
{
    crate::text::decimal_reads_back(x.features as int);
    assert(x.model() =~= (HelloOkView {
        ok: x.ok,
        message: x.message@,
        features: x.features,
    }));
}

/// A greeting reply takes each field from the member of that name alone. A field that was
/// not sent has its default, and one of another kind refuses the whole.
pub proof fn hello_ok_takes_each_field_by_its_name(m: Map<Seq<char>, JsonTree>)
    ensures
        HelloOk::decoded(JsonTree::Object(m)) matches Some(v) ==> {
            &&& if m.dom().contains("ok"@) {
                bool::decoded(m["ok"@]) == Some(v.ok)
            } else {
                v.ok == false
            }
            &&& if m.dom().contains("message"@) {
                String::decoded(m["message"@]) == Some(v.message)
            } else {
                v.message.len() == 0
            }
            &&& if m.dom().contains("features"@) {
                u64::decoded(m["features"@]) == Some(v.features)
            } else {
                v.features == 0
            }
        },
        HelloOk::decoded(JsonTree::Object(m)) is Some <==> {
            &&& m.dom().contains("ok"@) ==> bool::decoded(m["ok"@]) is Some
            &&& m.dom().contains("message"@) ==> String::decoded(m["message"@]) is Some
            &&& m.dom().contains("features"@) ==> u64::decoded(m["features"@]) is Some
        },
{
}

/// A greeting reply written as a list reads as the object that names each item by its place.
/// Too long a list is refused, and so is any other kind of value.
pub proof fn hello_ok_takes_each_item_in_its_place(
    items: Seq<JsonTree>,
    m: Map<Seq<char>, JsonTree>,
    t: JsonTree,
)
    requires
        m.dom().contains("ok"@) <==> 0 < items.len(),
        0 < items.len() ==> m["ok"@] == items[0],
        m.dom().contains("message"@) <==> 1 < items.len(),
        1 < items.len() ==> m["message"@] == items[1],
        m.dom().contains("features"@) <==> 2 < items.len(),
        2 < items.len() ==> m["features"@] == items[2],
    ensures
        items.len() <= 3 ==> HelloOk::decoded(JsonTree::Array(items))
            == HelloOk::decoded(JsonTree::Object(m)),
        items.len() > 3 ==> HelloOk::decoded(JsonTree::Array(items)) is None,
        !(t is Object) && !(t is Array) ==> HelloOk::decoded(t) is None,
{
}

/// A login reply holds what was sent under the name of each field, lists whole and
/// in order.
pub proof fn auth_ok_reads_back(m: Map<Seq<char>, JsonTree>, x: AuthOk)
    requires
        m.dom().contains("ok"@),
        m["ok"@] == JsonTree::Bool(x.ok),
        m.dom().contains("session_id"@),
        m["session_id"@]
            == (match x.session_id {
                Some(y) => JsonTree::Text(y@),
                None => JsonTree::Null,
            }),
        m.dom().contains("message"@),
        m["message"@] == JsonTree::Text(x.message@),
    ensures
        AuthOk::decoded(JsonTree::Object(m)) == Some(x.model()),
        x.model() == (AuthOkView {
            ok: x.ok,
            session_id: (match x.session_id {
                Some(y) => Some(y@),
                None => None,
            }),
            message: x.message@,
        }),
{
    assert(x.model() =~= (AuthOkView {
        ok: x.ok,
        session_id: (match x.session_id {
            Some(y) => Some(y@),
            None => None,
        }),
        message: x.message@,
    }));
}

/// A login reply takes each field from the member of that name alone. A field that was
/// not sent has its default, and one of another kind refuses the whole.
pub proof fn auth_ok_takes_each_field_by_its_name(m: Map<Seq<char>, JsonTree>)
    ensures
        AuthOk::decoded(JsonTree::Object(m)) matches Some(v) ==> {
            &&& if m.dom().contains("ok"@) {
                bool::decoded(m["ok"@]) == Some(v.ok)
            } else {
                v.ok == false
            }
            &&& if m.dom().contains("session_id"@) {
                Option::<String>::decoded(m["session_id"@]) == Some(v.session_id)
            } else {
                v.session_id is None
            }
            &&& if m.dom().contains("message"@) {
                String::decoded(m["message"@]) == Some(v.message)
            } else {
                v.message.len() == 0
            }
        },
        AuthOk::decoded(JsonTree::Object(m)) is Some <==> {
            &&& m.dom().contains("ok"@) ==> bool::decoded(m["ok"@]) is Some
            &&& m.dom().contains("session_id"@)
                ==> Option::<String>::decoded(m["session_id"@]) is Some
            &&& m.dom().contains("message"@) ==> String::decoded(m["message"@]) is Some
        },
{
}

/// A login reply written as a list reads as the object that names each item by its place.
/// Too long a list is refused, and so is any other kind of value.
pub proof fn auth_ok_takes_each_item_in_its_place(
    items: Seq<JsonTree>,
    m: Map<Seq<char>, JsonTree>,
    t: JsonTree,
)
    requires
        m.dom().contains("ok"@) <==> 0 < items.len(),
        0 < items.len() ==> m["ok"@] == items[0],
        m.dom().contains("session_id"@) <==> 1 < items.len(),
        1 < items.len() ==> m["session_id"@] == items[1],
        m.dom().contains("message"@) <==> 2 < items.len(),
        2 < items.len() ==> m["message"@] == items[2],
    ensures
        items.len() <= 3 ==> AuthOk::decoded(JsonTree::Array(items))
            == AuthOk::decoded(JsonTree::Object(m)),
        items.len() > 3 ==> AuthOk::decoded(JsonTree::Array(items)) is None,
        !(t is Object) && !(t is Array) ==> AuthOk::decoded(t) is None,
{
}

/// A cancel reply holds what was sent under the name of each field, lists whole and
/// in order.
pub proof fn cancel_ok_reads_back(m: Map<Seq<char>, JsonTree>, x: CancelOk)
    requires
        m.dom().contains("cancelled"@),
        m["cancelled"@] == JsonTree::Number(crate::text::integer(x.cancelled as int)),
    ensures
        CancelOk::decoded(JsonTree::Object(m)) == Some(x.model()),
        x.model() == x.cancelled,
{
    crate::text::decimal_reads_back(x.cancelled as int);
    assert(x.model() =~= x.cancelled);
}

/// A cancel reply takes each field from the member of that name alone. A field that was
/// not sent has its default, and one of another kind refuses the whole.
pub proof fn cancel_ok_takes_each_field_by_its_name(m: Map<Seq<char>, JsonTree>)
    ensures
        CancelOk::decoded(JsonTree::Object(m)) matches Some(v) ==> {
            &&& if m.dom().contains("cancelled"@) {
                u64::decoded(m["cancelled"@]) == Some(v)
            } else {
                v == 0
            }
        },
        CancelOk::decoded(JsonTree::Object(m)) is Some <==> {
            &&& m.dom().contains("cancelled"@) ==> u64::decoded(m["cancelled"@]) is Some
        },
{
}

/// A cancel reply written as a list reads as the object that names each item by its place.
/// Too long a list is refused, and so is any other kind of value.
pub proof fn cancel_ok_takes_each_item_in_its_place(
    items: Seq<JsonTree>,
    m: Map<Seq<char>, JsonTree>,
    t: JsonTree,
)
    requires
        m.dom().contains("cancelled"@) <==> 0 < items.len(),
        0 < items.len() ==> m["cancelled"@] == items[0],
    ensures
        items.len() <= 1 ==> CancelOk::decoded(JsonTree::Array(items))
            == CancelOk::decoded(JsonTree::Object(m)),
        items.len() > 1 ==> CancelOk::decoded(JsonTree::Array(items)) is None,
        !(t is Object) && !(t is Array) ==> CancelOk::decoded(t) is None,
{
}

/// A session is seen as it is.
proof fn a_session_is_seen_as_it_is(c: Client)
    ensures
        c@.database == c.database@,
        c@.session_id == text::opt_view(c.session_id),
        c@.granted_features == c.granted_features,
        c@.txn_open == c.txn_open,
        c@.request_counter == c.request_counter,
        c@.request_id_prefix == c.request_id_prefix@,
        c@.last_request_id == text::opt_view(c.last_request_id),
        c@.request_timeout_ms == c.request_timeout_ms,
        c@.read_timeout == c.read_timeout,
        c.fault is None <==> c@.fault is None,
        c.fault matches Some(e) ==> c@.fault == Some(e@),
        c@.closed == c.closed,
{
}

/// What a call gives is seen as it is.
pub proof fn results_are_seen_as_they_are<T: Decode>(b: Vec<u8>, f: Frame, e: Error, x: T)
    ensures
        bytes_view(Ok(b)) == Ok::<Seq<u8>, ErrorView>(b@),
        bytes_view(Err(e)) == Err::<Seq<u8>, ErrorView>(e@),
        reply_view(Ok(f)) == Ok::<FrameView, ErrorView>(f@),
        reply_view(Err(e)) == Err::<FrameView, ErrorView>(e@),
        model_view::<T>(Ok(x)) == Ok::<T::V, ErrorView>(x.model()),
        model_view::<T>(Err(e)) == Err::<T::V, ErrorView>(e@),
{
}

/// A new session knows its database and the prefix of its request ids, and nothing
/// else.
pub proof fn a_new_session_knows_only_its_names(database: Seq<char>, prefix: Seq<char>)
    ensures
        fresh(database, prefix).database == database,
        fresh(database, prefix).request_id_prefix == prefix,
        fresh(database, prefix).session_id is None,
        fresh(database, prefix).granted_features == 0,
        !fresh(database, prefix).txn_open,
        fresh(database, prefix).request_counter == 0,
        fresh(database, prefix).last_request_id is None,
        fresh(database, prefix).request_timeout_ms is None,
        fresh(database, prefix).read_timeout is None,
        fresh(database, prefix).fault is None,
        !fresh(database, prefix).closed,
        unusable(fresh(database, prefix)) is None,
{
}

/// A session can be used unless it was dropped or closed, and one that was dropped says
/// what became of it first.
pub proof fn a_session_says_why_it_cannot_be_used(c: ClientView)
    ensures
        unusable(c) is None <==> c.fault is None && !c.closed,
        unusable(c) matches Some(e) ==> {
            &&& e.kind == ErrorKind::Closed
            &&& e.code is None
            &&& e.leader_hint is None
            &&& e.message == match c.fault {
                Some(fault) =>
                    "this connection was dropped after an earlier failure and cannot be reused: "@
                        + fault.message,
                None => "this connection is closed"@,
            }
        },
{
}

/// What is sent is one frame of the payload, when the session can be used and the
/// payload is within its limit.
pub proof fn what_is_sent_is_one_frame(c: ClientView, tag: Tag, t: JsonTree)
    ensures
        unusable(c) matches Some(e) ==> outgoing(c, tag, Some(t)) == Err::<Seq<u8>, ErrorView>(e),
        unusable(c) matches Some(e) ==> outgoing(c, tag, None) == Err::<Seq<u8>, ErrorView>(e),
        unusable(c) is None ==> outgoing(c, tag, None) == Ok::<Seq<u8>, ErrorView>(
            frame_bytes(tag, Seq::empty()),
        ),
        unusable(c) is None && encode_utf8(codec::json_text(t)).len() <= payload_limit(tag)
            ==> outgoing(c, tag, Some(t)) == Ok::<Seq<u8>, ErrorView>(
            frame_bytes(tag, encode_utf8(codec::json_text(t))),
        ),
        unusable(c) is None && encode_utf8(codec::json_text(t)).len() > payload_limit(tag)
            ==> outgoing(c, tag, Some(t)) == Err::<Seq<u8>, ErrorView>(
            too_large(tag, encode_utf8(codec::json_text(t)).len()),
        ),
{
}

/// The first failure is the one that a session remembers. It ends an open transaction,
/// and changes nothing else.
pub proof fn the_first_failure_is_remembered(c: ClientView, e: ErrorView)
    ensures
        c.fault is Some ==> poisoned(c, e) == c,
        c.fault is None ==> poisoned(c, e).fault == Some(e),
        c.fault is None ==> !poisoned(c, e).txn_open,
        c.fault is None ==> poisoned(c, e) == (ClientView {
            fault: Some(e),
            txn_open: false,
            ..c
        }),
        is_fatal(e.kind) ==> after_error(c, e) == poisoned(c, e),
        !is_fatal(e.kind) ==> after_error(c, e) == c,
{
}

/// A reply that never came drops the session, whatever the failure. One that came drops
/// it only when it means a fatal error.
pub proof fn a_reply_that_never_came_drops_the_session<T>(
    c: ClientView,
    f: FrameView,
    e: ErrorView,
    meaning: std::result::Result<T, ErrorView>,
    x: T,
)
    ensures
        after_reply(c, Err(e), meaning) == poisoned(c, e),
        after_reply(c, Ok(f), Ok::<T, ErrorView>(x)) == c,
        after_reply(c, Ok(f), Err::<T, ErrorView>(e)) == after_error(c, e),
{
}

/// A refusal is told by the message in it, else by the error in it, else whole.
pub proof fn a_refusal_is_told_by_its_message(
    payload: Seq<u8>,
    m: Map<Seq<char>, JsonTree>,
    t: JsonTree,
    s: Seq<char>,
    complaint: Seq<char>,
    kind: ErrorKind,
)
    ensures
        refusal_text(Seq::empty(), Ok(t))
            == "the server refused the connection without saying why"@,
        refusal_text(Seq::empty(), Err(complaint))
            == "the server refused the connection without saying why"@,
        payload.len() > 0 ==> refusal_text(payload, Err(complaint)) == text::lossy_text(payload),
        payload.len() > 0 && s.len() > 0 ==> refusal_text(
            payload,
            Ok(JsonTree::Object(m.insert("message"@, JsonTree::Text(s)))),
        ) == s,
        payload.len() > 0 && s.len() > 0 && (!m.dom().contains("message"@) || m["message"@]
            == JsonTree::Text(Seq::empty()) || !(m["message"@] is Text)) ==> refusal_text(
            payload,
            Ok(JsonTree::Object(m.insert("error"@, JsonTree::Text(s)))),
        ) == s,
        payload.len() > 0 && !m.dom().contains("message"@) && !m.dom().contains("error"@)
            ==> refusal_text(payload, Ok(JsonTree::Object(m))) == codec::json_text(
            JsonTree::Object(m),
        ),
        payload.len() > 0 && !(t is Object) ==> refusal_text(payload, Ok(t)) == codec::json_text(t),
        s.len() > 0 ==> refusal_code(
            Ok(JsonTree::Object(m.insert("code"@, JsonTree::Text(s)))),
        ) == Some(s),
        !m.dom().contains("code"@) ==> refusal_code(Ok(JsonTree::Object(m))) is None,
        !(t is Text) ==> refusal_code(Ok(JsonTree::Object(m.insert("code"@, t)))) is None,
        refusal_code(Ok(JsonTree::Object(m.insert("code"@, JsonTree::Text(Seq::empty())))))
            is None,
        !(t is Object) ==> refusal_code(Ok(t)) is None,
        refusal_code(Err(complaint)) is None,
        refusal(kind, payload, Ok(t)).kind == kind,
        refusal(kind, payload, Ok(t)).message == refusal_text(payload, Ok(t)),
        refusal(kind, payload, Ok(t)).code == refusal_code(Ok(t)),
        refusal(kind, payload, Ok(t)).leader_hint is None,
        refusal(kind, payload, Err(complaint)).message == refusal_text(payload, Err(complaint)),
        refusal(kind, payload, Err(complaint)).kind == kind,
{
    reveal_strlit("message");
    reveal_strlit("error");
    assert("message"@.len() != "error"@.len());
}

/// A request id is made of the prefix of its connection and the number of the request.
pub proof fn a_request_id_is_a_prefix_and_a_number(
    prefix: Seq<char>,
    counter: nat,
    process: nat,
    stamp: nat,
    sequence: nat,
)
    ensures
        request_id_text(prefix, counter) == seq!['r', 's', '-'] + prefix + seq!['-']
            + text::integer(counter as int),
        connection_prefix_text(process, stamp, sequence) == text::hexadecimal(process)
            + text::hexadecimal(stamp) + text::hexadecimal(sequence),
{
    reveal_strlit("rs-");
    reveal_strlit("-");
    assert("rs-"@ =~= seq!['r', 's', '-']);
    assert("-"@ =~= seq!['-']);
}

/// Each request counts one more, and takes its id from that count. Nothing else of the
/// session changes.
pub proof fn each_request_counts_one_more(c: ClientView)
    requires
        c.request_counter < u64::MAX,
    ensures
        counted(c).request_counter == c.request_counter + 1,
        counted(c).last_request_id == Some(
            request_id_text(c.request_id_prefix, (c.request_counter + 1) as nat),
        ),
        attempted(c).request_counter == c.request_counter + 1,
        attempted(c).last_request_id == c.last_request_id,
        counted(c) == (ClientView {
            request_counter: counted(c).request_counter,
            last_request_id: counted(c).last_request_id,
            ..c
        }),
        attempted(c) == (ClientView { request_counter: counted(c).request_counter, ..c }),
{
}

/// A request names itself, its database and what it asks, and the time it is given
/// when there is a limit to it.
pub proof fn a_request_names_itself_and_its_database(c: ClientView, op: JsonTree, ms: u64)
    ensures
        c.request_timeout_ms is None ==> envelope(c, op) == JsonTree::Object(
            map![
                "request_id"@ => JsonTree::Text(c.last_request_id->0),
                "database"@ => JsonTree::Text(c.database),
                "op"@ => op,
            ],
        ),
        c.request_timeout_ms == Some(ms) ==> envelope(c, op) == JsonTree::Object(
            map![
                "request_id"@ => JsonTree::Text(c.last_request_id->0),
                "database"@ => JsonTree::Text(c.database),
                "op"@ => op,
                "options"@ => JsonTree::Object(
                    map!["timeout_ms"@ => JsonTree::Number(text::integer(ms as int))],
                ),
            ],
        ),
{
    let base = map![
        "request_id"@ => JsonTree::Text(c.last_request_id->0),
        "database"@ => JsonTree::Text(c.database),
        "op"@ => op,
    ];
    let limit = JsonTree::Number(text::integer(ms as int));
    crate::json::a_wrapped_value_is_the_only_member("timeout_ms"@, limit, "op"@);
    assert(Map::<Seq<char>, JsonTree>::empty().insert(
        "request_id"@,
        JsonTree::Text(c.last_request_id->0),
    ).insert("database"@, JsonTree::Text(c.database)).insert("op"@, op) =~= base);
    let options = JsonTree::Object(map!["timeout_ms"@ => limit]);
    assert(base.insert("options"@, options) =~= map![
        "request_id"@ => JsonTree::Text(c.last_request_id->0),
        "database"@ => JsonTree::Text(c.database),
        "op"@ => op,
        "options"@ => options,
    ]);
}

/// A request that is sent is one request frame of its envelope under the next id. One
/// that is not sent still uses up its number.
pub proof fn a_sent_request_is_its_envelope(
    before: ClientView,
    after: ClientView,
    op: JsonTree,
    r: Result<Vec<u8>>,
)
    requires
        before.request_counter < u64::MAX,
        sends(before, after, op, r),
    ensures
        after.request_counter == before.request_counter + 1,
        after.database == before.database && after.granted_features == before.granted_features
            && after.txn_open == before.txn_open && after.session_id == before.session_id
            && after.fault == before.fault && after.closed == before.closed,
        r is Ok <==> before.fault is None && !before.closed && encode_utf8(
            codec::json_text(envelope(counted(before), op)),
        ).len() <= payload_limit(Tag::Request),
        r is Ok ==> after.last_request_id == Some(
            request_id_text(before.request_id_prefix, after.request_counter as nat),
        ),
        r is Ok ==> r->Ok_0@ == frame_bytes(
            Tag::Request,
            encode_utf8(codec::json_text(envelope(after, op))),
        ),
        r is Err ==> after.last_request_id == before.last_request_id,
        r is Err ==> r->Err_0@.kind == ErrorKind::Closed || r->Err_0@.kind == ErrorKind::Protocol,
{
}

/// A call that is declined sends nothing and changes nothing.
pub proof fn a_declined_call_changes_nothing(
    before: ClientView,
    after: ClientView,
    e: ErrorView,
    r: Result<Vec<u8>>,
)
    requires
        declines(before, after, e, r),
    ensures
        after == before,
        r is Err,
        r->Err_0@ == e,
{
}

/// What a reply means is made of the response in it. A reply without one is handed on
/// as the error it is, and only a fatal error drops the session.
pub proof fn a_reply_is_answered_by_its_meaning<T>(
    before: ClientView,
    after: ClientView,
    reply: std::result::Result<FrameView, ErrorView>,
    meaning: spec_fn(ResponseView) -> std::result::Result<T, ErrorView>,
    r: std::result::Result<T, ErrorView>,
)
    requires
        answered(before, after, reply, meaning, r),
    ensures
        response_result(reply) matches Ok(x) ==> r == meaning(x),
        response_result(reply) matches Err(e) ==> r == Err::<T, ErrorView>(e),
        r is Ok ==> after == before,
        reply matches Err(e) ==> r == Err::<T, ErrorView>(e) && after == poisoned(before, e),
        reply is Ok ==> (r matches Err(e) ==> after == after_error(before, e)),
{
}

/// A reply is taken by its tag: the one that answers the call, an error, or one that
/// was not expected and is named.
pub proof fn a_reply_is_taken_by_its_tag(
    f: FrameView,
    parsed: std::result::Result<JsonTree, Seq<char>>,
)
    ensures
        f.tag == Tag::Error ==> {
            &&& response_meaning(f, parsed) == Err::<ResponseView, ErrorView>(
                refusal(ErrorKind::Refused, f.payload, parsed),
            )
            &&& cancel_meaning(f, parsed) == Err::<u64, ErrorView>(
                refusal(ErrorKind::Refused, f.payload, parsed),
            )
            &&& ping_meaning(f, parsed) == Err::<(), ErrorView>(
                refusal(ErrorKind::Refused, f.payload, parsed),
            )
            &&& hello_meaning(f, parsed) == Err::<u64, ErrorView>(
                refusal(ErrorKind::Handshake, f.payload, parsed),
            )
            &&& auth_meaning(f, parsed) == Err::<Option<Seq<char>>, ErrorView>(
                refusal(ErrorKind::Auth, f.payload, parsed),
            )
        },
        f.tag != Tag::Error && f.tag != Tag::Response ==> response_meaning(f, parsed) == Err::<
            ResponseView,
            ErrorView,
        >(
            plain(ErrorKind::Protocol, "expected "@ + "RESPONSE"@ + ", got "@ + tag_name(f.tag)),
        ),
        f.tag != Tag::Error && f.tag != Tag::CancelOk ==> cancel_meaning(f, parsed) == Err::<
            u64,
            ErrorView,
        >(
            plain(ErrorKind::Protocol, "expected "@ + "CANCEL_OK"@ + ", got "@ + tag_name(f.tag)),
        ),
        f.tag != Tag::Error && f.tag != Tag::Pong ==> ping_meaning(f, parsed) == Err::<
            (),
            ErrorView,
        >(plain(ErrorKind::Protocol, "expected "@ + "PONG"@ + ", got "@ + tag_name(f.tag))),
        f.tag != Tag::Error && f.tag != Tag::HelloOk ==> hello_meaning(f, parsed) == Err::<
            u64,
            ErrorView,
        >(
            plain(ErrorKind::Protocol, "expected "@ + "HELLO_OK"@ + ", got "@ + tag_name(f.tag)),
        ),
        f.tag != Tag::Error && f.tag != Tag::AuthOk ==> auth_meaning(f, parsed) == Err::<
            Option<Seq<char>>,
            ErrorView,
        >(
            plain(ErrorKind::Protocol, "expected "@ + "AUTH_OK"@ + ", got "@ + tag_name(f.tag)),
        ),
        f.tag == Tag::Pong ==> ping_meaning(f, parsed) == Ok::<(), ErrorView>(()),
        f.tag == Tag::CancelOk ==> cancel_meaning(f, parsed) == body_of::<CancelOk>(
            parsed,
            "CANCEL_OK"@,
        ),
        f.tag == Tag::Response ==> (match body_of::<WireResponse>(parsed, "RESPONSE"@) {
            Ok(w) => response_meaning(f, parsed) == outcome(assembled(w)),
            Err(e) => response_meaning(f, parsed) == Err::<ResponseView, ErrorView>(e),
        }),
{
}

/// A greeting or a login is accepted when the server says so, and gives what the server
/// granted. It is refused in the words of the server, or in the usual ones when there
/// are none.
pub proof fn a_greeting_is_accepted_when_the_server_says_so(
    f: FrameView,
    parsed: std::result::Result<JsonTree, Seq<char>>,
    h: HelloOkView,
    a: AuthOkView,
)
    ensures
        f.tag == Tag::HelloOk && body_of::<HelloOk>(parsed, "HELLO_OK"@) == Ok::<
            HelloOkView,
            ErrorView,
        >(h) ==> hello_meaning(f, parsed) == if h.ok {
            Ok::<u64, ErrorView>(h.features)
        } else if h.message.len() > 0 {
            Err(plain(ErrorKind::Handshake, h.message))
        } else {
            Err(plain(ErrorKind::Handshake, "the server refused the handshake"@))
        },
        f.tag == Tag::HelloOk ==> (body_of::<HelloOk>(parsed, "HELLO_OK"@) matches Err(e)
            ==> hello_meaning(f, parsed) == Err::<u64, ErrorView>(e)),
        f.tag == Tag::AuthOk && body_of::<AuthOk>(parsed, "AUTH_OK"@) == Ok::<
            AuthOkView,
            ErrorView,
        >(a) ==> auth_meaning(f, parsed) == if a.ok {
            Ok::<Option<Seq<char>>, ErrorView>(a.session_id)
        } else if a.message.len() > 0 {
            Err(plain(ErrorKind::Auth, a.message))
        } else {
            Err(plain(ErrorKind::Auth, "authentication refused"@))
        },
        f.tag == Tag::AuthOk ==> (body_of::<AuthOk>(parsed, "AUTH_OK"@) matches Err(e)
            ==> auth_meaning(f, parsed) == Err::<Option<Seq<char>>, ErrorView>(e)),
{
}

/// The greeting names the protocol, its version, the client and the features that it
/// asks for.
pub proof fn the_greeting_names_the_client(client_name: Seq<char>, features: u64)
    ensures
        hello_tree(client_name, features) == JsonTree::Object(
            map![
                "protocol"@ => JsonTree::Text("tricore"@),
                "version"@ => JsonTree::Object(
                    map![
                        "major"@ => JsonTree::Number(text::integer(1)),
                        "minor"@ => JsonTree::Number(text::integer(0)),
                    ],
                ),
                "client"@ => JsonTree::Text(client_name),
                "features"@ => JsonTree::Number(text::integer(features as int)),
            ],
        ),
{
    let version = map![
        "major"@ => JsonTree::Number(text::integer(1)),
        "minor"@ => JsonTree::Number(text::integer(0)),
    ];
    assert(Map::<Seq<char>, JsonTree>::empty().insert(
        "major"@,
        JsonTree::Number(text::integer(PROTOCOL_VERSION as int)),
    ).insert("minor"@, JsonTree::Number(text::integer(0))) =~= version);
    assert(hello_tree(client_name, features)->Object_0 =~= map![
        "protocol"@ => JsonTree::Text("tricore"@),
        "version"@ => JsonTree::Object(version),
        "client"@ => JsonTree::Text(client_name),
        "features"@ => JsonTree::Number(text::integer(features as int)),
    ]);
}

/// The login holds the user and the bytes of the secret, and a cancel the id of the
/// request to stop.
pub proof fn the_login_holds_the_user_and_the_secret(
    user: Seq<char>,
    secret: Seq<char>,
    request_id: Seq<char>,
)
    ensures
        auth_tree(user, secret) == JsonTree::Object(
            map![
                "username"@ => JsonTree::Text(user),
                "secret"@ => wire::bytes_tree(encode_utf8(secret)),
            ],
        ),
        cancel_tree(request_id) == JsonTree::Object(
            map!["request_id"@ => JsonTree::Text(request_id)],
        ),
{
    assert(auth_tree(user, secret)->Object_0 =~= map![
        "username"@ => JsonTree::Text(user),
        "secret"@ => wire::bytes_tree(encode_utf8(secret)),
    ]);
    crate::json::a_wrapped_value_is_the_only_member(
        "request_id"@,
        JsonTree::Text(request_id),
        "request_id"@,
    );
}

/// The handshake replies are held to their own fields.
pub proof fn handshake_replies_have_these_fields(bytes: Seq<u8>, parts: Seq<body::PartView>)
    requires
        body::parts_of(bytes, true) == Some(parts),
    ensures
        HelloOk::repeats(bytes) == body::twice(parts, seq!["ok"@, "message"@, "features"@]),
        AuthOk::repeats(bytes) == body::twice(parts, seq!["ok"@, "session_id"@, "message"@]),
        CancelOk::repeats(bytes) == body::twice(parts, seq!["cancelled"@]),
        HelloOk::essence(bytes) == body::record_text(
            body::kept(parts, seq!["ok"@, "message"@, "features"@]),
            true,
        ),
        AuthOk::essence(bytes) == body::record_text(
            body::kept(parts, seq!["ok"@, "session_id"@, "message"@]),
            true,
        ),
        CancelOk::essence(bytes) == body::record_text(body::kept(parts, seq!["cancelled"@]), true),
{
}

/// A payload is read as the body of its tag, and one without a body of its own as
/// plain JSON.
pub proof fn a_payload_is_read_as_the_body_of_its_tag(payload: Seq<u8>, tag: Tag)
    ensures
        payload_parsed(FrameView { tag: Tag::HelloOk, payload }) == body::strict::<HelloOk>(
            payload,
        ),
        payload_parsed(FrameView { tag: Tag::AuthOk, payload }) == body::strict::<AuthOk>(payload),
        payload_parsed(FrameView { tag: Tag::CancelOk, payload }) == body::strict::<CancelOk>(
            payload,
        ),
        payload_parsed(FrameView { tag: Tag::Response, payload }) == body::strict::<WireResponse>(
            payload,
        ),
        tag != Tag::HelloOk && tag != Tag::AuthOk && tag != Tag::CancelOk && tag != Tag::Response
            ==> payload_parsed(FrameView { tag, payload }) == codec::parsed(payload),
{
}

/// A frame means what its tag and payload mean, and without a frame the failure stands.
pub proof fn a_frame_means_what_its_payload_means(f: FrameView, e: ErrorView)
    ensures
        hello_result(Ok(f)) == hello_meaning(f, payload_parsed(f)),
        auth_result(Ok(f)) == auth_meaning(f, payload_parsed(f)),
        cancel_result(Ok(f)) == cancel_meaning(f, payload_parsed(f)),
        ping_result(Ok(f)) == ping_meaning(f, payload_parsed(f)),
        response_result(Ok(f)) == response_meaning(f, payload_parsed(f)),
        hello_result(Err(e)) == Err::<u64, ErrorView>(e),
        auth_result(Err(e)) == Err::<Option<Seq<char>>, ErrorView>(e),
        cancel_result(Err(e)) == Err::<u64, ErrorView>(e),
        ping_result(Err(e)) == Err::<(), ErrorView>(e),
        response_result(Err(e)) == Err::<ResponseView, ErrorView>(e),
{
}

/// A session without a user opens once it is greeted. One with a user logs in first,
/// with an empty secret when there is none.
pub proof fn a_session_with_a_user_logs_in(
    c: ClientView,
    options: Options,
    reply: std::result::Result<FrameView, ErrorView>,
    features: u64,
    bytes: Seq<u8>,
)
    requires
        hello_result(reply) == Ok::<u64, ErrorView>(features),
    ensures
        options.user is None ==> advanced(c, options, Stage::Hello, reply) == (
            ClientView {
                granted_features: features,
                read_timeout: bound_of(options.read_timeout),
                ..c
            },
            Ok::<OpeningView, ErrorView>(OpeningView::Open(bound_of(options.read_timeout))),
        ),
        options.user is Some ==> advanced(c, options, Stage::Hello, reply).0 == (ClientView {
            granted_features: features,
            ..c
        }),
        options.user matches Some(user) ==> (outgoing(
            ClientView { granted_features: features, ..c },
            Tag::Auth,
            Some(
                auth_tree(
                    user@,
                    match options.secret {
                        Some(secret) => secret@,
                        None => Seq::empty(),
                    },
                ),
            ),
        ) == Ok::<Seq<u8>, ErrorView>(bytes) ==> advanced(c, options, Stage::Hello, reply).1 == Ok::<
            OpeningView,
            ErrorView,
        >(OpeningView::Exchange(Stage::Auth, bytes))),
        options.user matches Some(user) ==> (outgoing(
            ClientView { granted_features: features, ..c },
            Tag::Auth,
            Some(auth_tree(user@, secret_of(options))),
        ) matches Err(e) ==> advanced(c, options, Stage::Hello, reply).1 == Err::<
            OpeningView,
            ErrorView,
        >(e)),
{
}

/// A login that is accepted opens the session under the id it was given, and one that
/// is refused, like a greeting that is refused, opens nothing.
pub proof fn an_accepted_login_opens_the_session(
    c: ClientView,
    options: Options,
    reply: std::result::Result<FrameView, ErrorView>,
    id: Option<Seq<char>>,
)
    ensures
        auth_result(reply) == Ok::<Option<Seq<char>>, ErrorView>(id) ==> advanced(
            c,
            options,
            Stage::Auth,
            reply,
        ) == (
            ClientView { session_id: id, read_timeout: bound_of(options.read_timeout), ..c },
            Ok::<OpeningView, ErrorView>(OpeningView::Open(bound_of(options.read_timeout))),
        ),
        auth_result(reply) matches Err(e) ==> advanced(c, options, Stage::Auth, reply) == (
            after_reply(c, reply, auth_result(reply)),
            Err::<OpeningView, ErrorView>(e),
        ),
        hello_result(reply) matches Err(e) ==> advanced(c, options, Stage::Hello, reply) == (
            after_reply(c, reply, hello_result(reply)),
            Err::<OpeningView, ErrorView>(e),
        ),
{
}

/// A session ends once. It is closed then and its transaction with it, and nothing
/// else of it changes.
pub proof fn a_session_ends_once(c: ClientView)
    ensures
        ended(c).closed,
        ended(ended(c)) == ended(c),
        c.closed ==> ended(c) == c,
        !c.closed ==> ended(c) == (ClientView { closed: true, txn_open: false, ..c }),
        !has_transaction(ended(c)),
        has_transaction(c) <==> c.txn_open && c.fault is None && !c.closed,
{
}

/// A deadline is sent in whole milliseconds, rounded down, and no longer one than can
/// be sent. No time at all is no deadline.
pub proof fn a_deadline_is_sent_in_milliseconds(d: Duration, ms: u64, rest: nat)
    requires
        rest < 1_000_000,
    ensures
        deadline_ms(None) is None,
        d@ == 0 ==> deadline_ms(Some(d)) is None,
        d@ > 0 && d@ == ms as nat * 1_000_000 + rest ==> deadline_ms(Some(d)) == Some(ms),
        d@ > u64::MAX as nat * 1_000_000 + 999_999 ==> deadline_ms(Some(d)) == Some(u64::MAX),
{
    assert((ms as nat * 1_000_000 + rest) / 1_000_000 == ms as nat);
}

/// What opens a session is seen as it is.
pub proof fn openings_are_seen_as_they_are(
    stage: Stage,
    bytes: Vec<u8>,
    bound: Option<Duration>,
    e: Error,
)
    ensures
        opening_view(Ok(Opening::Exchange(stage, bytes))) == Ok::<OpeningView, ErrorView>(
            OpeningView::Exchange(stage, bytes@),
        ),
        opening_view(Ok(Opening::Open(bound))) == Ok::<OpeningView, ErrorView>(
            OpeningView::Open(bound),
        ),
        opening_view(Err(e)) == Err::<OpeningView, ErrorView>(e@),
{
}

/// Bytes carry a value when they are a frame of the tag whose payload reads as it.
pub proof fn a_frame_carries_what_its_payload_reads_as(
    tag: Tag,
    payload: Seq<u8>,
    rest: Seq<u8>,
    other: Tag,
    t: JsonTree,
)
    requires
        payload.len() <= payload_limit(tag),
    ensures
        carries(frame_bytes(tag, payload) + rest, tag, t) <==> codec::parsed(payload) == Ok::<
            JsonTree,
            Seq<char>,
        >(t),
        other != tag ==> !carries(frame_bytes(tag, payload) + rest, other, t),
        first_frame(rest) is Err ==> !carries(rest, tag, t),
{
    crate::frame::encoded_frame_reads_back(tag, payload, rest);
}

/// What `ping` and `cancel` send. A cancel without an id sends nothing, and neither
/// changes the session.
pub proof fn pings_and_cancels_are_sent_as_frames(
    c: &mut Client,
    request_id: &str,
    r: Result<Vec<u8>>,
)
    ensures
        call_ensures(Client::ping, (c,), r) ==> final(c)@ == old(c)@ && bytes_view(r) == outgoing(
            old(c)@,
            Tag::Ping,
            None,
        ),
        call_ensures(Client::cancel, (c, request_id), r) ==> final(c)@ == old(c)@,
        call_ensures(Client::cancel, (c, request_id), r) && request_id@.len() > 0 ==> bytes_view(r)
            == outgoing(
            old(c)@,
            Tag::Cancel,
            Some(JsonTree::Object(map!["request_id"@ => JsonTree::Text(request_id@)])),
        ),
        call_ensures(Client::cancel, (c, request_id), r) && request_id@.len() == 0 ==> r is Err
            && r->Err_0@ == plain(
            ErrorKind::InvalidArgument,
            "a request id to cancel must not be empty"@,
        ),
{
    the_login_holds_the_user_and_the_secret(Seq::empty(), Seq::empty(), request_id@);
}

/// What `close` and `abandon` do: a session ends once, and only one that can still be
/// used says goodbye, within two seconds.
pub proof fn a_session_says_goodbye_once(c: &mut Client, r: Farewell)
    ensures
        call_ensures(Client::close, (c,), r) || call_ensures(Client::abandon, (c,), r) ==> {
            &&& final(c)@.closed
            &&& old(c)@.closed ==> r is Nothing && final(c)@ == old(c)@
            &&& !old(c)@.closed ==> !final(c)@.txn_open
        },
        call_ensures(Client::close, (c,), r) && !old(c)@.closed ==> (r is Goodbye
            <==> old(c)@.fault is None),
        call_ensures(Client::close, (c,), r) ==> (r matches Farewell::Goodbye { bytes, deadline }
            ==> bytes@ == frame_bytes(Tag::Close, Seq::empty()) && deadline@ == 2_000_000_000),
        call_ensures(Client::abandon, (c,), r) && !old(c)@.closed ==> r is Drop,
{
}

/// What `connect` begins: a new session, and the greeting of its client.
pub proof fn a_session_begins_with_its_greeting(
    options: &Options,
    prefix: &str,
    r: (Client, Result<Vec<u8>>),
)
    requires
        call_ensures(Client::connect, (options, prefix), r),
    ensures
        r.0@ == fresh(options.database@, prefix@),
        bytes_view(r.1) == outgoing(
            r.0@,
            Tag::Hello,
            Some(hello_tree(options.client_name@, announced(options.features))),
        ),
{
}

/// What the session tells of itself.
pub proof fn a_session_tells_what_it_knows(c: &Client, b: bool, n: u64, s: &str)
    ensures
        call_ensures(Client::granted_features, (c,), n) ==> n == c@.granted_features,
        call_ensures(Client::server_params_granted, (c,), b) ==> (b <==> c@.granted_features & 2
            != 0),
        call_ensures(Client::session_txn_granted, (c,), b) ==> (b <==> c@.granted_features & 4
            != 0),
        call_ensures(Client::in_transaction, (c,), b) ==> (b <==> c@.txn_open && c@.fault is None
            && !c@.closed),
        call_ensures(Client::is_poisoned, (c,), b) ==> (b <==> c@.fault is Some),
        call_ensures(Client::ids_left, (c,), b) ==> (b <==> c@.request_counter < u64::MAX),
        call_ensures(Client::database, (c,), s) ==> s@ == c@.database,
{
}

/// What `set_read_timeout` and `set_request_timeout` change: the bound of their own, and
/// nothing else.
pub proof fn each_bound_is_set_alone(
    c: &mut Client,
    timeout: Option<Duration>,
    r: Option<Duration>,
)
    ensures
        call_ensures(Client::set_read_timeout, (c, timeout), r) ==> r == bound_of(timeout)
            && final(c)@ == (ClientView { read_timeout: bound_of(timeout), ..old(c)@ }),
        call_ensures(Client::set_request_timeout, (c, timeout), ()) ==> final(c)@ == (ClientView {
            request_timeout_ms: deadline_ms(timeout),
            ..old(c)@
        }),
{
}

/// What `advance`, `reply`, `ping_reply` and `cancel_reply` give and do: what the frame
/// means, or the failure that came in its place.
pub proof fn replies_are_given_as_they_mean(
    c: &mut Client,
    options: &Options,
    stage: Stage,
    reply: Result<Frame>,
    opening: Result<Opening>,
    response: Result<Response>,
    pong: Result<()>,
    stopped: Result<u64>,
)
    ensures
        call_ensures(Client::advance, (c, options, stage, reply), opening) ==> (
            final(c)@,
            opening_view(opening),
        ) == advanced(old(c)@, *options, stage, reply_view(reply)),
        call_ensures(Client::reply, (c, reply), response) ==> (match response_result(
            reply_view(reply),
        ) {
            Ok(x) => response is Ok && response->Ok_0@ == x,
            Err(e) => response is Err && response->Err_0@ == e,
        }),
        call_ensures(Client::ping_reply, (c, reply), pong) ==> (pong is Ok <==> ping_result(
            reply_view(reply),
        ) is Ok),
        call_ensures(Client::cancel_reply, (c, reply), stopped) ==> (stopped matches Ok(n)
            ==> cancel_result(reply_view(reply)) == Ok::<u64, ErrorView>(n)),
        reply is Err && call_ensures(Client::reply, (c, reply), response) ==> response is Err
            && final(c)@ == poisoned(old(c)@, reply->Err_0@),
{
}

/// What is made of the end of a connection: one that was gone already ended well, and
/// another failure is told.
pub proof fn a_connection_that_is_gone_ended_well(
    shutdown: Shutdown,
    r: Result<()>,
    process: u32,
    stamp: u64,
    sequence: u64,
    s: String,
)
    ensures
        call_ensures(close_outcome, (shutdown,), r) ==> (r is Err <==> shutdown is Failed),
        call_ensures(close_outcome, (shutdown,), r) ==> (shutdown matches Shutdown::Failed(
            failure,
            detail,
        ) ==> r->Err_0@ == io_error(failure, detail@)),
        call_ensures(connection_prefix, (process, stamp, sequence), s) ==> s@ == text::hexadecimal(
            process as nat,
        ) + text::hexadecimal(stamp as nat) + text::hexadecimal(sequence as nat),
{
}

/// What `hello_reply` and `auth_reply` do: an accepted greeting grants its features, an
/// accepted login gives its session id, and nothing else of the session changes.
pub proof fn a_handshake_changes_what_it_grants(
    c: &mut Client,
    reply: Result<Frame>,
    r: Result<()>,
)
    ensures
        call_ensures(Client::hello_reply, (c, reply), r) ==> (match hello_result(
            reply_view(reply),
        ) {
            Ok(features) => r is Ok && final(c)@ == (ClientView {
                granted_features: features,
                ..old(c)@
            }),
            Err(e) => r is Err && r->Err_0@ == e,
        }),
        call_ensures(Client::auth_reply, (c, reply), r) ==> (match auth_result(reply_view(reply)) {
            Ok(id) => r is Ok && final(c)@ == (ClientView { session_id: id, ..old(c)@ }),
            Err(e) => r is Err && r->Err_0@ == e,
        }),
{
}

/// What `login` sends: the user and the secret, and nothing where no user was named.
pub proof fn a_login_is_sent_for_a_named_user(
    c: &Client,
    options: &Options,
    r: Option<Result<Vec<u8>>>,
)
    requires
        call_ensures(Client::login, (c, options), r),
    ensures
        r is Some <==> options.user is Some,
        r matches Some(sent) ==> bytes_view(sent) == outgoing(
            c@,
            Tag::Auth,
            Some(
                JsonTree::Object(
                    map![
                        "username"@ => JsonTree::Text(options.user->0@),
                        "secret"@ => wire::bytes_tree(
                            encode_utf8(
                                match options.secret {
                                    Some(secret) => secret@,
                                    None => Seq::empty(),
                                },
                            ),
                        ),
                    ],
                ),
            ),
        ),
{
    if options.user is Some {
        the_login_holds_the_user_and_the_secret(
            options.user->0@,
            secret_of(*options),
            Seq::empty(),
        );
    }
}

/// What the session tells of its ids, where it has them.
pub proof fn a_session_tells_its_ids(c: &Client, r: Option<&str>)
    ensures
        call_ensures(Client::session_id, (c,), r) ==> (r is Some <==> c@.session_id is Some) && (
        r matches Some(s) ==> c@.session_id == Some(s@)),
        call_ensures(Client::last_request_id, (c,), r) ==> (r is Some <==> c@.last_request_id
            is Some) && (r matches Some(s) ==> c@.last_request_id == Some(s@)),
{
}

/// What the readers of a single frame give: what the frame means.
pub proof fn frames_are_read_as_they_mean(
    frame: &Frame,
    parsed: std::result::Result<Json, String>,
    hello: Result<u64>,
    auth: Result<Option<String>>,
    cancel: Result<u64>,
    ping: Result<()>,
    response: Result<Response>,
)
    ensures
        call_ensures(read_hello, (frame, parsed), hello) ==> (match hello {
            Ok(n) => hello_meaning(frame@, parse_view(parsed)) == Ok::<u64, ErrorView>(n),
            Err(e) => hello_meaning(frame@, parse_view(parsed)) == Err::<u64, ErrorView>(e@),
        }),
        call_ensures(read_auth, (frame, parsed), auth) ==> (match auth {
            Ok(id) => auth_meaning(frame@, parse_view(parsed)) == Ok::<
                Option<Seq<char>>,
                ErrorView,
            >(text::opt_view(id)),
            Err(e) => auth_meaning(frame@, parse_view(parsed)) == Err::<
                Option<Seq<char>>,
                ErrorView,
            >(e@),
        }),
        call_ensures(read_cancel, (frame, parsed), cancel) ==> (match cancel {
            Ok(n) => cancel_meaning(frame@, parse_view(parsed)) == Ok::<u64, ErrorView>(n),
            Err(e) => cancel_meaning(frame@, parse_view(parsed)) == Err::<u64, ErrorView>(e@),
        }),
        call_ensures(read_ping, (frame, parsed), ping) ==> (ping is Ok <==> frame.tag == Tag::Pong),
        call_ensures(read_response, (frame, parsed), response) ==> (match response {
            Ok(x) => response_meaning(frame@, parse_view(parsed)) == Ok::<ResponseView, ErrorView>(
                x@,
            ),
            Err(e) => response_meaning(frame@, parse_view(parsed)) == Err::<
                ResponseView,
                ErrorView,
            >(e@),
        }),
{
}

} // verus!
