//! The error type every fallible call returns.

use crate::text;
use vstd::prelude::*;
#[allow(unused_imports)]
use vstd::std_specs::cmp::PartialEqSpec;

verus! {

/// The error code a Raft follower attaches when it cannot serve a request.
pub const NOT_LEADER: &'static str = "not_leader";

/// Result alias used throughout the crate.
pub type Result<T, E = Error> = std::result::Result<T, E>;

/// What category of failure an [`Error`] is.
#[derive(Debug, Clone, Copy, PartialEq, Eq, Hash, Structural)]
#[non_exhaustive]
pub enum ErrorKind {
    /// A socket read, write or connect failed.
    Io,
    /// A client-side deadline elapsed. The connection is closed afterwards,
    /// because the reply may still arrive and would be read as the next answer.
    Timeout,
    /// The peer sent something this client cannot parse or did not expect.
    Protocol,
    /// Authentication was refused (an `AUTH_OK` frame with `ok: false`, or an
    /// `ERROR` frame in answer to `AUTH`).
    Auth,
    /// The server refused the handshake (`HELLO_OK` with `ok: false`).
    Handshake,
    /// The server answered a request with `status: "error"` or
    /// `status: "not_implemented"`. The connection remains usable.
    Server,
    /// The server sent a connection-level `ERROR` frame.
    Refused,
    /// The operation needs a protocol feature the server did not grant.
    FeatureNotGranted,
    /// An argument was refused before anything was sent.
    InvalidArgument,
    /// TLS configuration or handshake failed.
    Tls,
    /// The connection was already closed.
    Closed,
    /// A pooled connection was not available in time, or the pool is closed.
    Pool,
    /// A pooled callback returned with a session transaction still open.
    TransactionLeftOpen,
}

/// How reading from or writing to a socket failed.
#[derive(Debug, Clone, Copy, PartialEq, Eq, Structural)]
pub enum IoFailure {
    /// The operation took too long.
    TimedOut,
    /// A deadline on a blocking socket elapsed.
    WouldBlock,
    /// The peer closed the stream before all bytes came.
    UnexpectedEof,
    /// Any other failure.
    Other,
}

/// Any failure from the transport, the protocol or the server.
///
/// Branch on [`Error::kind`] and [`Error::code`], never on the message text.
#[derive(Debug)]
#[non_exhaustive]
pub struct Error {
    /// The failure category.
    pub kind: ErrorKind,
    /// The server's stable machine-readable code when it sent one:
    /// `diagnostics.error_code` on a response, or `code` on an `ERROR` frame.
    pub code: Option<String>,
    /// Human-readable description.
    pub message: String,
    /// On a `not_leader` refusal, the leader's client-facing `host:port` when
    /// the cluster knows one. Absent means wait and retry.
    pub leader_hint: Option<String>,
}

/// What an [`Error`] holds.
#[verifier::ext_equal]
pub struct ErrorView {
    pub kind: ErrorKind,
    pub code: Option<Seq<char>>,
    pub message: Seq<char>,
    pub leader_hint: Option<Seq<char>>,
}

/// An error with a message and nothing else.
pub open spec fn plain(kind: ErrorKind, message: Seq<char>) -> ErrorView {
    ErrorView { kind, code: None, message, leader_hint: None }
}

/// An error with a message and a code.
pub open spec fn coded(kind: ErrorKind, message: Seq<char>, code: Option<Seq<char>>) -> ErrorView {
    ErrorView { kind, code, message, leader_hint: None }
}

/// A refusal because the server did not grant the capability that is needed.
pub open spec fn ungranted(message: Seq<char>) -> ErrorView {
    coded(ErrorKind::FeatureNotGranted, message, Some("feature_not_granted"@))
}

/// The kinds of error with which this client refuses a call itself.
pub open spec fn is_local(kind: ErrorKind) -> bool {
    kind == ErrorKind::InvalidArgument || kind == ErrorKind::FeatureNotGranted
}

/// The kinds of error after which a connection cannot be used.
pub open spec fn is_fatal(kind: ErrorKind) -> bool {
    match kind {
        ErrorKind::Io => true,
        ErrorKind::Timeout => true,
        ErrorKind::Protocol => true,
        ErrorKind::Refused => true,
        ErrorKind::Closed => true,
        ErrorKind::Tls => true,
        ErrorKind::Handshake => true,
        _ => false,
    }
}

/// Whether an error is the refusal of a follower.
pub open spec fn redirects(e: ErrorView) -> bool {
    e.code == Some(NOT_LEADER@)
}

/// The name of a kind.
pub open spec fn kind_name(kind: ErrorKind) -> Seq<char> {
    match kind {
        ErrorKind::Io => "Io"@,
        ErrorKind::Timeout => "Timeout"@,
        ErrorKind::Protocol => "Protocol"@,
        ErrorKind::Auth => "Auth"@,
        ErrorKind::Handshake => "Handshake"@,
        ErrorKind::Server => "Server"@,
        ErrorKind::Refused => "Refused"@,
        ErrorKind::FeatureNotGranted => "FeatureNotGranted"@,
        ErrorKind::InvalidArgument => "InvalidArgument"@,
        ErrorKind::Tls => "Tls"@,
        ErrorKind::Closed => "Closed"@,
        ErrorKind::Pool => "Pool"@,
        ErrorKind::TransactionLeftOpen => "TransactionLeftOpen"@,
    }
}

/// The text of an error: its kind, its code in brackets when it has one, its
/// message, and the leader's address when it has one.
pub open spec fn error_line(e: ErrorView) -> Seq<char> {
    let head = match e.code {
        Some(code) => kind_name(e.kind) + " ["@ + code + "]: "@ + e.message,
        None => kind_name(e.kind) + ": "@ + e.message,
    };
    match e.leader_hint {
        Some(hint) => head + " (leader at "@ + hint + ")"@,
        None => head,
    }
}

/// The error for a failed read or write, with the system's text for it.
pub open spec fn io_error(failure: IoFailure, detail: Seq<char>) -> ErrorView {
    match failure {
        IoFailure::TimedOut => plain(
            ErrorKind::Timeout,
            "no reply within the read deadline: "@ + detail,
        ),
        IoFailure::WouldBlock => plain(
            ErrorKind::Timeout,
            "no reply within the read deadline: "@ + detail,
        ),
        IoFailure::UnexpectedEof => plain(
            ErrorKind::Io,
            "the server closed the connection mid-frame"@,
        ),
        IoFailure::Other => plain(ErrorKind::Io, detail),
    }
}

impl View for Error {
    type V = ErrorView;

    open spec fn view(&self) -> ErrorView {
        ErrorView {
            kind: self.kind,
            code: text::opt_view(self.code),
            message: self.message@,
            leader_hint: text::opt_view(self.leader_hint),
        }
    }
}

impl ErrorKind {
    /// The name of the kind.
    pub fn name(self) -> (s: &'static str)
        ensures
            s@ == kind_name(self),
    {
        match self {
            ErrorKind::Io => "Io",
            ErrorKind::Timeout => "Timeout",
            ErrorKind::Protocol => "Protocol",
            ErrorKind::Auth => "Auth",
            ErrorKind::Handshake => "Handshake",
            ErrorKind::Server => "Server",
            ErrorKind::Refused => "Refused",
            ErrorKind::FeatureNotGranted => "FeatureNotGranted",
            ErrorKind::InvalidArgument => "InvalidArgument",
            ErrorKind::Tls => "Tls",
            ErrorKind::Closed => "Closed",
            ErrorKind::Pool => "Pool",
            ErrorKind::TransactionLeftOpen => "TransactionLeftOpen",
        }
    }
}

impl Error {
    /// Build an error with no code.
    pub fn new(kind: ErrorKind, message: &str) -> (e: Error)
        ensures
            e@ == plain(kind, message@),
    {
        Error { kind, code: None, message: message.to_owned(), leader_hint: None }
    }

    /// Attach a machine-readable code.
    pub fn with_code(self, code: &str) -> (e: Error)
        ensures
            e@ == (ErrorView { code: Some(code@), ..self@ }),
    {
        Error { kind: self.kind, code: Some(code.to_owned()), message: self.message, leader_hint: self.leader_hint }
    }

    /// The error for a failed read or write of a socket.
    ///
    /// `detail` is the system's own text for the failure.
    pub fn from_io(failure: IoFailure, detail: &str) -> (e: Error)
        ensures
            e@ == io_error(failure, detail@),
    {
        match failure {
            IoFailure::TimedOut | IoFailure::WouldBlock => Error::new(
                ErrorKind::Timeout,
                text::join("no reply within the read deadline: ", detail).as_str(),
            ),
            IoFailure::UnexpectedEof => Error::new(
                ErrorKind::Io,
                "the server closed the connection mid-frame",
            ),
            IoFailure::Other => Error::new(ErrorKind::Io, detail),
        }
    }

    /// Attach a machine-readable code when the peer sent one.
    pub fn with_code_opt(self, code: Option<String>) -> (e: Error)
        ensures
            e@ == (ErrorView { code: text::opt_view(code), ..self@ }),
    {
        Error { kind: self.kind, code, message: self.message, leader_hint: self.leader_hint }
    }

    /// An operation refused here because the server did not grant the
    /// capability it needs. Nothing was sent.
    pub fn feature_refusal(message: &str) -> (e: Error)
        ensures
            e@ == ungranted(message@),
    {
        Error::new(ErrorKind::FeatureNotGranted, message).with_code("feature_not_granted")
    }

    /// Whether this client refused the call itself, so no request reached the
    /// server and nothing about the session changed.
    pub fn was_refused_locally(&self) -> (b: bool)
        ensures
            b == is_local(self@.kind),
    {
        self.kind == ErrorKind::InvalidArgument || self.kind == ErrorKind::FeatureNotGranted
    }

    /// The peer sent something this client cannot parse or did not expect.
    pub fn protocol(message: &str) -> (e: Error)
        ensures
            e@ == plain(ErrorKind::Protocol, message@),
    {
        Error::new(ErrorKind::Protocol, message)
    }

    /// An argument is refused before anything is sent.
    pub fn invalid(message: &str) -> (e: Error)
        ensures
            e@ == plain(ErrorKind::InvalidArgument, message@),
    {
        Error::new(ErrorKind::InvalidArgument, message)
    }

    /// The failure category.
    pub fn kind(&self) -> (k: ErrorKind)
        ensures
            k == self@.kind,
    {
        self.kind
    }

    /// The server's stable code, if any.
    pub fn code(&self) -> (r: Option<&str>)
        ensures
            self@.code == (match r { Some(s) => Some(s@), None => None::<Seq<char>> }),
    {
        text::borrowed(&self.code)
    }

    /// The leader address hint, if any.
    pub fn leader_hint(&self) -> (r: Option<&str>)
        ensures
            self@.leader_hint == (match r { Some(s) => Some(s@), None => None::<Seq<char>> }),
    {
        text::borrowed(&self.leader_hint)
    }

    /// The human-readable message.
    pub fn message(&self) -> (s: &str)
        ensures
            s@ == self@.message,
    {
        self.message.as_str()
    }

    /// True for every `not_leader` refusal, whether or not a hint is present.
    ///
    /// This client never follows the hint on its own: the address may be
    /// unreachable from here, a new connection must authenticate again, and a
    /// session transaction cannot move to another node.
    pub fn is_redirect(&self) -> (b: bool)
        ensures
            b == redirects(self@),
    {
        match &self.code {
            Some(code) => text::same(code.as_str(), NOT_LEADER),
            None => false,
        }
    }

    /// Whether the connection that produced this error can no longer be used.
    pub fn is_connection_fatal(&self) -> (b: bool)
        ensures
            b == is_fatal(self@.kind),
    {
        match self.kind {
            ErrorKind::Io | ErrorKind::Timeout | ErrorKind::Protocol | ErrorKind::Refused
            | ErrorKind::Closed | ErrorKind::Tls | ErrorKind::Handshake => true,
            _ => false,
        }
    }

    /// The error as one line of text.
    pub fn describe(&self) -> (s: String)
        ensures
            s@ == error_line(self@),
    {
        let mut out = self.kind.name().to_owned();
        match &self.code {
            Some(code) => {
                out.append(" [");
                out.append(code.as_str());
                out.append("]: ");
            },
            None => {
                out.append(": ");
            },
        }
        out.append(self.message.as_str());
        match &self.leader_hint {
            Some(hint) => {
                out.append(" (leader at ");
                out.append(hint.as_str());
                out.append(")");
            },
            None => {},
        }
        out
    }
}

impl Clone for Error {
    fn clone(&self) -> (e: Error)
        ensures
            e@ == self@,
    {
        Error {
            kind: self.kind,
            code: self.code.clone(),
            message: self.message.clone(),
            leader_hint: self.leader_hint.clone(),
        }
    }
}

impl PartialEq for Error {
    fn eq(&self, other: &Error) -> (b: bool) {
        self.kind == other.kind && text::same_option(&self.code, &other.code) && text::same(
            self.message.as_str(),
            other.message.as_str(),
        ) && text::same_option(&self.leader_hint, &other.leader_hint)
    }
}

impl Eq for Error {}

impl vstd::std_specs::cmp::PartialEqSpecImpl for Error {
    open spec fn obeys_eq_spec() -> bool {
        true
    }

    open spec fn eq_spec(&self, other: &Error) -> bool {
        self@ == other@
    }
}

/// The code alone makes an error a redirect: neither the message nor the
/// presence of a leader hint decides.
pub proof fn only_the_code_makes_a_redirect(e: ErrorView, other: ErrorView)
    requires
        e.code == other.code,
    ensures
        redirects(e) == redirects(other),
        redirects(ErrorView { code: Some(NOT_LEADER@), ..e }),
        !redirects(ErrorView { code: None, ..e }),
{
}

/// A refusal by the server or by this client itself is never fatal to the
/// connection.
pub proof fn refusals_are_not_fatal(kind: ErrorKind)
    requires
        kind == ErrorKind::Server || is_local(kind),
    ensures
        !is_fatal(kind),
{
}

/// An error holds what it was made of, and no code or hint of its own making.
pub proof fn errors_hold_what_they_were_made_of(
    kind: ErrorKind,
    message: Seq<char>,
    code: Option<Seq<char>>,
    e: Error,
)
    ensures
        plain(kind, message).kind == kind,
        plain(kind, message).message == message,
        plain(kind, message).code is None,
        plain(kind, message).leader_hint is None,
        coded(kind, message, code).kind == kind,
        coded(kind, message, code).message == message,
        coded(kind, message, code).code == code,
        coded(kind, message, code).leader_hint is None,
        ungranted(message).kind == ErrorKind::FeatureNotGranted,
        ungranted(message).message == message,
        ungranted(message).code == Some("feature_not_granted"@),
        ungranted(message).leader_hint is None,
        e@.kind == e.kind,
        e@.message == e.message@,
        e.code is None <==> e@.code is None,
        e.code matches Some(c) ==> e@.code == Some(c@),
        e.leader_hint is None <==> e@.leader_hint is None,
        e.leader_hint matches Some(h) ==> e@.leader_hint == Some(h@),
{
}

/// A connection survives exactly the errors that say nothing about it.
pub proof fn a_connection_survives_these(kind: ErrorKind)
    ensures
        !is_fatal(kind) <==> seq![
            ErrorKind::Auth,
            ErrorKind::Server,
            ErrorKind::FeatureNotGranted,
            ErrorKind::InvalidArgument,
            ErrorKind::Pool,
            ErrorKind::TransactionLeftOpen,
        ].contains(kind),
        is_local(kind) <==> seq![ErrorKind::InvalidArgument, ErrorKind::FeatureNotGranted].contains(
            kind,
        ),
{
    let all = seq![
        ErrorKind::Auth,
        ErrorKind::Server,
        ErrorKind::FeatureNotGranted,
        ErrorKind::InvalidArgument,
        ErrorKind::Pool,
        ErrorKind::TransactionLeftOpen,
    ];
    assert(all[0] == ErrorKind::Auth && all[1] == ErrorKind::Server && all[2]
        == ErrorKind::FeatureNotGranted && all[3] == ErrorKind::InvalidArgument && all[4]
        == ErrorKind::Pool && all[5] == ErrorKind::TransactionLeftOpen);
    let own = seq![ErrorKind::InvalidArgument, ErrorKind::FeatureNotGranted];
    assert(own[0] == ErrorKind::InvalidArgument && own[1] == ErrorKind::FeatureNotGranted);
}

/// A redirect is an error with the code of one.
pub proof fn a_redirect_is_known_by_its_code(e: ErrorView)
    ensures
        redirects(e) <==> e.code == Some("not_leader"@),
{
}

/// A kind of error is written by its own name, so no two are written alike.
pub proof fn kinds_are_written_by_name(a: ErrorKind, b: ErrorKind)
    ensures
        kind_name(ErrorKind::Io) == "Io"@,
        kind_name(ErrorKind::Timeout) == "Timeout"@,
        kind_name(ErrorKind::Protocol) == "Protocol"@,
        kind_name(ErrorKind::Auth) == "Auth"@,
        kind_name(ErrorKind::Handshake) == "Handshake"@,
        kind_name(ErrorKind::Server) == "Server"@,
        kind_name(ErrorKind::Refused) == "Refused"@,
        kind_name(ErrorKind::FeatureNotGranted) == "FeatureNotGranted"@,
        kind_name(ErrorKind::InvalidArgument) == "InvalidArgument"@,
        kind_name(ErrorKind::Tls) == "Tls"@,
        kind_name(ErrorKind::Closed) == "Closed"@,
        kind_name(ErrorKind::Pool) == "Pool"@,
        kind_name(ErrorKind::TransactionLeftOpen) == "TransactionLeftOpen"@,
        a != b ==> kind_name(a) != kind_name(b),
{
    reveal_strlit("Io");
    reveal_strlit("Timeout");
    reveal_strlit("Protocol");
    reveal_strlit("Auth");
    reveal_strlit("Handshake");
    reveal_strlit("Server");
    reveal_strlit("Refused");
    reveal_strlit("FeatureNotGranted");
    reveal_strlit("InvalidArgument");
    reveal_strlit("Tls");
    reveal_strlit("Closed");
    reveal_strlit("Pool");
    reveal_strlit("TransactionLeftOpen");
    if kind_name(a) == kind_name(b) {
        assert(kind_name(a).len() == kind_name(b).len());
        assert(kind_name(a)[0] == kind_name(b)[0]);
        assert(kind_name(a)[1] == kind_name(b)[1]);
        assert(kind_name(a)[2] == kind_name(b)[2] || kind_name(a).len() == 2);
    }
}

/// An error is written as its kind and message, with the code between them and the
/// leader behind them where it has one.
pub proof fn an_error_is_written_with_all_it_holds(
    kind: ErrorKind,
    message: Seq<char>,
    code: Seq<char>,
    hint: Seq<char>,
    e: ErrorView,
)
    ensures
        error_line(plain(kind, message)) == kind_name(kind) + ": "@ + message,
        error_line(coded(kind, message, Some(code))) == kind_name(kind) + " ["@ + code + "]: "@
            + message,
        error_line(ErrorView { leader_hint: Some(hint), ..e }) == error_line(
            ErrorView { leader_hint: None, ..e },
        ) + " (leader at "@ + hint + ")"@,
{
}

/// A missed deadline is a timeout, and any other failure to read or write is one of
/// input and output. What the system said is passed on, except that a stream that
/// ends is always told in the same words.
pub proof fn io_failures_are_told_apart(detail: Seq<char>, other: Seq<char>)
    ensures
        io_error(IoFailure::TimedOut, detail).kind == ErrorKind::Timeout,
        io_error(IoFailure::WouldBlock, detail) == io_error(IoFailure::TimedOut, detail),
        io_error(IoFailure::TimedOut, detail).message == "no reply within the read deadline: "@
            + detail,
        io_error(IoFailure::UnexpectedEof, detail).kind == ErrorKind::Io,
        io_error(IoFailure::UnexpectedEof, detail) == io_error(IoFailure::UnexpectedEof, other),
        io_error(IoFailure::UnexpectedEof, detail).message
            == "the server closed the connection mid-frame"@,
        io_error(IoFailure::Other, detail).kind == ErrorKind::Io,
        io_error(IoFailure::Other, detail).message == detail,
        forall|f: IoFailure|
            (#[trigger] io_error(f, detail)).code is None && io_error(f, detail).leader_hint
                is None,
{
}

/// Errors are equal when all that they hold is.
pub proof fn errors_are_equal_when_all_they_hold_is(a: Error, b: Error)
    ensures
        a.eq_spec(&b) <==> {
            &&& a.kind == b.kind
            &&& a.message@ == b.message@
            &&& text::opt_view(a.code) == text::opt_view(b.code)
            &&& text::opt_view(a.leader_hint) == text::opt_view(b.leader_hint)
        },
{
}

/// What an error tells of itself.
pub proof fn an_error_tells_what_it_holds(
    e: &Error,
    k: ErrorKind,
    s: &str,
    o: Option<&str>,
    b: bool,
    line: String,
)
    ensures
        call_ensures(Error::kind, (e,), k) ==> k == e.kind,
        call_ensures(Error::message, (e,), s) ==> s@ == e.message@,
        call_ensures(Error::code, (e,), o) ==> (o is Some <==> e.code is Some) && (o matches Some(c)
            ==> c@ == e.code->0@),
        call_ensures(Error::leader_hint, (e,), o) ==> (o is Some <==> e.leader_hint is Some) && (
        o matches Some(h) ==> h@ == e.leader_hint->0@),
        call_ensures(Error::is_redirect, (e,), b) ==> (b <==> e.code is Some && e.code->0@
            == "not_leader"@),
        call_ensures(Error::is_connection_fatal, (e,), b) ==> (b <==> is_fatal(e.kind)),
        call_ensures(Error::was_refused_locally, (e,), b) ==> (b <==> e.kind
            == ErrorKind::InvalidArgument || e.kind == ErrorKind::FeatureNotGranted),
        call_ensures(Error::describe, (e,), line) ==> line@ == error_line(e@),
{
}

/// What `==` gives on errors.
pub proof fn errors_compare_by_what_they_hold(a: &Error, b: &Error, r: bool)
    requires
        call_ensures(<Error as PartialEq>::eq, (a, b), r),
    ensures
        r <==> a@ == b@,
{
}

/// What the constructors of errors make.
pub proof fn errors_are_made_of_what_was_given(
    kind: ErrorKind,
    message: &str,
    code: &str,
    failure: IoFailure,
    e: Error,
    f: Error,
)
    ensures
        call_ensures(Error::new, (kind, message), f) ==> f.kind == kind && f.message@ == message@
            && f.code is None && f.leader_hint is None,
        call_ensures(Error::with_code, (e, code), f) ==> f.kind == e.kind && f.message@
            == e.message@ && f.code is Some && f.code->0@ == code@,
        call_ensures(Error::from_io, (failure, message), f) ==> f@ == io_error(failure, message@),
{
    if call_ensures(Error::new, (kind, message), f) {
        assert(f@.code is None && f@.leader_hint is None);
    }
    if call_ensures(Error::with_code, (e, code), f) {
        assert(f@.code == Some(code@) && f@.message == e@.message && f@.kind == e@.kind);
    }
}

} // verus!
