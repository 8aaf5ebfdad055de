//! What a connection is configured with.

use crate::text;
use vstd::prelude::*;

verus! {

/// The port `tricore-server` listens on unless it was configured otherwise.
pub const DEFAULT_PORT: u16 = 8427;

/// The database a request names when none was chosen.
pub const DEFAULT_DATABASE: &'static str = "main";

/// This crate's own version, so an application can report the client it uses.
pub const VERSION: &'static str = "0.1.0";

/// The name the client reports in the handshake when none was chosen.
pub const DEFAULT_CLIENT_NAME: &'static str = "tricoredb-rust/0.1.0";

/// The client understands a request-scoped correlation id that the server joins
/// to its access log, audit trail and cancel registry.
pub const FEATURE_CORRELATION_ID: u64 = 1;

/// The server binds `?` placeholders to a typed array sent beside the
/// statement, instead of the client rendering values into the SQL text.
pub const FEATURE_SERVER_PARAMS: u64 = 2;

/// `BEGIN`, the statements, and `COMMIT`/`ROLLBACK` as separate requests on one
/// connection, with a real rollback boundary between them.
pub const FEATURE_SESSION_TXN: u64 = 4;

/// Every capability this build understands, and what [`Options`] announces
/// unless [`Options::features`] narrows it.
pub const ALL_FEATURES: u64 = 7;

/// A span of time.
#[derive(Debug, Clone, Copy, PartialEq, Eq, Structural)]
pub struct Duration {
    secs: u64,
    nanos: u32,
}

impl Duration {
    #[verifier::type_invariant]
    spec fn well_formed(self) -> bool {
        self.nanos < 1_000_000_000
    }

    /// The length in nanoseconds.
    pub closed spec fn spec_nanos(self) -> nat {
        self.secs as nat * 1_000_000_000 + self.nanos as nat
    }

    /// A span of whole seconds and the nanoseconds on top.
    pub fn new(secs: u64, nanos: u32) -> (d: Duration)
        requires
            nanos < 1_000_000_000,
        ensures
            d@ == secs as nat * 1_000_000_000 + nanos as nat,
    {
        Duration { secs, nanos }
    }

    /// A span of whole seconds.
    pub fn from_secs(secs: u64) -> (d: Duration)
        ensures
            d@ == secs as nat * 1_000_000_000,
    {
        Duration { secs, nanos: 0 }
    }

    /// A span of whole milliseconds.
    pub fn from_millis(millis: u64) -> (d: Duration)
        ensures
            d@ == millis as nat * 1_000_000,
    {
        Duration { secs: millis / 1000, nanos: (millis % 1000) as u32 * 1_000_000 }
    }

    /// Whether the span has no length.
    pub fn is_zero(&self) -> (b: bool)
        ensures
            b == (self@ == 0),
    {
        self.secs == 0 && self.nanos == 0
    }

    /// The whole milliseconds in the span.
    pub fn as_millis(&self) -> (n: u128)
        ensures
            n == self@ / 1_000_000,
    {
        proof {
            use_type_invariant(self);
            let s = self.secs as nat;
            let n = self.nanos as nat;
            assert((s * 1_000_000_000 + n) / 1_000_000 == s * 1000 + n / 1_000_000);
        }
        self.secs as u128 * 1000 + (self.nanos / 1_000_000) as u128
    }

    /// The whole seconds in the span.
    pub fn as_secs(&self) -> (n: u64)
        ensures
            n == self@ / 1_000_000_000,
    {
        proof {
            use_type_invariant(self);
        }
        self.secs
    }

    /// The nanoseconds on top of the whole seconds.
    pub fn subsec_nanos(&self) -> (n: u32)
        ensures
            n == self@ % 1_000_000_000,
    {
        proof {
            use_type_invariant(self);
        }
        self.nanos
    }
}

impl View for Duration {
    type V = nat;

    open spec fn view(&self) -> nat {
        self.spec_nanos()
    }
}

/// A bound on a wait: a span without length bounds nothing.
pub open spec fn bound_of(timeout: Option<Duration>) -> Option<Duration> {
    match timeout {
        Some(d) => if d@ == 0 {
            None
        } else {
            Some(d)
        },
        None => None,
    }
}

/// Drops a bound without length.
pub fn bounded(timeout: Option<Duration>) -> (r: Option<Duration>)
    ensures
        r == bound_of(timeout),
{
    match timeout {
        Some(d) => if d.is_zero() {
            None
        } else {
            Some(d)
        },
        None => None,
    }
}

/// How the TLS session is set up.
///
/// Supplying [`TlsOptions`] at all is what turns TLS on. Once on, the server
/// certificate is verified and its name checked unless
/// [`TlsOptions::danger_accept_invalid_certs`] says otherwise.
///
/// Errors name the *path* of a certificate or key file, never its contents, so
/// key material cannot reach a log through this crate.
#[derive(Debug, Clone, PartialEq, Eq)]
pub struct TlsOptions {
    /// PEM bundle used to verify the server.
    ///
    /// When this is `None` the trust store stays **empty** rather than falling
    /// back to the operating system's roots, so a wrong path fails closed
    /// instead of quietly succeeding against some unrelated public CA.
    pub ca_file: Option<String>,
    /// The name expected in the server's certificate, also sent as SNI.
    /// Defaults to `"localhost"`.
    pub server_name: Option<String>,
    /// Turns off certificate and host name verification.
    ///
    /// **Development only.** Such a connection looks encrypted but authenticates
    /// nothing, so anyone on the path can sit in the middle undetected — which
    /// is worse than visibly using plain TCP.
    pub danger_accept_invalid_certs: bool,
    /// PEM client certificate chain to present (mutual TLS). Needs
    /// [`TlsOptions::client_key_file`].
    pub client_cert_file: Option<String>,
    /// PEM private key for [`TlsOptions::client_cert_file`].
    pub client_key_file: Option<String>,
}

impl Default for TlsOptions {
    fn default() -> (t: TlsOptions)
        ensures
            t.ca_file is None,
            t.server_name is None,
            !t.danger_accept_invalid_certs,
            t.client_cert_file is None,
            t.client_key_file is None,
    {
        TlsOptions {
            ca_file: None,
            server_name: None,
            danger_accept_invalid_certs: false,
            client_cert_file: None,
            client_key_file: None,
        }
    }
}

impl TlsOptions {
    /// TLS with an empty trust store: every server certificate is refused until
    /// [`TlsOptions::ca_file`] names the CA that signed it.
    pub fn new() -> (t: TlsOptions)
        ensures
            t.ca_file is None,
            t.server_name is None,
            !t.danger_accept_invalid_certs,
            t.client_cert_file is None,
            t.client_key_file is None,
    {
        TlsOptions::default()
    }

    /// Verify the server against this PEM bundle.
    pub fn ca_file(self, path: &str) -> (t: TlsOptions)
        ensures
            text::opt_view(t.ca_file) == Some(path@),
            t == (TlsOptions { ca_file: t.ca_file, ..self }),
    {
        TlsOptions { ca_file: Some(path.to_owned()), ..self }
    }

    /// Expect this name in the server's certificate.
    pub fn server_name(self, name: &str) -> (t: TlsOptions)
        ensures
            text::opt_view(t.server_name) == Some(name@),
            t == (TlsOptions { server_name: t.server_name, ..self }),
    {
        TlsOptions { server_name: Some(name.to_owned()), ..self }
    }

    /// Present a client identity (mutual TLS). Both files are required.
    pub fn client_identity(self, cert_file: &str, key_file: &str) -> (t: TlsOptions)
        ensures
            text::opt_view(t.client_cert_file) == Some(cert_file@),
            text::opt_view(t.client_key_file) == Some(key_file@),
            t == (TlsOptions {
                client_cert_file: t.client_cert_file,
                client_key_file: t.client_key_file,
                ..self
            }),
    {
        TlsOptions {
            client_cert_file: Some(cert_file.to_owned()),
            client_key_file: Some(key_file.to_owned()),
            ..self
        }
    }

    /// Turn off every check. **Development only** — see the field's own docs.
    pub fn danger_accept_invalid_certs(self, yes: bool) -> (t: TlsOptions)
        ensures
            t == (TlsOptions { danger_accept_invalid_certs: yes, ..self }),
    {
        TlsOptions { danger_accept_invalid_certs: yes, ..self }
    }
}

/// What to connect to, and how.
#[derive(Debug, Clone, PartialEq, Eq)]
pub struct Options {
    /// Server host. Defaults to `127.0.0.1`.
    pub host: String,
    /// Server port. Defaults to [`DEFAULT_PORT`].
    pub port: u16,
    /// Principal to authenticate as. `None` skips authentication, which only a
    /// server that allows anonymous sessions accepts.
    pub user: Option<String>,
    /// The password or token sent with [`Options::user`].
    pub secret: Option<String>,
    /// The database named in every request. Defaults to [`DEFAULT_DATABASE`].
    pub database: String,
    /// The name this client reports in the handshake.
    pub client_name: String,
    /// A bound on the TCP connect, and on the TLS handshake when TLS is on.
    /// `None` leaves it to the operating system.
    pub connect_timeout: Option<Duration>,
    /// A bound on each wait for a reply, applied after the handshake.
    ///
    /// `None` (the default) means no bound. A statement legitimately runs for as
    /// long as it runs, and the server's own `statement_timeout_ms` is unlimited
    /// by default, so any number chosen here would be a guess at a guarantee the
    /// server does not make. Use [`crate::Client::set_request_timeout`] to make
    /// the *server* stop instead of only ending the wait.
    pub read_timeout: Option<Duration>,
    /// TLS settings. `None` means plain TCP, on which the secret crosses the
    /// wire in the clear.
    pub tls: Option<TlsOptions>,
    /// The capability bitmap announced in the handshake. `None` means
    /// [`ALL_FEATURES`].
    ///
    /// The server grants only what was asked for, so masking a bit out here is
    /// how a caller opts out of one.
    ///
    /// An explicit `Some(0)` announces nothing, which is why this is an option
    /// rather than a plain `u64`.
    pub features: Option<u64>,
}

/// The options of a connection that nothing was chosen for.
pub open spec fn is_default(o: Options) -> bool {
    &&& o.host@ == "127.0.0.1"@
    &&& o.port == DEFAULT_PORT
    &&& o.user is None
    &&& o.secret is None
    &&& o.database@ == DEFAULT_DATABASE@
    &&& o.client_name@ == DEFAULT_CLIENT_NAME@
    &&& o.connect_timeout is None
    &&& o.read_timeout is None
    &&& o.tls is None
    &&& o.features is None
}

impl Default for Options {
    fn default() -> (o: Options)
        ensures
            is_default(o),
    {
        Options {
            host: "127.0.0.1".to_owned(),
            port: DEFAULT_PORT,
            user: None,
            secret: None,
            database: DEFAULT_DATABASE.to_owned(),
            client_name: DEFAULT_CLIENT_NAME.to_owned(),
            connect_timeout: None,
            read_timeout: None,
            tls: None,
            features: None,
        }
    }
}

impl Options {
    /// Options for one host and port, with every other field defaulted.
    pub fn new(host: &str, port: u16) -> (o: Options)
        ensures
            o.host@ == host@,
            o.port == port,
            exists|d: Options| #[trigger] is_default(d) && o == (Options { host: o.host, port, ..d }),
    {
        let d = Options::default();
        let ghost spare = d;
        let o = Options { host: host.to_owned(), port, ..d };
        assert(is_default(spare) && o == (Options { host: o.host, port, ..spare }));
        o
    }

    /// Authenticate as this principal.
    pub fn user(self, user: &str) -> (o: Options)
        ensures
            text::opt_view(o.user) == Some(user@),
            o == (Options { user: o.user, ..self }),
    {
        Options { user: Some(user.to_owned()), ..self }
    }

    /// The secret sent with the user name.
    pub fn secret(self, secret: &str) -> (o: Options)
        ensures
            text::opt_view(o.secret) == Some(secret@),
            o == (Options { secret: o.secret, ..self }),
    {
        Options { secret: Some(secret.to_owned()), ..self }
    }

    /// Name the database every request runs against.
    pub fn database(self, database: &str) -> (o: Options)
        ensures
            o.database@ == database@,
            o == (Options { database: o.database, ..self }),
    {
        Options { database: database.to_owned(), ..self }
    }

    /// Identify this application in the handshake.
    pub fn client_name(self, name: &str) -> (o: Options)
        ensures
            o.client_name@ == name@,
            o == (Options { client_name: o.client_name, ..self }),
    {
        Options { client_name: name.to_owned(), ..self }
    }

    /// Bound the connect (and the TLS handshake).
    pub fn connect_timeout(self, timeout: Duration) -> (o: Options)
        ensures
            o == (Options { connect_timeout: Some(timeout), ..self }),
    {
        Options { connect_timeout: Some(timeout), ..self }
    }

    /// Bound each wait for a reply.
    pub fn read_timeout(self, timeout: Duration) -> (o: Options)
        ensures
            o == (Options { read_timeout: Some(timeout), ..self }),
    {
        Options { read_timeout: Some(timeout), ..self }
    }

    /// Turn TLS on with these settings.
    pub fn tls(self, tls: TlsOptions) -> (o: Options)
        ensures
            o == (Options { tls: Some(tls), ..self }),
    {
        Options { tls: Some(tls), ..self }
    }

    /// Announce exactly these capabilities in the handshake.
    pub fn features(self, features: u64) -> (o: Options)
        ensures
            o == (Options { features: Some(features), ..self }),
    {
        Options { features: Some(features), ..self }
    }

    /// The capabilities to announce: what was chosen, even when that is none at
    /// all, and every one when nothing was chosen.
    pub fn announced_features(&self) -> (n: u64)
        ensures
            n == announced(self.features),
    {
        match self.features {
            Some(features) => features,
            None => ALL_FEATURES,
        }
    }
}

/// The capabilities that a choice of them announces.
pub open spec fn announced(features: Option<u64>) -> u64 {
    match features {
        Some(f) => f,
        None => ALL_FEATURES,
    }
}

/// Choosing no capability is not the same as choosing nothing: what was chosen
/// is announced as it is.
pub proof fn a_choice_of_features_is_announced_as_it_is(features: u64)
    ensures
        announced(Some(features)) == features,
        announced(Some(0)) != announced(None),
{
}

/// Each capability has a bit of its own, and together they are all of them.
pub proof fn features_have_their_own_bits()
    ensures
        FEATURE_CORRELATION_ID & FEATURE_SERVER_PARAMS == 0,
        FEATURE_CORRELATION_ID & FEATURE_SESSION_TXN == 0,
        FEATURE_SERVER_PARAMS & FEATURE_SESSION_TXN == 0,
        FEATURE_CORRELATION_ID | FEATURE_SERVER_PARAMS | FEATURE_SESSION_TXN == ALL_FEATURES,
{
    assert(1u64 & 2u64 == 0) by (bit_vector);
    assert(1u64 & 4u64 == 0) by (bit_vector);
    assert(2u64 & 4u64 == 0) by (bit_vector);
    assert(1u64 | 2u64 | 4u64 == 7) by (bit_vector);
}

/// A bound of no time at all is no bound, and any other is kept as it is.
pub proof fn a_bound_of_no_time_is_none(d: Duration)
    ensures
        bound_of(None) is None,
        d@ == 0 ==> bound_of(Some(d)) is None,
        d@ > 0 ==> bound_of(Some(d)) == Some(d),
{
}

/// Options that were not touched name the local server, the main database and
/// nothing else.
pub proof fn untouched_options_name_the_local_server(o: Options)
    requires
        is_default(o),
    ensures
        o.host@ == "127.0.0.1"@,
        o.port == 8427,
        o.database@ == "main"@,
        o.client_name@ == "tricoredb-rust/0.1.0"@,
        o.user is None && o.secret is None,
        o.connect_timeout is None && o.read_timeout is None,
        o.tls is None && o.features is None,
        announced(o.features) == 7,
{
}

/// A span is its seconds and the nanoseconds beyond them.
proof fn a_span_is_its_seconds_and_nanoseconds(d: Duration)
    ensures
        d@ == d.secs as nat * 1_000_000_000 + d.nanos as nat,
{
}

/// What the spans are made of and give back.
pub proof fn spans_are_what_they_were_made_of(
    secs: u64,
    nanos: u32,
    d: Duration,
    s: &Duration,
    n: u128,
    k: u64,
    m: u32,
    b: bool,
)
    ensures
        call_ensures(Duration::new, (secs, nanos), d) ==> d@ == secs * 1_000_000_000 + nanos,
        call_ensures(Duration::from_secs, (secs,), d) ==> d@ == secs * 1_000_000_000,
        call_ensures(Duration::from_millis, (secs,), d) ==> d@ == secs * 1_000_000,
        call_ensures(Duration::as_millis, (s,), n) ==> n * 1_000_000 <= s@ < (n + 1) * 1_000_000,
        call_ensures(Duration::as_secs, (s,), k) && call_ensures(Duration::subsec_nanos, (s,), m)
            ==> s@ == k * 1_000_000_000 + m && m < 1_000_000_000,
        call_ensures(Duration::is_zero, (s,), b) ==> (b <==> s@ == 0),
{
}

/// What each call that sets an option does: it sets its own and leaves the others.
pub proof fn each_option_is_set_alone(
    o: Options,
    text: &str,
    d: Duration,
    tls: TlsOptions,
    features: u64,
    p: Options,
)
    ensures
        call_ensures(Options::user, (o, text), p) ==> text::opt_view(p.user) == Some(text@) && p
            == (Options { user: p.user, ..o }),
        call_ensures(Options::secret, (o, text), p) ==> text::opt_view(p.secret) == Some(text@) && p
            == (Options { secret: p.secret, ..o }),
        call_ensures(Options::database, (o, text), p) ==> p.database@ == text@ && p == (Options {
            database: p.database,
            ..o
        }),
        call_ensures(Options::client_name, (o, text), p) ==> p.client_name@ == text@ && p
            == (Options { client_name: p.client_name, ..o }),
        call_ensures(Options::connect_timeout, (o, d), p) ==> p.connect_timeout == Some(d)
            && p.read_timeout == o.read_timeout,
        call_ensures(Options::read_timeout, (o, d), p) ==> p.read_timeout == Some(d)
            && p.connect_timeout == o.connect_timeout,
        call_ensures(Options::tls, (o, tls), p) ==> p.tls == Some(tls) && p.features == o.features,
        call_ensures(Options::features, (o, features), p) ==> p.features == Some(features) && p.tls
            == o.tls,
{
}

/// What each call that sets a TLS option does: it sets its own and leaves the others.
pub proof fn each_tls_option_is_set_alone(
    t: TlsOptions,
    text: &str,
    other: &str,
    yes: bool,
    u: TlsOptions,
)
    ensures
        call_ensures(TlsOptions::new, (), u) ==> u.ca_file is None && u.server_name is None
            && !u.danger_accept_invalid_certs && u.client_cert_file is None && u.client_key_file
            is None,
        call_ensures(TlsOptions::ca_file, (t, text), u) ==> text::opt_view(u.ca_file) == Some(text@)
            && u == (TlsOptions { ca_file: u.ca_file, ..t }),
        call_ensures(TlsOptions::server_name, (t, text), u) ==> text::opt_view(u.server_name)
            == Some(text@) && u == (TlsOptions { server_name: u.server_name, ..t }),
        call_ensures(TlsOptions::client_identity, (t, text, other), u) ==> text::opt_view(
            u.client_cert_file,
        ) == Some(text@) && text::opt_view(u.client_key_file) == Some(other@) && u.ca_file
            == t.ca_file && u.server_name == t.server_name && u.danger_accept_invalid_certs
            == t.danger_accept_invalid_certs,
        call_ensures(TlsOptions::danger_accept_invalid_certs, (t, yes), u)
            ==> u.danger_accept_invalid_certs == yes && u.ca_file == t.ca_file && u.server_name
            == t.server_name,
{
}

/// What `Options::new` makes: the server that was named, and otherwise the usual.
pub proof fn new_options_name_their_server(host: &str, port: u16, o: Options, n: u64)
    ensures
        call_ensures(Options::new, (host, port), o) ==> {
            &&& o.host@ == host@
            &&& o.port == port
            &&& o.database@ == "main"@
            &&& o.user is None && o.secret is None
            &&& o.connect_timeout is None && o.read_timeout is None
            &&& o.tls is None && o.features is None
        },
        call_ensures(Options::announced_features, (&o,), n) ==> n == match o.features {
            Some(chosen) => chosen,
            None => 7,
        },
{
}

} // verus!
