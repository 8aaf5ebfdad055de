//! Opening the socket under a [`crate::Client`].
//!
//! Whoever opens sockets resolves the address, then makes the attempts that
//! [`Dial`] asks for, one after the other.

use crate::error::{Error, ErrorKind, Result};
#[allow(unused_imports)]
use crate::error::{plain, ErrorView};
use crate::options::Duration;
#[allow(unused_imports)]
use crate::options::bound_of;
use crate::text;
use vstd::prelude::*;

verus! {

/// A host and a port in one text.
pub open spec fn address_text(host: Seq<char>, port: u16) -> Seq<char> {
    host + ":"@ + text::decimal(port as nat)
}

fn address(host: &str, port: u16) -> (s: String)
    ensures
        s@ == address_text(host@, port),
{
    let mut out = text::join(host, ":");
    text::push_decimal(&mut out, port as u128);
    out
}

/// The error for a host that cannot be resolved; `reason` is the system's text.
pub fn cannot_resolve(host: &str, port: u16, reason: &str) -> (e: Error)
    ensures
        e@ == plain(
            ErrorKind::Io,
            "cannot resolve "@ + address_text(host@, port) + ": "@ + reason@,
        ),
{
    let mut message = text::join("cannot resolve ", address(host, port).as_str());
    message.append(": ");
    message.append(reason);
    Error::new(ErrorKind::Io, message.as_str())
}

/// The addresses of a host, tried in order until one answers.
#[derive(Debug)]
pub struct Dial {
    host: String,
    port: u16,
    timeout: Option<Duration>,
    addresses: usize,
    tried: usize,
}

/// What a [`Dial`] knows.
#[verifier::ext_equal]
pub struct DialView {
    pub host: Seq<char>,
    pub port: u16,
    pub timeout: Option<Duration>,
    pub addresses: nat,
    pub tried: nat,
}

impl View for Dial {
    type V = DialView;

    closed spec fn view(&self) -> DialView {
        DialView {
            host: self.host@,
            port: self.port,
            timeout: self.timeout,
            addresses: self.addresses as nat,
            tried: self.tried as nat,
        }
    }
}

impl Dial {
    #[verifier::type_invariant]
    spec fn well_formed(self) -> bool {
        self.tried < self.addresses
    }

    /// Begin with the first of so many addresses. Every attempt is bounded by
    /// the timeout, unless that has no length.
    pub fn begin(host: &str, port: u16, timeout: Option<Duration>, addresses: usize) -> (r: Result<
        Dial,
    >)
        ensures
            match r {
                Ok(d) => addresses > 0 && d@ == (DialView {
                    host: host@,
                    port,
                    timeout,
                    addresses: addresses as nat,
                    tried: 0,
                }),
                Err(e) => addresses == 0 && e@ == plain(
                    ErrorKind::Io,
                    address_text(host@, port) + " resolved to no addresses"@,
                ),
            },
    {
        if addresses == 0 {
            return Err(
                Error::new(
                    ErrorKind::Io,
                    text::join(address(host, port).as_str(), " resolved to no addresses").as_str(),
                ),
            );
        }
        Ok(Dial { host: host.to_owned(), port, timeout, addresses, tried: 0 })
    }

    /// The attempt to make now: the index of the address, and the bound on the
    /// attempt when there is one.
    pub fn attempt(&self) -> (r: (usize, Option<Duration>))
        ensures
            r.0 == self@.tried,
            r.0 < self@.addresses,
            r.1 == bound_of(self@.timeout),
    {
        proof {
            use_type_invariant(self);
        }
        (self.tried, crate::options::bounded(self.timeout))
    }

    /// The attempt failed, with the system's text for it: the next address is
    /// tried, and after the last one its failure is the one that is reported.
    pub fn failed(self, reason: &str) -> (r: Result<Dial>)
        ensures
            match r {
                Ok(d) => self@.tried + 1 < self@.addresses && d@ == (DialView {
                    tried: self@.tried + 1,
                    ..self@
                }),
                Err(e) => self@.tried + 1 == self@.addresses && e@ == plain(
                    ErrorKind::Io,
                    "cannot connect to "@ + address_text(self@.host, self@.port) + ": "@ + reason@,
                ),
            },
    {
        proof {
            use_type_invariant(&self);
        }
        if self.addresses - self.tried > 1 {
            Ok(
                Dial {
                    host: self.host,
                    port: self.port,
                    timeout: self.timeout,
                    addresses: self.addresses,
                    tried: self.tried + 1,
                },
            )
        } else {
            let mut message = text::join(
                "cannot connect to ",
                address(self.host.as_str(), self.port).as_str(),
            );
            message.append(": ");
            message.append(reason);
            Err(Error::new(ErrorKind::Io, message.as_str()))
        }
    }
}

/// An address is written as its host, a colon and its port.
pub proof fn addresses_are_written_with_their_port(host: Seq<char>, port: u16)
    ensures
        address_text(host, port).len() > host.len() + 1,
        address_text(host, port).take(host.len() as int) == host,
        address_text(host, port)[host.len() as int] == ':',
        text::read_natural(address_text(host, port).skip((host.len() + 1) as int)) == Some(port as nat),
{
    reveal_strlit(":");
    text::decimal_reads_back(port as int);
    let whole = address_text(host, port);
    assert(whole.take(host.len() as int) =~= host);
    assert(whole.skip((host.len() + 1) as int) =~= text::decimal(port as nat));
}

/// A dial is seen as it is.
proof fn a_dial_is_seen_as_it_is(d: Dial)
    ensures
        d@.host == d.host@,
        d@.port == d.port,
        d@.timeout == d.timeout,
        d@.addresses == d.addresses,
        d@.tried == d.tried,
{
}

/// What a dial does: it tries every address once, in order, and fails with the last
/// reason when none is left.
pub proof fn a_dial_tries_every_address_once(
    host: &str,
    port: u16,
    timeout: Option<Duration>,
    addresses: usize,
    begun: Result<Dial>,
    d: Dial,
    attempt: (usize, Option<Duration>),
    reason: &str,
    next: Result<Dial>,
)
    ensures
        call_ensures(Dial::begin, (host, port, timeout, addresses), begun) ==> (begun is Ok
            <==> addresses > 0),
        call_ensures(Dial::begin, (host, port, timeout, addresses), begun) ==> (begun matches Ok(x)
            ==> x@.tried == 0 && x@.addresses == addresses && x@.host == host@ && x@.port == port
            && x@.timeout == timeout),
        call_ensures(Dial::begin, (host, port, timeout, addresses), begun) ==> (begun matches Err(e)
            ==> e@ == plain(
            ErrorKind::Io,
            address_text(host@, port) + " resolved to no addresses"@,
        )),
        call_ensures(Dial::attempt, (&d,), attempt) ==> attempt.0 == d@.tried && attempt.1
            == bound_of(d@.timeout),
        call_ensures(Dial::failed, (d, reason), next) ==> (next is Ok <==> d@.tried + 1
            < d@.addresses),
        call_ensures(Dial::failed, (d, reason), next) ==> (next matches Ok(x) ==> x@ == (DialView {
            tried: d@.tried + 1,
            ..d@
        })),
        call_ensures(Dial::failed, (d, reason), next) ==> (next matches Err(e) ==> e@ == plain(
            ErrorKind::Io,
            "cannot connect to "@ + address_text(d@.host, d@.port) + ": "@ + reason@,
        )),
{
}

/// A host that cannot be found is refused by its address and the reason.
pub proof fn a_host_that_cannot_be_found_is_named(host: &str, port: u16, reason: &str, e: Error)
    requires
        call_ensures(cannot_resolve, (host, port, reason), e),
    ensures
        e@ == plain(
            ErrorKind::Io,
            "cannot resolve "@ + address_text(host@, port) + ": "@ + reason@,
        ),
{
}

} // verus!
