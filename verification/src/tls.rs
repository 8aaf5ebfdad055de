//! The rules for a TLS session.
//!
//! Two rules this module keeps, because both are easy to get wrong in a way
//! nothing visibly fails on:
//!
//! * With no CA file the trust store stays **empty**. It never falls back to
//!   the operating system's roots, so a wrong path fails closed.
//! * Errors name a certificate or key file's **path**, never its contents.

use crate::error::{Error, ErrorKind, Result};
#[allow(unused_imports)]
use crate::error::{plain, ErrorView};
use crate::options::TlsOptions;
use crate::text;
use vstd::prelude::*;

verus! {

/// The name expected in the server's certificate when none was chosen.
pub const DEFAULT_SERVER_NAME: &'static str = "localhost";

/// How the server is verified.
#[derive(Debug, Clone, Copy, PartialEq, Eq)]
pub enum Trust<'a> {
    /// Nothing is checked.
    AcceptAny,
    /// Against the certificates in this file, and no others.
    CaFile(&'a str),
    /// Against an empty trust store: no certificate is accepted.
    Nobody,
}

/// The client identity to present.
#[derive(Debug, Clone, Copy, PartialEq, Eq)]
pub enum Identity<'a> {
    /// None.
    Anonymous,
    /// The certificate chain and the private key in these files.
    Files { cert: &'a str, key: &'a str },
}

/// An error of the TLS configuration or handshake.
pub fn tls_error(message: &str) -> (e: Error)
    ensures
        e@ == plain(ErrorKind::Tls, message@),
{
    Error::new(ErrorKind::Tls, message)
}

/// How the server is to be verified. Without a CA file nobody is trusted: there
/// is no other source of trusted certificates.
pub fn trust(options: &TlsOptions) -> (t: Trust)
    ensures
        match t {
            Trust::AcceptAny => options.danger_accept_invalid_certs,
            Trust::CaFile(path) => !options.danger_accept_invalid_certs && text::opt_view(
                options.ca_file,
            ) == Some(path@),
            Trust::Nobody => !options.danger_accept_invalid_certs && options.ca_file is None,
        },
{
    if options.danger_accept_invalid_certs {
        Trust::AcceptAny
    } else {
        match &options.ca_file {
            Some(path) => Trust::CaFile(path.as_str()),
            None => Trust::Nobody,
        }
    }
}

/// `rustls::RootCertStore`: the trust anchors of a TLS session.
#[verifier::external_type_specification]
#[verifier::external_body]
pub struct ExRootCertStore(rustls::RootCertStore);

/// The trust anchors in a store, in order: the public key info of each.
pub uninterp spec fn anchors(store: rustls::RootCertStore) -> Seq<Seq<u8>>;

/// The trust anchor that `rustls` takes from a certificate in DER form: its
/// public key info, or the text of the refusal.
pub uninterp spec fn anchor_of(certificate: Seq<u8>) -> std::result::Result<Seq<u8>, Seq<char>>;

/// Calls `rustls::RootCertStore::empty`, which makes a store without anchors.
#[verifier::external_body]
fn empty_store() -> (store: rustls::RootCertStore)
    ensures
        anchors(store) == Seq::<Seq<u8>>::empty(),
{
    rustls::RootCertStore::empty()
}

/// Calls `rustls::RootCertStore::add`, which takes the trust anchor from a
/// certificate and appends it to the store, or refuses the certificate and
/// leaves the store as it was. Which of the two depends on the certificate
/// alone.
#[verifier::external_body]
fn add_anchor(store: &mut rustls::RootCertStore, certificate: &[u8]) -> (r: std::result::Result<
    (),
    String,
>)
    ensures
        match r {
            Ok(_) => anchor_of(certificate@) is Ok && anchors(*final(store)) == anchors(
                *old(store),
            ).push(anchor_of(certificate@)->Ok_0),
            Err(e) => anchor_of(certificate@) == Err::<Seq<u8>, Seq<char>>(e@) && anchors(
                *final(store),
            ) == anchors(*old(store)),
        },
{
    match store.add(rustls::pki_types::CertificateDer::from(certificate)) {
        Ok(()) => Ok(()),
        Err(e) => Err(e.to_string()),
    }
}

/// The trust anchors of these certificates: the first one that is refused
/// decides.
pub open spec fn anchors_of(certificates: Seq<Seq<u8>>) -> std::result::Result<
    Seq<Seq<u8>>,
    Seq<char>,
>
    decreases certificates.len(),
{
    if certificates.len() == 0 {
        Ok(Seq::empty())
    } else {
        match anchors_of(certificates.drop_last()) {
            Err(e) => Err(e),
            Ok(head) => match anchor_of(certificates.last()) {
                Err(e) => Err(e),
                Ok(anchor) => Ok(head.push(anchor)),
            },
        }
    }
}

proof fn anchors_prefix_fails(certificates: Seq<Seq<u8>>, n: int)
    requires
        0 <= n <= certificates.len(),
        anchors_of(certificates.take(n)) is Err,
    ensures
        anchors_of(certificates) == anchors_of(certificates.take(n)),
    decreases certificates.len(),
{
    if n < certificates.len() {
        assert(certificates.drop_last().take(n) =~= certificates.take(n));
        anchors_prefix_fails(certificates.drop_last(), n);
    } else {
        assert(certificates.take(n) =~= certificates);
    }
}

/// What a file holds that a TLS session is set up from.
#[derive(Debug, Clone, Copy, PartialEq, Eq, Structural)]
pub enum FileRole {
    /// Certificates.
    Certificates,
    /// A private key.
    Key,
}

/// Why a certificate or key file could not be read.
#[derive(Debug)]
pub enum FileFault {
    /// The system did not hand its contents out, and said this.
    Unreadable(String),
    /// Its contents are not what they should be, in PEM form. Nothing is kept of
    /// them, nor of what is wrong with them: they may be a private key.
    Malformed,
}

/// How a file is called in an error.
pub open spec fn role_text(role: FileRole) -> Seq<char> {
    match role {
        FileRole::Certificates => "certificate file "@,
        FileRole::Key => "private key file "@,
    }
}

/// What is said of a file that could not be read.
pub open spec fn fault_text(fault: FileFault) -> Seq<char> {
    match fault {
        FileFault::Unreadable(detail) => "I/O error: "@ + detail@,
        FileFault::Malformed => "no items found"@,
    }
}

/// The error for a file that could not be read.
pub open spec fn file_error(role: FileRole, path: Seq<char>, fault: FileFault) -> ErrorView {
    plain(ErrorKind::Tls, role_text(role) + path + ": "@ + fault_text(fault))
}

/// The error for a file that could not be read. It names the file's path.
pub fn file_failed(role: FileRole, path: &str, fault: &FileFault) -> (e: Error)
    ensures
        e@ == file_error(role, path@, *fault),
{
    let mut message = match role {
        FileRole::Certificates => text::join("certificate file ", path),
        FileRole::Key => text::join("private key file ", path),
    };
    message.append(": ");
    let said = match fault {
        FileFault::Unreadable(detail) => text::join("I/O error: ", detail.as_str()),
        FileFault::Malformed => "no items found".to_owned(),
    };
    message.append(said.as_str());
    tls_error(message.as_str())
}

/// What reading a CA file gave.
#[derive(Debug)]
pub struct CaFile {
    /// The file's path.
    pub path: String,
    /// Its certificates in DER form, in order, or why they could not be read.
    pub certificates: std::result::Result<Vec<Vec<u8>>, FileFault>,
}

/// What the trust store holds, or why there is none: nothing without a CA file,
/// and otherwise the anchors in that file and no others.
pub open spec fn trusted(ca: Option<CaFile>) -> std::result::Result<Seq<Seq<u8>>, ErrorView> {
    match ca {
        None => Ok(Seq::empty()),
        Some(file) => match file.certificates {
            Err(fault) => Err(file_error(FileRole::Certificates, file.path@, fault)),
            Ok(certificates) => if certificates@.len() == 0 {
                Err(
                    plain(
                        ErrorKind::Tls,
                        "CA file "@ + file.path@ + " holds no PEM certificates"@,
                    ),
                )
            } else {
                match anchors_of(crate::wire::byte_strings(certificates@)) {
                    Ok(found) => Ok(found),
                    Err(reason) => Err(
                        plain(ErrorKind::Tls, "CA file "@ + file.path@ + ": "@ + reason),
                    ),
                }
            },
        },
    }
}

/// The trust store: empty, plus whatever the CA file holds.
pub fn root_store(ca: &Option<CaFile>) -> (r: Result<rustls::RootCertStore>)
    ensures
        match r {
            Ok(store) => trusted(*ca) == Ok::<Seq<Seq<u8>>, ErrorView>(anchors(store)),
            Err(e) => trusted(*ca) == Err::<Seq<Seq<u8>>, ErrorView>(e@),
        },
{
    let mut store = empty_store();
    let file = match ca {
        Some(file) => file,
        None => {
            return Ok(store);
        },
    };
    let certificates = match &file.certificates {
        Ok(certificates) => certificates,
        Err(fault) => {
            return Err(file_failed(FileRole::Certificates, file.path.as_str(), fault));
        },
    };
    if certificates.len() == 0 {
        return Err(
            tls_error(
                text::join3("CA file ", file.path.as_str(), " holds no PEM certificates").as_str(),
            ),
        );
    }
    let ghost certs = crate::wire::byte_strings(certificates@);
    let mut i: usize = 0;
    assert(certs.take(0) =~= Seq::<Seq<u8>>::empty());
    while i < certificates.len()
        invariant
            i <= certificates@.len(),
            certificates@.len() > 0,
            *ca == Some(*file),
            file.certificates == Ok::<Vec<Vec<u8>>, FileFault>(*certificates),
            certs == crate::wire::byte_strings(certificates@),
            anchors_of(certs.take(i as int)) == Ok::<Seq<Seq<u8>>, Seq<char>>(anchors(store)),
        decreases certificates@.len() - i,
    {
        assert(certs.take(i + 1).drop_last() =~= certs.take(i as int));
        assert(certs.take(i + 1).last() == certificates@[i as int]@);
        match add_anchor(&mut store, certificates[i].as_slice()) {
            Ok(_) => {},
            Err(reason) => {
                proof {
                    anchors_prefix_fails(certs, i + 1);
                }
                return Err(step_failed(TlsStep::TrustCa(file.path.as_str()), reason.as_str()));
            },
        }
        i = i + 1;
    }
    assert(certs.take(i as int) =~= certs);
    Ok(store)
}

/// Without a CA file nobody is trusted, a CA file adds one anchor for each of its
/// certificates, and one that cannot be used trusts nobody: no other source of
/// trust exists.
pub proof fn trust_comes_from_the_ca_file_alone(ca: Option<CaFile>)
    ensures
        ca is None ==> trusted(ca) == Ok::<Seq<Seq<u8>>, ErrorView>(Seq::empty()),
        ca is Some && trusted(ca) is Ok ==> ca->0.certificates is Ok
            && ca->0.certificates->Ok_0@.len() > 0 && trusted(ca)->Ok_0.len()
            == ca->0.certificates->Ok_0@.len(),
        trusted(ca) matches Err(e) ==> e.kind == ErrorKind::Tls,
{
    match ca {
        Some(file) => match file.certificates {
            Ok(certificates) => anchors_count(crate::wire::byte_strings(certificates@)),
            Err(_) => {},
        },
        None => {},
    }
}

proof fn anchors_count(certificates: Seq<Seq<u8>>)
    ensures
        anchors_of(certificates) matches Ok(found) ==> found.len() == certificates.len(),
    decreases certificates.len(),
{
    if certificates.len() > 0 {
        anchors_count(certificates.drop_last());
    }
}

/// The error for a file whose contents could not be read names the file's path,
/// never its contents: it is the same for every file at the path, whatever is
/// wrong in it. For a file that the system did not hand out it is the path and
/// what the system said.
pub proof fn errors_name_a_file_and_never_quote_it(
    role: FileRole,
    path: Seq<char>,
    detail: String,
    a: CaFile,
    b: CaFile,
)
    requires
        a.path@ == path,
        b.path@ == path,
    ensures
        file_error(role, path, FileFault::Malformed) == plain(
            ErrorKind::Tls,
            role_text(role) + path + ": "@ + "no items found"@,
        ),
        file_error(role, path, FileFault::Unreadable(detail)) == plain(
            ErrorKind::Tls,
            role_text(role) + path + ": "@ + ("I/O error: "@ + detail@),
        ),
        (a.certificates matches Err(f) && f is Malformed) && (b.certificates matches Err(g)
            && g is Malformed) ==> trusted(Some(a)) == trusted(Some(b)),
        (a.certificates matches Ok(x) && x@.len() == 0) && (b.certificates matches Ok(y) && y@.len()
            == 0) ==> trusted(Some(a)) == trusted(Some(b)),
{
}

/// The client identity to present. Mutual TLS needs both files: half an identity
/// is refused.
pub fn identity(options: &TlsOptions) -> (r: Result<Identity>)
    ensures
        match r {
            Ok(Identity::Anonymous) => options.client_cert_file is None
                && options.client_key_file is None,
            Ok(Identity::Files { cert, key }) => text::opt_view(options.client_cert_file) == Some(
                cert@,
            ) && text::opt_view(options.client_key_file) == Some(key@),
            Err(e) => {
                ||| options.client_cert_file is Some && options.client_key_file is None && e@ == plain(
                    ErrorKind::InvalidArgument,
                    "client_key_file is required alongside client_cert_file (mutual TLS needs both)"@,
                )
                ||| options.client_cert_file is None && options.client_key_file is Some && e@ == plain(
                    ErrorKind::InvalidArgument,
                    "client_cert_file is required alongside client_key_file (mutual TLS needs both)"@,
                )
            },
        },
{
    match (&options.client_cert_file, &options.client_key_file) {
        (Some(cert), Some(key)) => Ok(Identity::Files { cert: cert.as_str(), key: key.as_str() }),
        (None, None) => Ok(Identity::Anonymous),
        (Some(_), None) => Err(
            Error::invalid(
                "client_key_file is required alongside client_cert_file (mutual TLS needs both)",
            ),
        ),
        (None, Some(_)) => Err(
            Error::invalid(
                "client_cert_file is required alongside client_key_file (mutual TLS needs both)",
            ),
        ),
    }
}

/// What `rustls` says against a server name, if it is not a valid one.
pub uninterp spec fn name_complaint(name: Seq<char>) -> Option<Seq<char>>;

/// Calls the `TryFrom<String>` of `rustls::pki_types::ServerName`, which accepts
/// DNS names and IP addresses. The verdict depends on the name alone.
#[verifier::external_body]
fn check_server_name(name: &str) -> (r: Option<String>)
    ensures
        text::opt_view(r) == name_complaint(name@),
{
    match rustls::pki_types::ServerName::try_from(name.to_owned()) {
        Ok(_) => None,
        Err(e) => Some(e.to_string()),
    }
}

/// The name expected in the server's certificate.
pub open spec fn expected_name(options: TlsOptions) -> Seq<char> {
    match options.server_name {
        Some(name) => name@,
        None => DEFAULT_SERVER_NAME@,
    }
}

/// A server name, unless there is a complaint about it.
pub open spec fn accepted_name(name: Seq<char>, complaint: Option<Seq<char>>) -> std::result::Result<
    Seq<char>,
    ErrorView,
> {
    match complaint {
        None => Ok(name),
        Some(reason) => Err(
            plain(ErrorKind::Tls, "`"@ + name + "` is not a valid server name"@ + ": "@ + reason),
        ),
    }
}

/// Takes a server name, unless there is a complaint about it.
pub fn accept_name(name: &str, complaint: Option<String>) -> (r: Result<String>)
    ensures
        match r {
            Ok(s) => accepted_name(name@, text::opt_view(complaint)) == Ok::<Seq<char>, ErrorView>(
                s@,
            ),
            Err(e) => accepted_name(name@, text::opt_view(complaint)) == Err::<
                Seq<char>,
                ErrorView,
            >(e@),
        },
{
    match complaint {
        None => Ok(name.to_owned()),
        Some(reason) => Err(step_failed(TlsStep::Name(name), reason.as_str())),
    }
}

/// The name expected in the server's certificate, checked.
pub fn server_name(options: &TlsOptions) -> (r: Result<String>)
    ensures
        match r {
            Ok(s) => accepted_name(
                expected_name(*options),
                name_complaint(expected_name(*options)),
            ) == Ok::<Seq<char>, ErrorView>(s@),
            Err(e) => accepted_name(
                expected_name(*options),
                name_complaint(expected_name(*options)),
            ) == Err::<Seq<char>, ErrorView>(e@),
        },
{
    let name = match &options.server_name {
        Some(name) => name.as_str(),
        None => DEFAULT_SERVER_NAME,
    };
    accept_name(name, check_server_name(name))
}

/// What failed while a TLS session was set up, besides reading its files.
#[derive(Debug, Clone, Copy, PartialEq, Eq)]
pub enum TlsStep<'a> {
    /// Setting TLS up at all.
    Configure,
    /// Trusting the certificates in this CA file.
    TrustCa(&'a str),
    /// Using the certificate in the first file with the key in the second.
    Present { cert: &'a str, key: &'a str },
    /// Using this as the server's name.
    Name(&'a str),
    /// Starting a session with the server of this name.
    Start(&'a str),
    /// The handshake with the server of this name.
    Handshake(&'a str),
}

/// What is said of a failed step before the reason.
pub open spec fn step_text(step: TlsStep) -> Seq<char> {
    match step {
        TlsStep::Configure => "cannot configure TLS"@,
        TlsStep::TrustCa(path) => "CA file "@ + path@,
        TlsStep::Present { cert, key } => "client certificate "@ + cert@ + " with key "@ + key@,
        TlsStep::Name(name) => "`"@ + name@ + "` is not a valid server name"@,
        TlsStep::Start(name) => "cannot start a TLS session with `"@ + name@ + "`"@,
        TlsStep::Handshake(name) => "TLS handshake with `"@ + name@ + "` failed"@,
    }
}

/// The error for a failed step. It names the files or the server, and gives the
/// reason that `rustls` has.
pub fn step_failed(step: TlsStep, reason: &str) -> (e: Error)
    ensures
        e@ == plain(ErrorKind::Tls, step_text(step) + ": "@ + reason@),
{
    let mut message = match step {
        TlsStep::Configure => "cannot configure TLS".to_owned(),
        TlsStep::TrustCa(path) => text::join("CA file ", path),
        TlsStep::Present { cert, key } => {
            let mut s = text::join3("client certificate ", cert, " with key ");
            s.append(key);
            s
        },
        TlsStep::Name(name) => text::join3("`", name, "` is not a valid server name"),
        TlsStep::Start(name) => text::join3("cannot start a TLS session with `", name, "`"),
        TlsStep::Handshake(name) => text::join3("TLS handshake with `", name, "` failed"),
    };
    message.append(": ");
    message.append(reason);
    tls_error(message.as_str())
}

/// The anchors are those of the certificates, all of them in order. One that is refused
/// refuses them all.
pub proof fn every_certificate_gives_its_anchor(certificates: Seq<Seq<u8>>, i: int)
    ensures
        anchors_of(certificates) matches Ok(found) ==> found.len() == certificates.len() && (0 <= i
            < certificates.len() ==> anchor_of(certificates[i]) == Ok::<Seq<u8>, Seq<char>>(
            found[i],
        )),
        (forall|k: int| 0 <= k < certificates.len() ==> anchor_of(#[trigger] certificates[k]) is Ok)
            ==> anchors_of(certificates) is Ok,
        0 <= i < certificates.len() && anchor_of(certificates[i]) is Err ==> anchors_of(
            certificates,
        ) is Err,
    decreases certificates.len(),
{
    if certificates.len() > 0 {
        let head = certificates.drop_last();
        every_certificate_gives_its_anchor(head, i);
        if 0 <= i < head.len() {
            assert(head[i] == certificates[i]);
        }
        if forall|k: int|
            0 <= k < certificates.len() ==> anchor_of(#[trigger] certificates[k]) is Ok {
            assert forall|k: int| 0 <= k < head.len() implies anchor_of(#[trigger] head[k])
                is Ok by {
                assert(head[k] == certificates[k]);
            }
            assert(anchor_of(certificates[certificates.len() - 1]) is Ok);
        }
    }
}

/// The first certificate that is refused is the reason given.
pub proof fn the_first_bad_certificate_is_the_reason(certificates: Seq<Seq<u8>>, at: int)
    requires
        0 <= at < certificates.len(),
        forall|k: int| 0 <= k < at ==> anchor_of(#[trigger] certificates[k]) is Ok,
        anchor_of(certificates[at]) is Err,
    ensures
        anchors_of(certificates) == Err::<Seq<Seq<u8>>, Seq<char>>(
            anchor_of(certificates[at])->Err_0,
        ),
    decreases certificates.len(),
{
    let head = certificates.drop_last();
    if at < head.len() {
        assert forall|k: int| 0 <= k < at implies anchor_of(#[trigger] head[k]) is Ok by {
            assert(head[k] == certificates[k]);
        }
        assert(head[at] == certificates[at]);
        the_first_bad_certificate_is_the_reason(head, at);
    } else {
        assert forall|k: int| 0 <= k < head.len() implies anchor_of(#[trigger] head[k]) is Ok by {
            assert(head[k] == certificates[k]);
        }
        every_certificate_gives_its_anchor(head, 0);
    }
}

/// Trust is what the CA file holds. Without a file nobody is trusted, and a file that
/// cannot be read, is empty or holds a bad certificate is refused by its path.
pub proof fn trust_is_what_the_ca_file_holds(file: CaFile)
    ensures
        trusted(None) == Ok::<Seq<Seq<u8>>, ErrorView>(Seq::empty()),
        file.certificates matches Err(fault) ==> trusted(Some(file)) == Err::<
            Seq<Seq<u8>>,
            ErrorView,
        >(
            plain(
                ErrorKind::Tls,
                "certificate file "@ + file.path@ + ": "@ + (match fault {
                    FileFault::Unreadable(detail) => "I/O error: "@ + detail@,
                    FileFault::Malformed => "no items found"@,
                }),
            ),
        ),
        file.certificates matches Ok(found) ==> (found@.len() == 0 ==> trusted(Some(file)) == Err::<
            Seq<Seq<u8>>,
            ErrorView,
        >(plain(ErrorKind::Tls, "CA file "@ + file.path@ + " holds no PEM certificates"@))),
        file.certificates matches Ok(found) ==> (found@.len() > 0 ==> (match anchors_of(
            crate::wire::byte_strings(found@),
        ) {
            Ok(all) => trusted(Some(file)) == Ok::<Seq<Seq<u8>>, ErrorView>(all),
            Err(reason) => trusted(Some(file)) == Err::<Seq<Seq<u8>>, ErrorView>(
                plain(ErrorKind::Tls, "CA file "@ + file.path@ + ": "@ + reason),
            ),
        })),
{
}

/// A file is refused by what it was for and where it is, with what went wrong.
pub proof fn a_file_is_refused_by_its_role_and_path(path: Seq<char>, detail: String)
    ensures
        file_error(FileRole::Certificates, path, FileFault::Malformed) == plain(
            ErrorKind::Tls,
            "certificate file "@ + path + ": "@ + "no items found"@,
        ),
        file_error(FileRole::Key, path, FileFault::Malformed) == plain(
            ErrorKind::Tls,
            "private key file "@ + path + ": "@ + "no items found"@,
        ),
        file_error(FileRole::Certificates, path, FileFault::Unreadable(detail)) == plain(
            ErrorKind::Tls,
            "certificate file "@ + path + ": "@ + ("I/O error: "@ + detail@),
        ),
        file_error(FileRole::Key, path, FileFault::Unreadable(detail)) == plain(
            ErrorKind::Tls,
            "private key file "@ + path + ": "@ + ("I/O error: "@ + detail@),
        ),
{
}

/// The server is expected under the name that was chosen, else under the local one. A
/// name is accepted as it is unless there is a complaint, which is passed on.
pub proof fn the_chosen_name_is_expected(
    options: TlsOptions,
    name: Seq<char>,
    reason: Seq<char>,
)
    ensures
        options.server_name matches Some(chosen) ==> expected_name(options) == chosen@,
        options.server_name is None ==> expected_name(options) == "localhost"@,
        accepted_name(name, None) == Ok::<Seq<char>, ErrorView>(name),
        accepted_name(name, Some(reason)) == Err::<Seq<char>, ErrorView>(
            plain(ErrorKind::Tls, "`"@ + name + "` is not a valid server name"@ + ": "@ + reason),
        ),
{
}

/// Each step of TLS is told in its own words, with the file or name it was about.
pub proof fn steps_are_told_in_their_own_words(a: &str, b: &str)
    ensures
        step_text(TlsStep::Configure) == "cannot configure TLS"@,
        step_text(TlsStep::TrustCa(a)) == "CA file "@ + a@,
        step_text(TlsStep::Present { cert: a, key: b }) == "client certificate "@ + a@
            + " with key "@ + b@,
        step_text(TlsStep::Name(a)) == "`"@ + a@ + "` is not a valid server name"@,
        step_text(TlsStep::Start(a)) == "cannot start a TLS session with `"@ + a@ + "`"@,
        step_text(TlsStep::Handshake(a)) == "TLS handshake with `"@ + a@ + "` failed"@,
{
}

/// What `trust` decides: the CA file that was named, or nobody, unless every certificate
/// is to be accepted.
pub proof fn trust_follows_the_options(options: &TlsOptions, t: Trust)
    requires
        call_ensures(trust, (options,), t),
    ensures
        t is AcceptAny <==> options.danger_accept_invalid_certs,
        t is Nobody <==> !options.danger_accept_invalid_certs && options.ca_file is None,
        t matches Trust::CaFile(path) ==> options.ca_file is Some && path@ == options.ca_file->0@,
{
}

/// What `identity` decides: both files or neither, and one alone is refused by the name
/// of the other.
pub proof fn an_identity_is_both_files_or_neither(options: &TlsOptions, r: Result<Identity>)
    requires
        call_ensures(identity, (options,), r),
    ensures
        r is Ok <==> (options.client_cert_file is Some <==> options.client_key_file is Some),
        r matches Ok(Identity::Files { cert, key }) ==> options.client_cert_file is Some
            && options.client_key_file is Some && cert@ == options.client_cert_file->0@ && key@
            == options.client_key_file->0@,
        r matches Ok(Identity::Anonymous) ==> options.client_cert_file is None,
        r matches Err(e) ==> e@ == plain(
            ErrorKind::InvalidArgument,
            if options.client_key_file is None {
                "client_key_file is required alongside client_cert_file (mutual TLS needs both)"@
            } else {
                "client_cert_file is required alongside client_key_file (mutual TLS needs both)"@
            },
        ),
{
}

/// What `root_store`, `server_name` and the failures of a step and of a file give.
pub proof fn tls_results_follow_the_rules(
    ca: &Option<CaFile>,
    store: Result<rustls::RootCertStore>,
    options: &TlsOptions,
    name: Result<String>,
    step: TlsStep,
    reason: &str,
    e: Error,
    role: FileRole,
    path: &str,
    fault: &FileFault,
)
    ensures
        call_ensures(root_store, (ca,), store) ==> (store matches Ok(s) ==> trusted(*ca) == Ok::<
            Seq<Seq<u8>>,
            ErrorView,
        >(anchors(s))),
        call_ensures(root_store, (ca,), store) ==> (store matches Err(e) ==> trusted(*ca) == Err::<
            Seq<Seq<u8>>,
            ErrorView,
        >(e@)),
        call_ensures(server_name, (options,), name) ==> (name matches Ok(s) ==> s@ == expected_name(
            *options,
        ) && name_complaint(s@) is None),
        call_ensures(step_failed, (step, reason), e) ==> e@ == plain(
            ErrorKind::Tls,
            step_text(step) + ": "@ + reason@,
        ),
        call_ensures(file_failed, (role, path, fault), e) ==> e@ == file_error(role, path@, *fault),
{
}

} // verus!
