use rustls::pki_types::pem::{self, PemObject};
use rustls::pki_types::{CertificateDer, PrivateKeyDer};
use tricoredb::tls::{
    accept_name, file_failed, identity, root_store, server_name, step_failed, trust, CaFile,
    FileFault, FileRole, Identity, TlsStep, Trust,
};
use tricoredb::{ErrorKind, TlsOptions};

#[test]
fn no_ca_file_leaves_the_trust_store_empty() {
    assert_eq!(root_store(&None).unwrap().len(), 0);
}

#[test]
fn a_missing_ca_file_is_a_tls_error_naming_the_path() {
    let path = "no/such/ca.pem";
    let Err(pem::Error::Io(reason)) = CertificateDer::pem_file_iter(path) else {
        panic!("there is no such file");
    };
    let err = root_store(&Some(CaFile {
        path: path.into(),
        certificates: Err(FileFault::Unreadable(reason.to_string())),
    }))
    .unwrap_err();
    assert_eq!(
        err.message,
        format!("certificate file no/such/ca.pem: I/O error: {reason}")
    );
    assert_eq!(err.kind, ErrorKind::Tls);
    assert!(err.message.contains("no/such/ca.pem"), "{}", err.message);
}

#[test]
fn half_an_identity_is_refused_before_connecting() {
    let opts = TlsOptions::new();
    let mut only_cert = opts.clone();
    only_cert.client_cert_file = Some("cert.pem".into());
    let err = identity(&only_cert).unwrap_err();
    assert_eq!(err.kind, ErrorKind::InvalidArgument);
    assert!(err.message.contains("client_key_file"), "{}", err.message);

    let mut only_key = opts;
    only_key.client_key_file = Some("key.pem".into());
    let err = identity(&only_key).unwrap_err();
    assert_eq!(err.kind, ErrorKind::InvalidArgument);
    assert!(err.message.contains("client_cert_file"), "{}", err.message);
}

#[test]
fn an_identity_is_whole_or_absent() {
    assert_eq!(identity(&TlsOptions::new()).unwrap(), Identity::Anonymous);
    let both = TlsOptions::new().client_identity("c", "k");
    assert_eq!(
        identity(&both).unwrap(),
        Identity::Files { cert: "c", key: "k" }
    );
}

#[test]
fn trust_follows_the_options() {
    assert_eq!(trust(&TlsOptions::new()), Trust::Nobody);
    let ca = TlsOptions::new().ca_file("ca.pem");
    assert_eq!(trust(&ca), Trust::CaFile("ca.pem"));
    assert_eq!(
        trust(&ca.danger_accept_invalid_certs(true)),
        Trust::AcceptAny
    );
}

#[test]
fn a_ca_file_without_usable_certificates_is_refused() {
    let empty = Some(CaFile {
        path: "ca.pem".into(),
        certificates: Ok(vec![]),
    });
    let err = root_store(&empty).unwrap_err();
    assert_eq!(err.message, "CA file ca.pem holds no PEM certificates");
    let garbage = Some(CaFile {
        path: "ca.pem".into(),
        certificates: Ok(vec![vec![1, 2, 3]]),
    });
    let err = root_store(&garbage).unwrap_err();
    assert_eq!(err.kind, ErrorKind::Tls);
    let mut store = rustls::RootCertStore::empty();
    let reason = store.add(CertificateDer::from(vec![1, 2, 3])).unwrap_err();
    assert_eq!(err.message, format!("CA file ca.pem: {reason}"));
    let malformed = Some(CaFile {
        path: "ca.pem".into(),
        certificates: Err(FileFault::Malformed),
    });
    let err = root_store(&malformed).unwrap_err();
    assert_eq!(err.message, "certificate file ca.pem: no items found");
}

const CA: &str = "\
-----BEGIN CERTIFICATE-----
MIIBOjCB7aADAgECAhQdRaZeAvlBT7irAiHpluXMQmIQFTAFBgMrZXAwEjEQMA4G
A1UEAwwHdGVzdCBjYTAgFw0yNjExMTYxNjMzMzBaGA8yMTI2MTAyMzE2MzMzMFow
EjEQMA4GA1UEAwwHdGVzdCBjYTAqMAUGAytlcAMhAOzH1BwMcOtfytJqQDSSADWE
b2DMXMQPgkFoCmAjMx32o1MwUTAdBgNVHQ4EFgQU4Ycqakf5cGGSK7M5+93IV8g4
b0swHwYDVR0jBBgwFoAU4Ycqakf5cGGSK7M5+93IV8g4b0swDwYDVR0TAQH/BAUw
AwEB/zAFBgMrZXADQQBiU/f2wq5vk5RNMjHWfzuVwQ8OGu4IZGJ7Es9xEa38BPPA
I57DR1joyatHjzHx5CxhS5Av7vPtN0TSBp+WvBIJ
-----END CERTIFICATE-----
";

#[test]
fn a_ca_file_adds_one_anchor_for_each_certificate() {
    let ca = CertificateDer::from_pem_slice(CA.as_bytes()).unwrap().to_vec();
    let one = Some(CaFile {
        path: "ca.pem".into(),
        certificates: Ok(vec![ca.clone()]),
    });
    assert_eq!(root_store(&one).unwrap().len(), 1);
    let two = Some(CaFile {
        path: "ca.pem".into(),
        certificates: Ok(vec![ca.clone(), ca.clone()]),
    });
    assert_eq!(root_store(&two).unwrap().len(), 2);
    let spoilt = Some(CaFile {
        path: "ca.pem".into(),
        certificates: Ok(vec![ca, vec![0]]),
    });
    assert_eq!(root_store(&spoilt).unwrap_err().kind, ErrorKind::Tls);
}

#[test]
fn the_server_name_defaults_to_localhost() {
    assert_eq!(server_name(&TlsOptions::new()).unwrap(), "localhost");
    let named = TlsOptions::new().server_name("db.internal");
    assert_eq!(server_name(&named).unwrap(), "db.internal");
    let address = TlsOptions::new().server_name("127.0.0.1");
    assert_eq!(server_name(&address).unwrap(), "127.0.0.1");
    let bad = TlsOptions::new().server_name("not a name");
    let err = server_name(&bad).unwrap_err();
    assert_eq!(err.kind, ErrorKind::Tls);
    assert!(
        err.message.starts_with("`not a name` is not a valid server name: "),
        "{}",
        err.message
    );
    assert_eq!(
        accept_name("x", Some("why".to_string())).unwrap_err().message,
        "`x` is not a valid server name: why"
    );
}

#[test]
fn a_file_that_cannot_be_read_is_named_by_its_path() {
    for (role, name) in [
        (FileRole::Certificates, "certificate file"),
        (FileRole::Key, "private key file"),
    ] {
        let denied = FileFault::Unreadable("permission denied".to_string());
        let err = file_failed(role, "a/b.pem", &denied);
        assert_eq!(err.kind, ErrorKind::Tls);
        assert_eq!(err.message, format!("{name} a/b.pem: I/O error: permission denied"));
        let err = file_failed(role, "a/b.pem", &FileFault::Malformed);
        assert_eq!(err.message, format!("{name} a/b.pem: no items found"));
    }
    // What is said of a file without a key in it.
    let Err(reason) = PrivateKeyDer::from_pem_slice(b"hello") else {
        panic!("there is no key in it");
    };
    let err = file_failed(FileRole::Key, "k", &FileFault::Malformed);
    assert_eq!(err.message, format!("private key file k: {reason}"));
}

#[test]
fn every_step_is_named_when_it_fails() {
    for (step, text) in [
        (TlsStep::Configure, "cannot configure TLS: r"),
        (TlsStep::TrustCa("p"), "CA file p: r"),
        (
            TlsStep::Present { cert: "c", key: "k" },
            "client certificate c with key k: r",
        ),
        (TlsStep::Name("n"), "`n` is not a valid server name: r"),
        (TlsStep::Start("n"), "cannot start a TLS session with `n`: r"),
        (TlsStep::Handshake("n"), "TLS handshake with `n` failed: r"),
    ] {
        let err = step_failed(step, "r");
        assert_eq!(err.kind, ErrorKind::Tls);
        assert_eq!(err.message, text);
    }
}
