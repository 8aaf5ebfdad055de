use tricoredb::{
    Duration, Options, TlsOptions, ALL_FEATURES, FEATURE_CORRELATION_ID, FEATURE_SERVER_PARAMS,
    FEATURE_SESSION_TXN, VERSION,
};

#[test]
fn defaults_are_the_documented_ones() {
    let o = Options::default();
    assert_eq!(o.host, "127.0.0.1");
    assert_eq!(o.port, 8427);
    assert_eq!(o.database, "main");
    assert!(o.client_name.starts_with("tricoredb-rust/"));
    assert_eq!(o.read_timeout, None);
    assert!(o.tls.is_none());
    assert_eq!(o.announced_features(), ALL_FEATURES);
}

#[test]
fn announcing_nothing_differs_from_leaving_it_unset() {
    assert_eq!(Options::default().features(0).announced_features(), 0);
}

#[test]
fn every_feature_has_its_own_bit() {
    assert_eq!(FEATURE_CORRELATION_ID, 1);
    assert_eq!(FEATURE_SERVER_PARAMS, 2);
    assert_eq!(FEATURE_SESSION_TXN, 4);
    assert_eq!(ALL_FEATURES, 7);
}

#[test]
fn options_read_as_one_expression() {
    let o = Options::new("db.internal", 9000)
        .user("admin")
        .secret("pw")
        .database("reporting")
        .client_name("report")
        .connect_timeout(Duration::from_secs(5))
        .read_timeout(Duration::from_millis(250))
        .tls(
            TlsOptions::new()
                .ca_file("/etc/ca.pem")
                .server_name("db.internal")
                .client_identity("c.pem", "k.pem")
                .danger_accept_invalid_certs(true),
        )
        .features(3);
    assert_eq!((o.host.as_str(), o.port), ("db.internal", 9000));
    assert_eq!(o.user.as_deref(), Some("admin"));
    assert_eq!(o.secret.as_deref(), Some("pw"));
    assert_eq!(o.database, "reporting");
    assert_eq!(o.client_name, "report");
    assert_eq!(o.connect_timeout, Some(Duration::from_millis(5000)));
    assert_eq!(o.read_timeout.unwrap().as_millis(), 250);
    assert_eq!(o.announced_features(), 3);
    let tls = o.tls.unwrap();
    assert_eq!(tls.ca_file.as_deref(), Some("/etc/ca.pem"));
    assert_eq!(tls.server_name.as_deref(), Some("db.internal"));
    assert_eq!(tls.client_cert_file.as_deref(), Some("c.pem"));
    assert_eq!(tls.client_key_file.as_deref(), Some("k.pem"));
    assert!(tls.danger_accept_invalid_certs);
    assert_eq!(TlsOptions::new(), TlsOptions::default());
    assert_eq!(
        Options::default().client_name,
        format!("tricoredb-rust/{VERSION}")
    );
}

#[test]
fn durations_keep_their_length() {
    let d = Duration::new(2, 1_500_000);
    assert_eq!(d.as_millis(), 2001);
    assert_eq!(d.as_secs(), 2);
    assert_eq!(d.subsec_nanos(), 1_500_000);
    assert!(!d.is_zero());
    assert!(Duration::from_millis(0).is_zero());
    assert_eq!(Duration::from_millis(1500), Duration::new(1, 500_000_000));
}
