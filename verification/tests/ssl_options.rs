use paho_mqtt::ssl_options::{SslOptions, SslOptionsBuilder, SslVersion, SSL_OPTIONS_STRUCT_VERSION};
use paho_mqtt::{from_c_bool, Error};

// Identifier for the C SSL options structure
const STRUCT_ID: [u8; 4] = [b'M', b'Q', b'T', b'S'];

// The currently supported SSL struct version
const STRUCT_VERSION: i32 = SSL_OPTIONS_STRUCT_VERSION;

#[test]
fn ssl_options_test_new() {
    let opts = SslOptions::new();

    assert_eq!(STRUCT_ID, opts.copts.struct_id);
    assert_eq!(STRUCT_VERSION, opts.copts.struct_version);
    assert!(opts.data.trust_store.is_empty());
}

#[test]
fn test_builder_dflt() {
    let opts = SslOptionsBuilder::new().finalize();

    assert_eq!(STRUCT_ID, opts.copts.struct_id);
    assert_eq!(STRUCT_VERSION, opts.copts.struct_version);
    assert!(opts.data.trust_store.is_empty());
}

#[test]
fn test_builder_trust_store() {
    const TRUST_STORE: &str = "some_file.crt";
    let opts = SslOptionsBuilder::new()
        .trust_store(TRUST_STORE)
        .unwrap()
        .finalize();

    assert_eq!(TRUST_STORE, opts.data.trust_store.as_str());
    assert_eq!(TRUST_STORE, opts.trust_store());
}

#[test]
fn test_builder_key_store() {
    const KEY_STORE: &str = "some_file.crt";
    let opts = SslOptionsBuilder::new()
        .key_store(KEY_STORE)
        .unwrap()
        .finalize();

    assert_eq!(KEY_STORE, opts.data.key_store.as_str());
    assert_eq!(KEY_STORE, opts.key_store());
}

#[test]
fn test_verify() {
    let opts = SslOptionsBuilder::new().verify(true).finalize();
    assert!(from_c_bool(opts.copts.verify));
}

#[test]
fn test_disable_default_trust_store() {
    let opts = SslOptionsBuilder::new()
        .disable_default_trust_store(true)
        .finalize();
    assert!(from_c_bool(opts.copts.disableDefaultTrustStore));
}

#[test]
fn test_protos() {
    let protos = &["spdy/1", "http/1.1"];

    let v: Vec<u8> = vec![
        6, b's', b'p', b'd', b'y', b'/', b'1', 8, b'h', b't', b't', b'p', b'/', b'1', b'.', b'1',
    ];

    let opts = SslOptionsBuilder::new().alpn_protos(protos).finalize();

    assert_eq!(v, opts.alpn_proto_vec());
    assert_eq!(opts.copts.protos_len as usize, v.len());
}

#[test]
fn test_move() {
    const TRUST_STORE: &str = "some_file.crt";
    let org_opts = SslOptionsBuilder::new()
        .trust_store(TRUST_STORE)
        .unwrap()
        .finalize();

    let opts = org_opts;

    assert_eq!(TRUST_STORE, opts.data.trust_store.as_str());
}

#[test]
fn ssl_options_test_clone() {
    const TRUST_STORE: &str = "some_file.crt";
    // Make sure the original goes out of scope
    // before testing the clone.
    let opts = {
        let org_opts = SslOptionsBuilder::new()
            .trust_store(TRUST_STORE)
            .unwrap()
            .finalize();

        org_opts.clone()
    };

    assert_eq!(TRUST_STORE, opts.data.trust_store.as_str());
}

// ----- Further cases -----

#[test]
fn ssl_paths_with_nul_are_refused() {
    let mut b = SslOptionsBuilder::new();
    assert!(matches!(b.ca_path("ab\0c"), Err(Error::Nul(2))));
    assert!(matches!(b.private_key("\0"), Err(Error::Nul(0))));
    let opts = b
        .ca_path("/etc/ssl")
        .unwrap()
        .ssl_version(SslVersion::Tls_1_2)
        .enable_server_cert_auth(false)
        .private_key_password("pw")
        .enabled_cipher_suites("ALL")
        .finalize();
    assert_eq!(opts.ca_path(), "/etc/ssl");
    assert_eq!(opts.private_key(), "");
    assert_eq!(opts.copts.sslVersion, 3);
    assert!(!opts.enable_server_cert_auth());
    assert_eq!(opts.enabled_cipher_suites(), "ALL");
    assert!(!opts.is_default_trust_store_disabled());
}
