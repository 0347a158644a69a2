use paho_mqtt::connect_options::{
    ConnectOptions, ConnectOptionsBuilder, CONNECT_OPTIONS_STRUCT_VERSION,
};
use paho_mqtt::message::MessageBuilder;
use paho_mqtt::properties::{Properties, PropertyCode};
use paho_mqtt::ssl_options::SslOptionsBuilder;
use paho_mqtt::{MqttVersion, MQTT_VERSION_5, MQTT_VERSION_DEFAULT};
use std::time::Duration;

// Identifier fo a C connect options struct
const STRUCT_ID: [u8; 4] = [b'M', b'Q', b'T', b'C'];

// The currently supported connect struct version
const STRUCT_VERSION: i32 = CONNECT_OPTIONS_STRUCT_VERSION;

#[test]
fn connect_options_test_new() {
    let opts = ConnectOptions::new();

    assert_eq!(STRUCT_ID, opts.copts.struct_id);
    assert_eq!(STRUCT_VERSION, opts.copts.struct_version);
    assert!(!opts.copts.has_will);
    assert_eq!(1, opts.copts.cleansession);

    assert!(!opts.copts.has_username);
    assert!(!opts.copts.has_password);
    assert!(!opts.copts.has_ssl);

    assert_eq!(0, opts.copts.serverURIcount);

    assert_eq!(0, opts.copts.MQTTVersion);
    assert_eq!(0, opts.copts.automaticReconnect);

    assert!(!opts.copts.has_http_headers);
    assert_eq!(0, opts.copts.cleanstart);

    assert!(!opts.copts.has_connect_properties);
    assert!(!opts.copts.has_will_properties);
}

#[test]
fn test_new_versions() {
    // v3 defaults to clean session, but no clean start
    let opts = ConnectOptions::new();
    assert_eq!(MqttVersion::Default, opts.mqtt_version());
    assert!(opts.clean_session());
    assert!(!opts.clean_start());

    // v5 defaults to clean start, but no clean session
    let opts = ConnectOptions::new_v5();
    assert_eq!(MqttVersion::V5, opts.mqtt_version());
    assert!(!opts.clean_session());
    assert!(opts.clean_start());
}

#[test]
fn test_ssl() {
    const TRUST_STORE: &str = "some_file.crt";
    let ssl_opts = SslOptionsBuilder::new()
        .trust_store(TRUST_STORE)
        .unwrap()
        .finalize();

    let opts = ConnectOptionsBuilder::new()
        .ssl_options(ssl_opts)
        .finalize();

    assert!(opts.copts.has_ssl);

    let ssl_opts = opts.data.ssl.as_ref().unwrap();
    assert_eq!(TRUST_STORE, ssl_opts.trust_store());
}

#[test]
fn test_user_name() {
    const NAME: &str = "some-random-name";

    let opts = ConnectOptionsBuilder::new().user_name(NAME).finalize();

    assert!(opts.copts.has_username);

    let user_name = opts.data.user_name.as_deref().unwrap();
    assert_eq!(NAME, user_name);
}

#[test]
fn test_password() {
    const PSWD: &str = "some-random-password";

    let opts = ConnectOptionsBuilder::new().password(PSWD).finalize();

    assert!(opts.copts.has_password);

    let password = opts.data.password.as_deref().unwrap();
    assert_eq!(PSWD, password);
}

#[test]
fn test_server_uris() {
    let servers = ["tcp://server1:1883", "ssl://server2:1885"];

    let opts = ConnectOptionsBuilder::new()
        .server_uris(&servers)
        .finalize();

    assert_eq!(servers.len() as i32, opts.copts.serverURIcount);

    for (i, svr) in servers.iter().enumerate() {
        assert_eq!(*svr, opts.data.server_uris.coll[i].as_str());
    }
}

#[test]
fn test_mqtt_version() {
    let opts = ConnectOptionsBuilder::new().finalize();
    assert_eq!(MQTT_VERSION_DEFAULT as i32, opts.copts.MQTTVersion);

    let opts = ConnectOptionsBuilder::new_v3().finalize();
    assert_eq!(MQTT_VERSION_DEFAULT as i32, opts.copts.MQTTVersion);

    let opts = ConnectOptionsBuilder::new_v5().finalize();
    assert_eq!(MQTT_VERSION_5 as i32, opts.copts.MQTTVersion);
}

#[test]
fn test_proxies() {
    const HTTP: &str = "http://some_server:80";
    const HTTPS: &str = "https://some_other_server:443";

    let opts = ConnectOptionsBuilder::new().http_proxy(HTTP).finalize();

    assert!(opts.copts.has_http_proxy);
    assert!(!opts.copts.has_https_proxy);

    assert!(opts.data.https_proxy.is_none());

    let proxy = opts.data.http_proxy.as_deref().unwrap();
    assert_eq!(HTTP, proxy);

    let opts = ConnectOptionsBuilder::new().https_proxy(HTTPS).finalize();

    assert!(opts.copts.has_https_proxy);
    assert!(!opts.copts.has_http_proxy);

    assert!(opts.data.http_proxy.is_none());

    let proxy = opts.data.https_proxy.as_deref().unwrap();
    assert_eq!(HTTPS, proxy);
}

#[test]
fn connect_options_test_assign() {
    const KEEP_ALIVE_SECS: u64 = 30;
    const MAX_INFLIGHT: i32 = 25;
    const USER_NAME: &str = "some-name";
    const PASSWORD: &str = "some-password";
    const CONNECT_TIMEOUT_SECS: u64 = 120;

    let org_opts = ConnectOptionsBuilder::new()
        .keep_alive_interval(Duration::new(KEEP_ALIVE_SECS, 0))
        .clean_session(false)
        .max_inflight(MAX_INFLIGHT)
        .user_name(USER_NAME)
        .password(PASSWORD)
        .connect_timeout(Duration::new(CONNECT_TIMEOUT_SECS, 0))
        .finalize();

    let opts = org_opts;

    assert_eq!(KEEP_ALIVE_SECS as i32, opts.copts.keepAliveInterval);
    assert_eq!(0, opts.copts.cleansession);
    assert_eq!(MAX_INFLIGHT, opts.copts.maxInflight);

    assert_eq!(USER_NAME, opts.data.user_name.as_deref().unwrap());
    assert_eq!(PASSWORD, opts.data.password.as_deref().unwrap());
    assert!(opts.copts.has_username);
    assert!(opts.copts.has_password);

    assert_eq!(CONNECT_TIMEOUT_SECS as i32, opts.copts.connectTimeout);
}

#[test]
fn connect_options_test_clone() {
    const KEEP_ALIVE_SECS: u64 = 30;
    const MAX_INFLIGHT: i32 = 25;
    const USER_NAME: &str = "some-name";
    const PASSWORD: &str = "some-password";
    const CONNECT_TIMEOUT_SECS: u64 = 120;

    let org_opts = ConnectOptionsBuilder::new()
        .keep_alive_interval(Duration::new(KEEP_ALIVE_SECS, 0))
        .clean_session(false)
        .max_inflight(MAX_INFLIGHT)
        .user_name(USER_NAME)
        .password(PASSWORD)
        .connect_timeout(Duration::new(CONNECT_TIMEOUT_SECS, 0))
        .finalize();

    let opts = org_opts.clone();

    // Test original still intact

    assert_eq!(KEEP_ALIVE_SECS as i32, org_opts.copts.keepAliveInterval);
    assert_eq!(0, org_opts.copts.cleansession);
    assert_eq!(MAX_INFLIGHT, org_opts.copts.maxInflight);

    // Now test the copy

    assert_eq!(KEEP_ALIVE_SECS as i32, opts.copts.keepAliveInterval);
    assert_eq!(0, opts.copts.cleansession);
    assert_eq!(MAX_INFLIGHT, opts.copts.maxInflight);

    assert_eq!(USER_NAME, opts.data.user_name.as_deref().unwrap());
    assert_eq!(PASSWORD, opts.data.password.as_deref().unwrap());
    assert!(opts.copts.has_username);
    assert!(opts.copts.has_password);

    assert_eq!(CONNECT_TIMEOUT_SECS as i32, opts.copts.connectTimeout);
}

#[test]
fn test_connect_properties() {
    let mut props = Properties::new();
    props
        .push_int(PropertyCode::SessionExpiryInterval, 60)
        .unwrap();

    // Remember, you can only set properties on a v5 connection.
    let opts = ConnectOptionsBuilder::new_v5().properties(props).finalize();

    let props = opts.data.props.as_ref().unwrap();
    assert_eq!(1, props.len());
    assert_eq!(Some(60), props.get_int(PropertyCode::SessionExpiryInterval));

    assert!(opts.copts.has_connect_properties);
}

#[test]
fn test_will_properties() {
    let mut props = Properties::new();
    props.push_int(PropertyCode::WillDelayInterval, 60).unwrap();

    let lwt = MessageBuilder::new()
        .topic("event/failure")
        .properties(props)
        .finalize();

    // Remember, you can only set properties on a v5 connection.
    let opts = ConnectOptionsBuilder::new_v5().will_message(lwt).finalize();

    let will_props = opts.data.will_props.as_ref().unwrap();
    assert_eq!(1, will_props.len());
    assert_eq!(
        Some(60),
        will_props.get_int(PropertyCode::WillDelayInterval)
    );

    assert!(opts.copts.has_will_properties);
}

// ----- Further cases -----

#[test]
fn connect_clean_flags_and_versions() {
    let opts = ConnectOptionsBuilder::new_v5().clean_session(true).finalize();
    assert_eq!(opts.copts.MQTTVersion, 0);
    assert_eq!(opts.copts.cleanstart, 0);
    assert_eq!(opts.copts.cleansession, 1);

    let opts = ConnectOptionsBuilder::new().clean_start(true).finalize();
    assert_eq!(opts.copts.MQTTVersion, 5);
    assert_eq!(opts.copts.cleansession, 0);
    assert_eq!(opts.copts.cleanstart, 1);

    // Properties without v5 raise the version; on v3 they are not linked.
    let opts = ConnectOptionsBuilder::new().properties(Properties::new()).finalize();
    assert_eq!(opts.copts.MQTTVersion, 5);
    assert!(opts.copts.has_connect_properties);
    let lwt = MessageBuilder::new().topic("t").finalize();
    let opts = ConnectOptionsBuilder::new().will_message(lwt).finalize();
    assert!(opts.copts.has_will);
    assert!(!opts.copts.has_will_properties);

    let opts = ConnectOptions::with_mqtt_version(MqttVersion::V3_1_1);
    assert_eq!(opts.copts.MQTTVersion, 4);
    assert_eq!(opts.copts.cleansession, 1);
    let opts = ConnectOptionsBuilder::with_mqtt_version(MqttVersion::V5).finalize();
    assert_eq!(opts.copts.cleanstart, 1);

    let mut opts = ConnectOptions::new_ws();
    assert_eq!(opts.copts.keepAliveInterval, 45);
    opts.set_clean_start(true);
    assert!(!opts.clean_session());
    opts.set_clean_session(true);
    assert!(!opts.clean_start());
    assert_eq!(ConnectOptions::new_ws_v5().copts.keepAliveInterval, 45);
}

#[test]
fn connect_intervals_and_headers() {
    let opts = ConnectOptionsBuilder::new()
        .automatic_reconnect(Duration::from_secs(0), Duration::from_secs(30))
        .retry_interval(Duration::from_secs(5))
        .http_headers(&[("a", "b")])
        .finalize();
    assert_eq!(opts.copts.automaticReconnect, 1);
    assert_eq!(opts.copts.minRetryInterval, 1);
    assert_eq!(opts.copts.maxRetryInterval, 30);
    assert_eq!(opts.copts.retryInterval, 5);
    assert!(opts.copts.has_http_headers);
    assert_eq!(opts.data.http_headers.as_ref().unwrap().len(), 1);
    let opts = ConnectOptionsBuilder::new().keep_alive_interval_secs(0).finalize();
    assert_eq!(opts.copts.keepAliveInterval, 1);
}

#[test]
fn connect_intervals_count_whole_seconds() {
    let opts = ConnectOptionsBuilder::new()
        .keep_alive_interval(Duration::from_millis(2500))
        .connect_timeout(Duration::from_secs(7))
        .retry_interval(Duration::from_millis(999))
        .automatic_reconnect(Duration::from_millis(1500), Duration::from_secs(64))
        .finalize();
    assert_eq!(opts.copts.keepAliveInterval, 2);
    assert_eq!(opts.copts.connectTimeout, 7);
    // Less than a whole second counts as zero, which becomes one.
    assert_eq!(opts.copts.retryInterval, 1);
    assert_eq!(opts.copts.automaticReconnect, 1);
    assert_eq!(opts.copts.minRetryInterval, 1);
    assert_eq!(opts.copts.maxRetryInterval, 64);
}
