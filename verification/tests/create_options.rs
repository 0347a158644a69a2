use paho_mqtt::create_options::{
    CCreateOptions, CreateOptions, CreateOptionsBuilder, PersistenceType, UserData,
    CREATE_OPTIONS_STRUCT_VERSION,
};
use paho_mqtt::MqttVersion;

// The identifier for the create options structure
const STRUCT_ID: [u8; 4] = [b'M', b'Q', b'C', b'O'];

// The currently supported create struct version
const STRUCT_VERSION: i32 = CREATE_OPTIONS_STRUCT_VERSION;

#[test]
fn create_options_test_default() {
    let opts = CreateOptions::default();
    // Get default C options for comparison
    let copts = CCreateOptions::default();

    // First, make sure C options valid
    assert_eq!(STRUCT_ID, copts.struct_id);
    assert_eq!(STRUCT_VERSION, copts.struct_version);

    assert_eq!(copts.struct_id, opts.copts.struct_id);
    assert_eq!(copts.struct_version, opts.copts.struct_version);
    assert_eq!(
        copts.sendWhileDisconnected,
        opts.copts.sendWhileDisconnected
    );
    assert_eq!(copts.maxBufferedMessages, opts.copts.maxBufferedMessages);

    assert_eq!("", &opts.server_uri);
    assert_eq!("", &opts.client_id);

    match opts.persistence {
        PersistenceType::NoPersistence => (),
        _ => unreachable!(),
    }
}

#[test]
fn test_from_string() {
    const HOST: &str = "localhost";

    let opts = CreateOptions::from(HOST);
    let copts = CCreateOptions::default();

    assert_eq!(STRUCT_ID, opts.copts.struct_id);
    assert_eq!(STRUCT_VERSION, opts.copts.struct_version);
    assert_eq!(
        copts.sendWhileDisconnected,
        opts.copts.sendWhileDisconnected
    );
    assert_eq!(copts.maxBufferedMessages, opts.copts.maxBufferedMessages);

    assert_eq!(HOST, &opts.server_uri);
    assert_eq!("", &opts.client_id);
}

#[test]
fn test_from_tuple() {
    const HOST: &str = "localhost";
    const ID: &str = "bubba";

    let opts = CreateOptions::from((HOST, ID));
    let copts = CCreateOptions::default();

    assert_eq!(STRUCT_ID, opts.copts.struct_id);
    assert_eq!(STRUCT_VERSION, opts.copts.struct_version);
    assert_eq!(
        copts.sendWhileDisconnected,
        opts.copts.sendWhileDisconnected
    );
    assert_eq!(copts.maxBufferedMessages, opts.copts.maxBufferedMessages);

    assert_eq!(HOST, &opts.server_uri);
    assert_eq!(ID, &opts.client_id);
}

#[test]
fn test_default_builder() {
    let opts = CreateOptionsBuilder::new().finalize();
    let copts = CCreateOptions::default();

    // First, make sure C options valid
    assert_eq!(STRUCT_ID, copts.struct_id);
    assert_eq!(STRUCT_VERSION, copts.struct_version);

    assert_eq!(copts.struct_id, opts.copts.struct_id);
    assert_eq!(copts.struct_version, opts.copts.struct_version);
    assert_eq!(
        copts.sendWhileDisconnected,
        opts.copts.sendWhileDisconnected
    );
    assert_eq!(copts.maxBufferedMessages, opts.copts.maxBufferedMessages);

    assert_eq!("", &opts.server_uri);
    assert_eq!("", &opts.client_id);
}

#[test]
fn test_builder() {
    const HOST: &str = "localhost";
    const ID: &str = "bubba";
    const MAX_BUF_MSGS: i32 = 250;

    let opts = CreateOptionsBuilder::new()
        .server_uri(HOST)
        .client_id(ID)
        .max_buffered_messages(MAX_BUF_MSGS)
        .finalize();

    assert_eq!(STRUCT_ID, opts.copts.struct_id);
    assert_eq!(STRUCT_VERSION, opts.copts.struct_version);

    assert_eq!(HOST, &opts.server_uri);
    assert_eq!(ID, &opts.client_id);
    assert_eq!(0, opts.copts.sendWhileDisconnected);
    assert_eq!(MAX_BUF_MSGS, opts.copts.maxBufferedMessages);

    let opts = CreateOptionsBuilder::new()
        .server_uri(HOST)
        .client_id(ID)
        .send_while_disconnected(true)
        .max_buffered_messages(MAX_BUF_MSGS)
        .finalize();

    assert_eq!(STRUCT_ID, opts.copts.struct_id);
    assert_eq!(STRUCT_VERSION, opts.copts.struct_version);

    assert_eq!(HOST, &opts.server_uri);
    assert_eq!(ID, &opts.client_id);
    assert!(0 != opts.copts.sendWhileDisconnected);
    assert_eq!(MAX_BUF_MSGS, opts.copts.maxBufferedMessages);
}

// ----- Further cases -----

#[test]
fn create_options_versions_and_persistence() {
    let opts = CreateOptions::new_v3();
    assert_eq!(opts.mqtt_version(), MqttVersion::Default);
    assert_eq!(opts.mqtt_version_raw(), 0);
    let opts = CreateOptions::new();
    assert_eq!(opts.mqtt_version(), MqttVersion::V5);

    // File persistence needs a client ID.
    let opts = CreateOptionsBuilder::new()
        .persistence(PersistenceType::File)
        .finalize();
    assert!(matches!(opts.persistence, PersistenceType::NoPersistence));
    let opts = CreateOptionsBuilder::new()
        .client_id("me")
        .persistence(PersistenceType::File)
        .finalize();
    assert!(matches!(opts.persistence, PersistenceType::File));
    let opts = CreateOptionsBuilder::new().persistence("/tmp/store").finalize();
    assert!(matches!(opts.persistence, PersistenceType::FilePath(ref p) if p == "/tmp/store"));

    let opts = CreateOptions::from(("host".to_string(), String::new()));
    assert!(matches!(opts.persistence, PersistenceType::NoPersistence));
    let opts = CreateOptions::from(("host", "id"));
    assert!(matches!(opts.persistence, PersistenceType::File));
}

#[test]
fn create_options_builder_settings() {
    let opts = CreateOptionsBuilder::new_v3()
        .max_buffered_messages(0)
        .mqtt_version(MqttVersion::V3_1_1)
        .allow_disconnected_send_at_anytime(true)
        .delete_oldest_messages(true)
        .restore_messages(false)
        .persist_qos0(false)
        .finalize();
    assert_eq!(opts.copts.maxBufferedMessages, 4);
    assert_eq!(opts.copts.sendWhileDisconnected, 0);
    assert_eq!(opts.copts.MQTTVersion, 4);
    assert_eq!(opts.copts.allowDisconnectedSendAtAnyTime, 1);
    assert_eq!(opts.copts.deleteOldestMessages, 1);
    assert_eq!(opts.copts.restoreMessages, 0);
    assert_eq!(opts.copts.persistQoS0, 0);
    let opts = CreateOptionsBuilder::new().mqtt_version(3u32).finalize();
    assert_eq!(opts.mqtt_version(), MqttVersion::V3_1);
}

#[test]
fn user_data_passes_through_finalize() {
    let opts = CreateOptionsBuilder::new()
        .client_id("me")
        .user_data(UserData(Box::new(42u32)))
        .finalize();
    let data = opts.user_data.expect("user data");
    assert_eq!(data.0.downcast_ref::<u32>(), Some(&42u32));

    let opts = CreateOptionsBuilder::new().finalize();
    assert!(opts.user_data.is_none());
    assert!(CreateOptions::new().user_data.is_none());
}
