use paho_mqtt::message::MessageBuilder;
use paho_mqtt::will_options::{CWillOptions, WillOptions, WILL_OPTIONS_STRUCT_VERSION};

// The C struct identifier for will options and the supported struct version.
const STRUCT_ID: [u8; 4] = [b'M', b'Q', b'T', b'W'];
const STRUCT_VERSION: i32 = WILL_OPTIONS_STRUCT_VERSION;

// These should differ from defaults.
const TOPIC: &str = "test";
const PAYLOAD: &[u8] = b"Hello world";
const QOS: i32 = 2;
const RETAINED: bool = true;

#[test]
fn will_options_test_default() {
    let opts = WillOptions::default();
    // Get default C options for comparison
    let copts = CWillOptions::default();

    // First, make sure C options valid
    assert_eq!(STRUCT_ID, copts.struct_id);
    assert_eq!(STRUCT_VERSION, copts.struct_version);

    let c = opts.c_options();
    assert_eq!(copts.struct_id, c.struct_id);
    assert_eq!(copts.struct_version, c.struct_version);
    assert_eq!(copts.retained, c.retained);
    assert_eq!(copts.qos, c.qos);
    assert_eq!(copts.payload_len, c.payload_len);

    assert_eq!(&[] as &[u8], opts.topic().as_bytes());
    assert_eq!(&[] as &[u8], opts.payload());
}

#[test]
fn will_options_test_new() {
    let msg = WillOptions::new(TOPIC, PAYLOAD, QOS);
    let c = msg.c_options();

    assert_eq!(STRUCT_ID, c.struct_id);
    assert_eq!(STRUCT_VERSION, c.struct_version);

    assert_eq!(TOPIC, msg.topic());
    assert_eq!(PAYLOAD, msg.payload());

    assert_eq!(msg.payload().len() as i32, c.payload_len);

    assert_eq!(QOS, c.qos);
    assert!(c.retained == 0);
}

#[test]
fn test_new_retained() {
    let msg = WillOptions::new_retained(TOPIC, PAYLOAD, QOS);
    let c = msg.c_options();

    assert_eq!(STRUCT_ID, c.struct_id);
    assert_eq!(STRUCT_VERSION, c.struct_version);

    assert_eq!(TOPIC, msg.topic());
    assert_eq!(PAYLOAD, msg.payload());

    assert_eq!(msg.payload().len() as i32, c.payload_len);

    assert_eq!(QOS, c.qos);
    assert!(c.retained != 0);
}

#[test]
fn will_options_test_from_message() {
    let msg = MessageBuilder::new()
        .topic(TOPIC)
        .payload(PAYLOAD)
        .qos(QOS)
        .retained(RETAINED)
        .finalize();

    let opts = WillOptions::from(msg);
    let c = opts.c_options();

    assert_eq!(TOPIC, opts.topic());
    assert_eq!(PAYLOAD, opts.payload());

    assert_eq!(opts.payload().len() as i32, c.payload_len);

    assert_eq!(QOS, c.qos);
    assert!(c.retained != 0);
    assert!(opts.retained());
    assert_eq!(opts.qos(), QOS);
}

#[test]
fn will_options_test_clone() {
    let opts = {
        let msg = MessageBuilder::new()
            .topic(TOPIC)
            .payload(PAYLOAD)
            .qos(QOS)
            .retained(RETAINED)
            .finalize();

        let org_opts = WillOptions::from(msg);
        org_opts.clone()
    };
    let c = opts.c_options();

    assert_eq!(TOPIC, opts.topic());
    assert_eq!(PAYLOAD, opts.payload());

    assert_eq!(opts.payload().len() as i32, c.payload_len);

    assert_eq!(QOS, c.qos);
    assert!(c.retained != 0);
    assert!(opts.properties().is_empty());
    assert_eq!(opts.payload_str(), "Hello world".to_string());
}
