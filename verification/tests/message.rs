use paho_mqtt::message::{CMessage, Message, MessageBuilder, MESSAGE_STRUCT_VERSION};
use paho_mqtt::properties::{Properties, PropertyCode};
use paho_mqtt::QoS;

const STRUCT_ID: [u8; 4] = [b'M', b'Q', b'T', b'M'];

const STRUCT_VERSION: i32 = MESSAGE_STRUCT_VERSION;

// These should differ from defaults
const TOPIC: &str = "test";
const PAYLOAD: &[u8] = b"Hello world";
const QOS: QoS = QoS::ExactlyOnce;
const RETAINED: bool = true;

// By convention our defaults should match the defaults of the C library
#[test]
fn message_test_default() {}

#[test]
fn message_test_new() {
    let msg = Message::new(TOPIC, PAYLOAD, QOS);

    assert_eq!(STRUCT_ID, msg.cmsg.struct_id);
    assert_eq!(STRUCT_VERSION, msg.cmsg.struct_version);

    assert_eq!(TOPIC, msg.data.topic.as_str());
    assert_eq!(PAYLOAD, msg.data.payload.as_slice());

    assert_eq!(msg.data.payload.len() as i32, msg.cmsg.payloadlen);

    assert_eq!(QOS.value() as i32, msg.cmsg.qos);
    assert!(msg.cmsg.retained == 0);
}

#[test]
fn message_test_builder_default() {
    let msg = MessageBuilder::new().finalize();
    let cmsg = CMessage::default();

    assert_eq!(STRUCT_ID, cmsg.struct_id);
    assert_eq!(STRUCT_VERSION, cmsg.struct_version);

    assert_eq!(cmsg.struct_id, msg.cmsg.struct_id);
    assert_eq!(cmsg.struct_version, msg.cmsg.struct_version);

    assert_eq!(0, msg.data.topic.as_bytes().len());
    assert_eq!(&[] as &[u8], msg.data.topic.as_bytes());
    assert_eq!(&[] as &[u8], msg.data.payload.as_slice());
}

#[test]
fn test_builder_topic() {
    const TOPIC: &str = "test";

    let msg = MessageBuilder::new().topic(TOPIC).finalize();

    // The topic is only kept in the Rust struct as a string
    assert_eq!(TOPIC, msg.data.topic.as_str());
    assert_eq!(TOPIC, msg.topic());
}

#[test]
fn test_builder_payload() {
    const PAYLOAD: &[u8] = b"Hello world";

    let msg = MessageBuilder::new().payload(PAYLOAD).finalize();

    assert_eq!(PAYLOAD, msg.data.payload.as_slice());
    assert_eq!(PAYLOAD, msg.payload());

    assert_eq!(msg.data.payload.len() as i32, msg.cmsg.payloadlen);
}

#[test]
fn test_builder_qos() {
    let msg = MessageBuilder::new().qos(QOS).finalize();

    assert_eq!(QOS.value() as i32, msg.cmsg.qos);
    assert_eq!(QOS, msg.qos());

    let qos = 1;
    let msg = MessageBuilder::new().qos(qos).finalize();

    assert_eq!(qos, msg.cmsg.qos);
    assert_eq!(QoS::from(qos), msg.qos());
}

#[test]
fn test_builder_retained() {
    let msg = MessageBuilder::new().retained(false).finalize();
    assert!(msg.cmsg.retained == 0);

    let msg = MessageBuilder::new().retained(true).finalize();
    assert!(msg.cmsg.retained != 0);
    assert!(msg.retained());
}

#[test]
fn message_test_clone() {
    const TOPIC: &str = "test";
    const PAYLOAD: &[u8] = b"Hello world";
    const QOS: QoS = QoS::ExactlyOnce;
    const RETAINED: bool = true;

    let msg = {
        // Make sure the original goes out of scope before testing
        let org_msg = MessageBuilder::new()
            .topic(TOPIC)
            .payload(PAYLOAD)
            .qos(QOS)
            .retained(RETAINED)
            .finalize();
        org_msg.clone()
    };

    assert_eq!(TOPIC, msg.data.topic.as_str());
    assert_eq!(PAYLOAD, msg.data.payload.as_slice());

    assert_eq!(msg.data.payload.len() as i32, msg.cmsg.payloadlen);

    assert_eq!(QOS.value() as i32, msg.cmsg.qos);
    assert!(msg.cmsg.retained != 0);
}

// ----- Further cases -----

#[test]
fn message_retained_and_text_payload() {
    let msg = Message::new_retained("a/b", "hi", 0);
    assert!(msg.retained());
    assert_eq!(msg.qos(), QoS::AtMostOnce);
    assert_eq!(msg.payload_str(), "hi".to_string());
    let msg = Message::new("a/b", vec![0xffu8, b'x'], QoS::AtLeastOnce);
    assert_eq!(msg.payload_str(), "\u{FFFD}x".to_string());
    let msg = Message::default();
    assert_eq!(msg.topic(), "");
    assert_eq!(msg.qos(), QoS::AtMostOnce);

    let mut props = Properties::new();
    props.push_int(PropertyCode::MessageExpiryInterval, 30).unwrap();
    let msg = MessageBuilder::new().topic("t").properties(props).finalize();
    assert_eq!(msg.properties().get_int(PropertyCode::MessageExpiryInterval), Some(30));
}

#[test]
fn message_text_is_topic_and_payload() {
    let msg = Message::new("a/b", "hi there", 0);
    assert_eq!(msg.to_string(), "a/b: hi there");
    let msg = Message::new("x", vec![0x66u8, 0xff, 0x6f], 1);
    assert_eq!(msg.to_string(), "x: f\u{fffd}o");
}
