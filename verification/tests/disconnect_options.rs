use paho_mqtt::disconnect_options::{
    DisconnectOptions, DisconnectOptionsBuilder, DISCONNECT_OPTIONS_STRUCT_VERSION,
};
use paho_mqtt::properties::{Properties, PropertyCode};
use paho_mqtt::reason_code::ReasonCode;
use std::time::Duration;

// Identifier fo a C disconnect options struct
const STRUCT_ID: [u8; 4] = [b'M', b'Q', b'T', b'D'];

const STRUCT_VERSION: i32 = DISCONNECT_OPTIONS_STRUCT_VERSION;

#[test]
fn disconnect_options_test_new() {
    let opts = DisconnectOptions::new();

    assert_eq!(STRUCT_ID, opts.copts.struct_id);
    assert_eq!(STRUCT_VERSION, opts.copts.struct_version);
}

#[test]
fn test_reason_code() {
    let opts = DisconnectOptionsBuilder::new().finalize();
    assert_eq!(opts.reason_code(), ReasonCode::NormalDisconnection);

    let opts = DisconnectOptionsBuilder::new()
        .reason_code(ReasonCode::DisconnectWithWillMessage)
        .finalize();
    assert_eq!(opts.reason_code(), ReasonCode::DisconnectWithWillMessage);

    let opts = DisconnectOptionsBuilder::new()
        .publish_will_message()
        .finalize();
    assert_eq!(opts.reason_code(), ReasonCode::DisconnectWithWillMessage);
}

#[test]
fn test_properties() {
    let opts = DisconnectOptions::new();
    assert!(opts.properties().is_empty());
    assert_eq!(opts.properties().len(), 0);

    let opts = DisconnectOptionsBuilder::new().finalize();
    assert!(opts.properties().is_empty());
    assert_eq!(opts.properties().len(), 0);

    let mut props = Properties::new();
    props
        .push_int(PropertyCode::SessionExpiryInterval, 1000)
        .unwrap();
    props
        .push_val(PropertyCode::ReasonString, "causeIwanna")
        .unwrap();

    let opts = DisconnectOptionsBuilder::new().properties(props).finalize();

    let props = opts.properties();

    assert!(!props.is_empty());
    assert_eq!(props.len(), 2);

    assert_eq!(
        props.get_int(PropertyCode::SessionExpiryInterval),
        Some(1000)
    );
    assert_eq!(
        props.get_val::<String>(PropertyCode::ReasonString),
        Some("causeIwanna".to_string())
    );

    assert_eq!(props.get_int(PropertyCode::ContentType), None);

    let props = opts.props.clone();
    assert_eq!(props.len(), 2);

    assert_eq!(
        props.get_int(PropertyCode::SessionExpiryInterval),
        Some(1000)
    );
    assert_eq!(
        props.get_val::<String>(PropertyCode::ReasonString),
        Some("causeIwanna".to_string())
    );
}

// ----- Further cases -----

#[test]
fn disconnect_timeout_resolution() {
    let opts = DisconnectOptionsBuilder::new()
        .timeout(Duration::from_millis(0))
        .finalize();
    assert_eq!(opts.copts.timeout, 1);
    let opts = DisconnectOptionsBuilder::new()
        .timeout(Duration::from_secs(2))
        .finalize();
    assert_eq!(opts.copts.timeout, 2000);
    let opts = DisconnectOptionsBuilder::new().timeout_millis(15).finalize();
    assert_eq!(opts.copts.timeout, 15);
    let copy = opts.clone();
    assert_eq!(copy.copts.timeout, 15);
}

#[test]
fn disconnect_timeout_counts_milliseconds() {
    let opts = DisconnectOptionsBuilder::new()
        .timeout(Duration::from_micros(2_500_900))
        .finalize();
    assert_eq!(opts.copts.timeout, 2500);
}
