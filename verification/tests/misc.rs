use paho_mqtt::c_trace::{
    c_trace_level_for,
    c_trace_level, level_enabled_with, log_from_c_trace_level, log_into_c_trace_level, LogLevel,
    MQTTASYNC_TRACE_ERROR, MQTTASYNC_TRACE_FATAL, MQTTASYNC_TRACE_MAXIMUM, MQTTASYNC_TRACE_MEDIUM,
    MQTTASYNC_TRACE_MINIMUM, MQTTASYNC_TRACE_PROTOCOL, MQTTASYNC_TRACE_SEVERE,
};
use paho_mqtt::properties::Properties;
use paho_mqtt::reason_code::ReasonCode;
use paho_mqtt::response_options::{ResponseCallbacks, ResponseOptions, ResponseOptionsBuilder};
use paho_mqtt::server_response::{RequestResponse, ServerRequest, ServerResponse, SuccessData};
use paho_mqtt::ssl_options::SslVersion;
use paho_mqtt::subscribe_options::SubscribeOptions;
use paho_mqtt::message::Message;
use paho_mqtt::token::{failure_return_code, TokenData};
use paho_mqtt::Error;
use paho_mqtt::{from_c_bool, to_c_bool, MqttVersion, QoS};

#[test]
fn it_works() {}

#[test]
fn trace_levels_map_both_ways() {
    assert_eq!(log_from_c_trace_level(MQTTASYNC_TRACE_FATAL), LogLevel::Error);
    assert_eq!(log_from_c_trace_level(MQTTASYNC_TRACE_SEVERE), LogLevel::Error);
    assert_eq!(log_from_c_trace_level(MQTTASYNC_TRACE_ERROR), LogLevel::Warn);
    assert_eq!(log_from_c_trace_level(MQTTASYNC_TRACE_PROTOCOL), LogLevel::Info);
    assert_eq!(log_from_c_trace_level(MQTTASYNC_TRACE_MINIMUM), LogLevel::Debug);
    assert_eq!(log_from_c_trace_level(MQTTASYNC_TRACE_MEDIUM), LogLevel::Debug);
    assert_eq!(log_from_c_trace_level(MQTTASYNC_TRACE_MAXIMUM), LogLevel::Trace);
    assert_eq!(log_from_c_trace_level(99), LogLevel::Trace);

    assert_eq!(log_into_c_trace_level(LogLevel::Error), MQTTASYNC_TRACE_SEVERE);
    assert_eq!(log_into_c_trace_level(LogLevel::Warn), MQTTASYNC_TRACE_ERROR);
    assert_eq!(log_into_c_trace_level(LogLevel::Info), MQTTASYNC_TRACE_PROTOCOL);
    assert_eq!(log_into_c_trace_level(LogLevel::Debug), MQTTASYNC_TRACE_MEDIUM);
    assert_eq!(log_into_c_trace_level(LogLevel::Trace), MQTTASYNC_TRACE_MAXIMUM);

    for lvl in [LogLevel::Error, LogLevel::Warn, LogLevel::Info, LogLevel::Debug, LogLevel::Trace] {
        assert_eq!(log_from_c_trace_level(log_into_c_trace_level(lvl)), lvl);
    }
}

#[test]
fn trace_level_selection() {
    assert!(level_enabled_with(LogLevel::Info, 5, 3, true));
    assert!(!level_enabled_with(LogLevel::Debug, 5, 3, true));
    assert!(!level_enabled_with(LogLevel::Error, 0, 5, true));
    assert!(!level_enabled_with(LogLevel::Error, 5, 5, false));
    // With no logger installed nothing is enabled.
    assert_eq!(c_trace_level(), None);
}

#[test]
fn c_bools() {
    assert_eq!(to_c_bool(true), 1);
    assert_eq!(to_c_bool(false), 0);
    assert!(from_c_bool(-3));
    assert!(!from_c_bool(0));
}

#[test]
fn qos_and_versions() {
    assert_eq!(QoS::default(), QoS::AtLeastOnce);
    assert_eq!(QoS::from(2), QoS::ExactlyOnce);
    assert_eq!(QoS::from(7), QoS::AtLeastOnce);
    assert!(QoS::try_from_u8(3).is_err());
    assert_eq!(MqttVersion::from(5u32), MqttVersion::V5);
    assert_eq!(MqttVersion::from(9u32), MqttVersion::Default);
    assert_eq!(MqttVersion::V3_1_1.value(), 4);
    assert!(MqttVersion::V3_1.is_before(MqttVersion::V5));
    assert_eq!(SslVersion::Tls_1_2.value(), 3);
}

#[test]
fn server_response_from_success() {
    let data = SuccessData {
        qos: 1,
        qos_list: Some(vec![0, 1, 2]),
        server_uri: "tcp://host:1883".to_string(),
        mqtt_version: 4,
        session_present: 1,
    };
    let rsp = ServerResponse::from_success(ServerRequest::SubscribeMany(3), &data);
    assert_eq!(rsp.subscribe_many_response(), Some(vec![0, 1, 2]));
    assert_eq!(rsp.subscribe_response(), None);
    let rsp = ServerResponse::from_success(ServerRequest::SubscribeMany(1), &data);
    assert_eq!(rsp.subscribe_many_response(), Some(vec![1]));
    let rsp = ServerResponse::from_success(ServerRequest::Subscribe, &data);
    assert_eq!(rsp.subscribe_response(), Some(1));
    let rsp = ServerResponse::from_success(ServerRequest::Connect, &data);
    let conn = rsp.connect_response().unwrap();
    assert_eq!(conn.server_uri, "tcp://host:1883");
    assert_eq!(conn.mqtt_version, 4);
    assert!(conn.session_present);
    let rsp = ServerResponse::from_success(ServerRequest::Unsubscribe, &data);
    assert!(matches!(rsp.request_response(), RequestResponse::NoResponse));
    assert_eq!(rsp.reason_code(), ReasonCode::Success);

    let rsp = ServerResponse::from_failure5(Properties::new(), 135);
    assert_eq!(rsp.reason_code(), ReasonCode::NotAuthorized);
    assert!(rsp.properties().is_empty());
    assert_eq!(rsp.unsubscribe_response(), None);
    assert_eq!(rsp.unsubscribe_many_response(), None);
    let rsp = ServerResponse::new();
    assert!(rsp.clone().connect_response().is_none());
}

#[test]
fn response_options_subscribe_many() {
    let opts = ResponseOptions::default();
    assert_eq!(opts.copts.callbacks, ResponseCallbacks::NoCallbacks);

    let sub_opts = SubscribeOptions::with_no_local();
    let opts = ResponseOptionsBuilder::new().subscribe_options(sub_opts).finalize();
    assert_eq!(opts.copts.callbacks, ResponseCallbacks::V5);
    assert!(opts.copts.subscribeOptions.noLocal != 0);

    let sub_opts = vec![SubscribeOptions::with_no_local(); 4];
    let opts = ResponseOptionsBuilder::new()
        .subscribe_many_options(&sub_opts)
        .finalize();
    assert_eq!(0, opts.copts.subscribeOptions.noLocal);
    assert_eq!(4, opts.copts.subscribeOptionsCount);
    let list = opts.sub_opts.as_ref().unwrap();
    assert!(list.iter().all(|o| o.noLocal != 0));

    let one = vec![SubscribeOptions::with_no_local()];
    let opts = ResponseOptionsBuilder::new().subscribe_many_options(&one).finalize();
    assert!(opts.copts.subscribeOptions.noLocal != 0);
    assert_eq!(0, opts.copts.subscribeOptionsCount);
    assert!(opts.properties().is_empty());
}

#[test]
fn token_data_from_error() {
    let data = TokenData::from_error(-9);
    assert!(data.complete);
    assert_eq!(data.ret_code, -9);
    assert_eq!(data.err_msg.as_deref(), Some("Bad QoS"));
    let data = TokenData::from_error(0);
    assert!(data.err_msg.is_none());
    let data = TokenData::from_message_id(42);
    assert!(!data.complete);
    assert_eq!(data.msg_id, 42);
}

#[test]
fn token_test_new() {
    let data = TokenData::default();
    assert!(!data.complete);
}

#[test]
fn token_test_from_message() {
    const MSG_ID: i16 = 42;
    let mut msg = Message::new("hello", "Hi there", 1);
    msg.cmsg.msgid = MSG_ID as i32;

    let data = TokenData::from_message(&msg);
    assert!(!data.complete);
    assert_eq!(MSG_ID, data.msg_id);
}

#[test]
fn test_from_error() {
    const ERR_CODE: i32 = -42;

    let data = TokenData::from_error(ERR_CODE);

    assert!(data.complete);
    assert_eq!(ERR_CODE, data.ret_code);
}

#[test]
fn test_try_wait() {
    const ERR_CODE: i32 = -42;
    let data = TokenData::from_error(ERR_CODE);

    // An unknown code with its description is a general failure.
    match data.result() {
        Some(Err(Error::Failure)) => {}
        Some(Err(_)) | Some(Ok(_)) | None => unreachable!(),
    }

    // An unsignaled token
    let mut data = TokenData::default();

    // If it's not done, we should get None
    match data.result() {
        None => (),
        Some(Err(_)) | Some(Ok(_)) => unreachable!(),
    }

    // Complete the token
    data.on_complete(ERR_CODE, None, None);

    // Now it should resolve to Some(Err(...))
    match data.result() {
        Some(Err(Error::Failure)) => (),
        Some(Err(_)) | Some(Ok(_)) | None => unreachable!(),
    }
}

#[test]
fn token_completion_success_gives_response() {
    let mut data = TokenData::from_message_id(7);
    let rsp = ServerResponse::from_success(
        ServerRequest::Subscribe,
        &SuccessData {
            qos: 1,
            qos_list: None,
            server_uri: String::new(),
            mqtt_version: 0,
            session_present: 0,
        },
    );
    data.on_complete(0, None, Some(rsp));
    assert!(data.complete);
    assert_eq!(data.msg_id, 7);
    match data.result() {
        Some(Ok(r)) => assert!(matches!(r.request_response(), RequestResponse::Subscribe(1))),
        _ => unreachable!(),
    }
    assert!(matches!(data.delivery_result(), Some(Ok(()))));
}

#[test]
fn token_completion_failure_codes() {
    assert_eq!(failure_return_code(0), -1);
    assert_eq!(failure_return_code(-3), -3);

    let mut data = TokenData::default();
    data.on_complete(failure_return_code(0), Some("TCP connect timeout".to_string()), None);
    assert!(matches!(data.result(), Some(Err(Error::TcpConnectTimeout))));
    assert!(matches!(data.delivery_result(), Some(Err(Error::TcpConnectTimeout))));

    let mut data = TokenData::default();
    data.on_complete(failure_return_code(-3), None, None);
    assert!(matches!(data.result(), Some(Err(Error::Disconnected))));
    assert!(data.delivery_result().is_some());
}

#[test]
fn c_trace_level_picks_most_verbose() {
    assert_eq!(c_trace_level_for(true, true, true, true, true), Some(MQTTASYNC_TRACE_MAXIMUM));
    assert_eq!(c_trace_level_for(false, true, true, true, true), Some(MQTTASYNC_TRACE_MEDIUM));
    assert_eq!(c_trace_level_for(false, false, true, false, true), Some(MQTTASYNC_TRACE_PROTOCOL));
    assert_eq!(c_trace_level_for(false, false, false, true, true), Some(MQTTASYNC_TRACE_ERROR));
    assert_eq!(c_trace_level_for(false, false, false, false, true), Some(MQTTASYNC_TRACE_SEVERE));
    assert_eq!(c_trace_level_for(false, false, false, false, false), None);
}
