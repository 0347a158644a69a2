use paho_mqtt::errors::{MQTTASYNC_BAD_QOS, MQTTASYNC_DISCONNECTED, MQTTASYNC_FAILURE};
use paho_mqtt::{error_message, error_message_opt, ConnectReturnCode, Error};

#[test]
fn test_error_from_rc() {
    let err = Error::from(MQTTASYNC_BAD_QOS);
    assert!(matches!(err, Error::BadQos));
}

#[test]
fn test_error_from_msg() {
    let err = Error::from((MQTTASYNC_FAILURE, "TCP connect timeout"));
    assert!(matches!(err, Error::TcpConnectTimeout));
}

// ----- Further cases -----

#[test]
fn error_from_rc_variants() {
    assert!(matches!(Error::from(-2), Error::PersistenceError));
    assert!(matches!(Error::from(-19), Error::MaxBufferedZero));
    assert!(matches!(Error::from(-100), Error::Failure));
    assert!(matches!(Error::from(MQTTASYNC_DISCONNECTED), Error::Disconnected));
}

#[test]
fn error_from_msg_variants() {
    assert!(matches!(
        Error::from((MQTTASYNC_FAILURE, "TCP connect completion failure")),
        Error::TcpConnectCompletionFailure
    ));
    assert!(matches!(
        Error::from((MQTTASYNC_FAILURE, "TCP/TLS connect failure")),
        Error::TcpTlsConnectFailure
    ));
    assert!(matches!(Error::from((7, "Received disconnect")), Error::ReceivedDisconnect(7)));
    assert!(matches!(
        Error::from((5, "CONNACK return code")),
        Error::ConnectReturn(ConnectReturnCode::NotAuthorized)
    ));
    assert!(matches!(Error::from((9, "CONNACK return code")), Error::Failure));
    assert!(matches!(Error::from((3, "socket error")), Error::SocketError(3)));
    assert!(matches!(Error::from((3, "other")), Error::Failure));
    assert!(matches!(Error::from((-9, None)), Error::BadQos));
    assert!(matches!(Error::from("oops"), Error::General("oops")));
    assert!(matches!(Error::from("x".to_string()), Error::GeneralString(_)));
}

#[test]
fn error_message_texts() {
    assert_eq!(error_message(MQTTASYNC_BAD_QOS), "Bad QoS");
    assert_eq!(
        error_message_opt(-1, Some("TCP connect timeout".to_string())),
        format!("{} (TCP connect timeout)", error_message(-1))
    );
}
