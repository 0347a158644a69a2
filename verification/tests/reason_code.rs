use paho_mqtt::reason_code::ReasonCode;

#[test]
fn test_as() {
    assert_eq!(ReasonCode::Success.value() as u32, 0u32);

    assert_eq!(ReasonCode::DisconnectWithWillMessage.value() as u32, 4u32);

    assert_eq!(ReasonCode::UnspecifiedError.value() as u32, 128u32);

    assert_eq!(ReasonCode::MaximumConnectTime.value() as u32, 160u32);
}

#[test]
fn test_from() {
    assert_eq!(ReasonCode::Success, ReasonCode::from(0u32));

    assert_eq!(ReasonCode::DisconnectWithWillMessage, ReasonCode::from(4u32));

    assert_eq!(ReasonCode::UnspecifiedError, ReasonCode::from(128u32));

    assert_eq!(ReasonCode::MaximumConnectTime, ReasonCode::from(160u32));
}

#[test]
fn test_is_ok() {
    assert!(ReasonCode::Success.is_ok());
    assert!(ReasonCode::ReAuthenticate.is_ok());

    assert!(!ReasonCode::UnspecifiedError.is_ok());
    assert!(!ReasonCode::ServerMoved.is_ok());
}

#[test]
fn test_is_err() {
    assert!(!ReasonCode::Success.is_err());
    assert!(!ReasonCode::ReAuthenticate.is_err());

    assert!(ReasonCode::UnspecifiedError.is_err());
    assert!(ReasonCode::ServerMoved.is_err());
}

#[test]
fn test_display() {
    let s = ReasonCode::GrantedQos2.to_string();
    assert_eq!(&s, "Granted QoS 2");

    let s = ReasonCode::UnspecifiedError.to_string();
    assert_eq!(&s, "Unspecified error");

    let s = ReasonCode::Banned.to_string();
    assert_eq!(&s, "Banned");
}

// ----- Further cases -----

#[test]
fn reason_code_unknown_value_and_aliases() {
    assert_eq!(ReasonCode::from(255u32).to_string(), "Unknown".to_string());
    assert_eq!(ReasonCode::NormalDisconnection, ReasonCode::Success);
    assert_eq!(ReasonCode::GrantedQos0, ReasonCode::Success);
    assert_eq!(ReasonCode::default(), ReasonCode::Success);
    assert_eq!(ReasonCode::from(ReasonCode::Banned.value() as u32), ReasonCode::Banned);
}
