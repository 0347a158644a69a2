//! MQTT v5 reason codes.

use vstd::prelude::*;

verus! {

/// MQTT v5 single-byte reason codes.
#[derive(Clone, Copy, PartialEq, Eq, Structural, Debug)]
#[allow(missing_docs)]
pub enum ReasonCode {
    Success,
    GrantedQos1,
    GrantedQos2,
    DisconnectWithWillMessage,
    NoMatchingSubscribers,
    NoSubscriptionFound,
    ContinueAuthentication,
    ReAuthenticate,
    UnspecifiedError,
    MalformedPacket,
    ProtocolError,
    ImplementationSpecificError,
    UnsupportedProtocolVersion,
    ClientIdentifierNotValid,
    BadUserNameOrPassword,
    NotAuthorized,
    ServerUnavailable,
    ServerBusy,
    Banned,
    ServerShuttingDown,
    BadAuthenticationMethod,
    KeepAliveTimeout,
    SessionTakenOver,
    TopicFilterInvalid,
    TopicNameInvalid,
    PacketIdentifierInUse,
    PacketIdentifierNotFound,
    ReceiveMaximumExceeded,
    TopicAliasInvalid,
    PacketTooLarge,
    MessageRateTooHigh,
    QuotaExceeded,
    AdministrativeAction,
    PayloadFormatInvalid,
    RetainNotSupported,
    QosNotSupported,
    UseAnotherServer,
    ServerMoved,
    SharedSubscriptionsNotSupported,
    ConnectionRateExceeded,
    MaximumConnectTime,
    SubscriptionIdentifiersNotSupported,
    WildcardSubscriptionsNotSupported,
    /// Not a protocol code; used for results of MQTT v3 operations.
    MqttppV3Code,
}

/// Reason code for a normal disconnect
#[allow(non_upper_case_globals)]
pub const NormalDisconnection: ReasonCode = ReasonCode::Success;

/// Reason code for QoS 0 granted
#[allow(non_upper_case_globals)]
pub const GrantedQos0: ReasonCode = ReasonCode::Success;

/// The byte value of a reason code.
pub open spec fn reason_code_number(rc: ReasonCode) -> u8 {
    match rc {
        ReasonCode::Success => 0,
        ReasonCode::GrantedQos1 => 1,
        ReasonCode::GrantedQos2 => 2,
        ReasonCode::DisconnectWithWillMessage => 4,
        ReasonCode::NoMatchingSubscribers => 16,
        ReasonCode::NoSubscriptionFound => 17,
        ReasonCode::ContinueAuthentication => 24,
        ReasonCode::ReAuthenticate => 25,
        ReasonCode::UnspecifiedError => 128,
        ReasonCode::MalformedPacket => 129,
        ReasonCode::ProtocolError => 130,
        ReasonCode::ImplementationSpecificError => 131,
        ReasonCode::UnsupportedProtocolVersion => 132,
        ReasonCode::ClientIdentifierNotValid => 133,
        ReasonCode::BadUserNameOrPassword => 134,
        ReasonCode::NotAuthorized => 135,
        ReasonCode::ServerUnavailable => 136,
        ReasonCode::ServerBusy => 137,
        ReasonCode::Banned => 138,
        ReasonCode::ServerShuttingDown => 139,
        ReasonCode::BadAuthenticationMethod => 140,
        ReasonCode::KeepAliveTimeout => 141,
        ReasonCode::SessionTakenOver => 142,
        ReasonCode::TopicFilterInvalid => 143,
        ReasonCode::TopicNameInvalid => 144,
        ReasonCode::PacketIdentifierInUse => 145,
        ReasonCode::PacketIdentifierNotFound => 146,
        ReasonCode::ReceiveMaximumExceeded => 147,
        ReasonCode::TopicAliasInvalid => 148,
        ReasonCode::PacketTooLarge => 149,
        ReasonCode::MessageRateTooHigh => 150,
        ReasonCode::QuotaExceeded => 151,
        ReasonCode::AdministrativeAction => 152,
        ReasonCode::PayloadFormatInvalid => 153,
        ReasonCode::RetainNotSupported => 154,
        ReasonCode::QosNotSupported => 155,
        ReasonCode::UseAnotherServer => 156,
        ReasonCode::ServerMoved => 157,
        ReasonCode::SharedSubscriptionsNotSupported => 158,
        ReasonCode::ConnectionRateExceeded => 159,
        ReasonCode::MaximumConnectTime => 160,
        ReasonCode::SubscriptionIdentifiersNotSupported => 161,
        ReasonCode::WildcardSubscriptionsNotSupported => 162,
        ReasonCode::MqttppV3Code => 255,
    }
}

/// The reason code for a number; numbers that name no protocol code give
/// `MqttppV3Code`.
pub open spec fn reason_code_of(code: u32) -> ReasonCode {
    match code {
        0 => ReasonCode::Success,
        1 => ReasonCode::GrantedQos1,
        2 => ReasonCode::GrantedQos2,
        4 => ReasonCode::DisconnectWithWillMessage,
        16 => ReasonCode::NoMatchingSubscribers,
        17 => ReasonCode::NoSubscriptionFound,
        24 => ReasonCode::ContinueAuthentication,
        25 => ReasonCode::ReAuthenticate,
        128 => ReasonCode::UnspecifiedError,
        129 => ReasonCode::MalformedPacket,
        130 => ReasonCode::ProtocolError,
        131 => ReasonCode::ImplementationSpecificError,
        132 => ReasonCode::UnsupportedProtocolVersion,
        133 => ReasonCode::ClientIdentifierNotValid,
        134 => ReasonCode::BadUserNameOrPassword,
        135 => ReasonCode::NotAuthorized,
        136 => ReasonCode::ServerUnavailable,
        137 => ReasonCode::ServerBusy,
        138 => ReasonCode::Banned,
        139 => ReasonCode::ServerShuttingDown,
        140 => ReasonCode::BadAuthenticationMethod,
        141 => ReasonCode::KeepAliveTimeout,
        142 => ReasonCode::SessionTakenOver,
        143 => ReasonCode::TopicFilterInvalid,
        144 => ReasonCode::TopicNameInvalid,
        145 => ReasonCode::PacketIdentifierInUse,
        146 => ReasonCode::PacketIdentifierNotFound,
        147 => ReasonCode::ReceiveMaximumExceeded,
        148 => ReasonCode::TopicAliasInvalid,
        149 => ReasonCode::PacketTooLarge,
        150 => ReasonCode::MessageRateTooHigh,
        151 => ReasonCode::QuotaExceeded,
        152 => ReasonCode::AdministrativeAction,
        153 => ReasonCode::PayloadFormatInvalid,
        154 => ReasonCode::RetainNotSupported,
        155 => ReasonCode::QosNotSupported,
        156 => ReasonCode::UseAnotherServer,
        157 => ReasonCode::ServerMoved,
        158 => ReasonCode::SharedSubscriptionsNotSupported,
        159 => ReasonCode::ConnectionRateExceeded,
        160 => ReasonCode::MaximumConnectTime,
        161 => ReasonCode::SubscriptionIdentifiersNotSupported,
        162 => ReasonCode::WildcardSubscriptionsNotSupported,
        _ => ReasonCode::MqttppV3Code,
    }
}

/// The text that describes a reason code.
pub open spec fn reason_code_text(rc: ReasonCode) -> Seq<char> {
    match rc {
        ReasonCode::Success => "SUCCESS"@,
        ReasonCode::GrantedQos1 => "Granted QoS 1"@,
        ReasonCode::GrantedQos2 => "Granted QoS 2"@,
        ReasonCode::DisconnectWithWillMessage => "Disconnect with Will Message"@,
        ReasonCode::NoMatchingSubscribers => "No matching subscribers"@,
        ReasonCode::NoSubscriptionFound => "No subscription found"@,
        ReasonCode::ContinueAuthentication => "Continue authentication"@,
        ReasonCode::ReAuthenticate => "Re-authenticate"@,
        ReasonCode::UnspecifiedError => "Unspecified error"@,
        ReasonCode::MalformedPacket => "Malformed Packet"@,
        ReasonCode::ProtocolError => "Protocol error"@,
        ReasonCode::ImplementationSpecificError => "Implementation specific error"@,
        ReasonCode::UnsupportedProtocolVersion => "Unsupported Protocol Version"@,
        ReasonCode::ClientIdentifierNotValid => "Client Identifier not valid"@,
        ReasonCode::BadUserNameOrPassword => "Bad User Name or Password"@,
        ReasonCode::NotAuthorized => "Not authorized"@,
        ReasonCode::ServerUnavailable => "Server unavailable"@,
        ReasonCode::ServerBusy => "Server busy"@,
        ReasonCode::Banned => "Banned"@,
        ReasonCode::ServerShuttingDown => "Server shutting down"@,
        ReasonCode::BadAuthenticationMethod => "Bad authentication method"@,
        ReasonCode::KeepAliveTimeout => "Keep Alive timeout"@,
        ReasonCode::SessionTakenOver => "Session taken over"@,
        ReasonCode::TopicFilterInvalid => "Topic filter invalid"@,
        ReasonCode::TopicNameInvalid => "Topic name invalid"@,
        ReasonCode::PacketIdentifierInUse => "Packet Identifier in use"@,
        ReasonCode::PacketIdentifierNotFound => "Packet Identifier not found"@,
        ReasonCode::ReceiveMaximumExceeded => "Receive Maximum exceeded"@,
        ReasonCode::TopicAliasInvalid => "Topic Alias invalid"@,
        ReasonCode::PacketTooLarge => "Packet too large"@,
        ReasonCode::MessageRateTooHigh => "Message rate too high"@,
        ReasonCode::QuotaExceeded => "Quota exceeded"@,
        ReasonCode::AdministrativeAction => "Administrative action"@,
        ReasonCode::PayloadFormatInvalid => "Payload format invalid"@,
        ReasonCode::RetainNotSupported => "Retain not supported"@,
        ReasonCode::QosNotSupported => "QoS not supported"@,
        ReasonCode::UseAnotherServer => "Use another server"@,
        ReasonCode::ServerMoved => "Server moved"@,
        ReasonCode::SharedSubscriptionsNotSupported => "Shared subscriptions not supported"@,
        ReasonCode::ConnectionRateExceeded => "Connection rate exceeded"@,
        ReasonCode::MaximumConnectTime => "Maximum connect time"@,
        ReasonCode::SubscriptionIdentifiersNotSupported => "Subscription Identifiers not supported"@,
        ReasonCode::WildcardSubscriptionsNotSupported => "Wildcard Subscriptions not supported"@,
        ReasonCode::MqttppV3Code => "Unknown"@,
    }
}

impl ReasonCode {
    /// Reason code for a normal disconnect
    #[allow(non_upper_case_globals)]
    pub const NormalDisconnection: ReasonCode = ReasonCode::Success;

    /// Reason code for QoS 0 granted
    #[allow(non_upper_case_globals)]
    pub const GrantedQos0: ReasonCode = ReasonCode::Success;

    /// Gets the byte value of the reason code.
    pub fn value(&self) -> (r: u8)
        ensures
            r == reason_code_number(*self),
    {
        match self {
            ReasonCode::Success => 0,
            ReasonCode::GrantedQos1 => 1,
            ReasonCode::GrantedQos2 => 2,
            ReasonCode::DisconnectWithWillMessage => 4,
            ReasonCode::NoMatchingSubscribers => 16,
            ReasonCode::NoSubscriptionFound => 17,
            ReasonCode::ContinueAuthentication => 24,
            ReasonCode::ReAuthenticate => 25,
            ReasonCode::UnspecifiedError => 128,
            ReasonCode::MalformedPacket => 129,
            ReasonCode::ProtocolError => 130,
            ReasonCode::ImplementationSpecificError => 131,
            ReasonCode::UnsupportedProtocolVersion => 132,
            ReasonCode::ClientIdentifierNotValid => 133,
            ReasonCode::BadUserNameOrPassword => 134,
            ReasonCode::NotAuthorized => 135,
            ReasonCode::ServerUnavailable => 136,
            ReasonCode::ServerBusy => 137,
            ReasonCode::Banned => 138,
            ReasonCode::ServerShuttingDown => 139,
            ReasonCode::BadAuthenticationMethod => 140,
            ReasonCode::KeepAliveTimeout => 141,
            ReasonCode::SessionTakenOver => 142,
            ReasonCode::TopicFilterInvalid => 143,
            ReasonCode::TopicNameInvalid => 144,
            ReasonCode::PacketIdentifierInUse => 145,
            ReasonCode::PacketIdentifierNotFound => 146,
            ReasonCode::ReceiveMaximumExceeded => 147,
            ReasonCode::TopicAliasInvalid => 148,
            ReasonCode::PacketTooLarge => 149,
            ReasonCode::MessageRateTooHigh => 150,
            ReasonCode::QuotaExceeded => 151,
            ReasonCode::AdministrativeAction => 152,
            ReasonCode::PayloadFormatInvalid => 153,
            ReasonCode::RetainNotSupported => 154,
            ReasonCode::QosNotSupported => 155,
            ReasonCode::UseAnotherServer => 156,
            ReasonCode::ServerMoved => 157,
            ReasonCode::SharedSubscriptionsNotSupported => 158,
            ReasonCode::ConnectionRateExceeded => 159,
            ReasonCode::MaximumConnectTime => 160,
            ReasonCode::SubscriptionIdentifiersNotSupported => 161,
            ReasonCode::WildcardSubscriptionsNotSupported => 162,
            ReasonCode::MqttppV3Code => 255,
        }
    }

    /// Creates a reason code from its numeric value. Values that are not
    /// protocol reason codes give `MqttppV3Code`.
    pub fn from_u32(code: u32) -> (r: ReasonCode)
        ensures
            r == reason_code_of(code),
    {
        match code {
            0 => ReasonCode::Success,
            1 => ReasonCode::GrantedQos1,
            2 => ReasonCode::GrantedQos2,
            4 => ReasonCode::DisconnectWithWillMessage,
            16 => ReasonCode::NoMatchingSubscribers,
            17 => ReasonCode::NoSubscriptionFound,
            24 => ReasonCode::ContinueAuthentication,
            25 => ReasonCode::ReAuthenticate,
            128 => ReasonCode::UnspecifiedError,
            129 => ReasonCode::MalformedPacket,
            130 => ReasonCode::ProtocolError,
            131 => ReasonCode::ImplementationSpecificError,
            132 => ReasonCode::UnsupportedProtocolVersion,
            133 => ReasonCode::ClientIdentifierNotValid,
            134 => ReasonCode::BadUserNameOrPassword,
            135 => ReasonCode::NotAuthorized,
            136 => ReasonCode::ServerUnavailable,
            137 => ReasonCode::ServerBusy,
            138 => ReasonCode::Banned,
            139 => ReasonCode::ServerShuttingDown,
            140 => ReasonCode::BadAuthenticationMethod,
            141 => ReasonCode::KeepAliveTimeout,
            142 => ReasonCode::SessionTakenOver,
            143 => ReasonCode::TopicFilterInvalid,
            144 => ReasonCode::TopicNameInvalid,
            145 => ReasonCode::PacketIdentifierInUse,
            146 => ReasonCode::PacketIdentifierNotFound,
            147 => ReasonCode::ReceiveMaximumExceeded,
            148 => ReasonCode::TopicAliasInvalid,
            149 => ReasonCode::PacketTooLarge,
            150 => ReasonCode::MessageRateTooHigh,
            151 => ReasonCode::QuotaExceeded,
            152 => ReasonCode::AdministrativeAction,
            153 => ReasonCode::PayloadFormatInvalid,
            154 => ReasonCode::RetainNotSupported,
            155 => ReasonCode::QosNotSupported,
            156 => ReasonCode::UseAnotherServer,
            157 => ReasonCode::ServerMoved,
            158 => ReasonCode::SharedSubscriptionsNotSupported,
            159 => ReasonCode::ConnectionRateExceeded,
            160 => ReasonCode::MaximumConnectTime,
            161 => ReasonCode::SubscriptionIdentifiersNotSupported,
            162 => ReasonCode::WildcardSubscriptionsNotSupported,
            _ => ReasonCode::MqttppV3Code,
        }
    }

    /// Reason codes less than 0x80 indicate a successful operation.
    pub fn is_ok(&self) -> (r: bool)
        ensures
            r == (reason_code_number(*self) < 0x80),
    {
        self.value() < 0x80
    }

    /// Reason codes of 0x80 or greater indicate failure.
    pub fn is_err(&self) -> (r: bool)
        ensures
            r == (reason_code_number(*self) >= 0x80),
    {
        self.value() >= 0x80
    }

    /// Gets the text that describes the reason code.
    pub fn to_string(&self) -> (r: String)
        ensures
            r@ == reason_code_text(*self),
    {
        let s: &str = match self {
            ReasonCode::Success => "SUCCESS",
            ReasonCode::GrantedQos1 => "Granted QoS 1",
            ReasonCode::GrantedQos2 => "Granted QoS 2",
            ReasonCode::DisconnectWithWillMessage => "Disconnect with Will Message",
            ReasonCode::NoMatchingSubscribers => "No matching subscribers",
            ReasonCode::NoSubscriptionFound => "No subscription found",
            ReasonCode::ContinueAuthentication => "Continue authentication",
            ReasonCode::ReAuthenticate => "Re-authenticate",
            ReasonCode::UnspecifiedError => "Unspecified error",
            ReasonCode::MalformedPacket => "Malformed Packet",
            ReasonCode::ProtocolError => "Protocol error",
            ReasonCode::ImplementationSpecificError => "Implementation specific error",
            ReasonCode::UnsupportedProtocolVersion => "Unsupported Protocol Version",
            ReasonCode::ClientIdentifierNotValid => "Client Identifier not valid",
            ReasonCode::BadUserNameOrPassword => "Bad User Name or Password",
            ReasonCode::NotAuthorized => "Not authorized",
            ReasonCode::ServerUnavailable => "Server unavailable",
            ReasonCode::ServerBusy => "Server busy",
            ReasonCode::Banned => "Banned",
            ReasonCode::ServerShuttingDown => "Server shutting down",
            ReasonCode::BadAuthenticationMethod => "Bad authentication method",
            ReasonCode::KeepAliveTimeout => "Keep Alive timeout",
            ReasonCode::SessionTakenOver => "Session taken over",
            ReasonCode::TopicFilterInvalid => "Topic filter invalid",
            ReasonCode::TopicNameInvalid => "Topic name invalid",
            ReasonCode::PacketIdentifierInUse => "Packet Identifier in use",
            ReasonCode::PacketIdentifierNotFound => "Packet Identifier not found",
            ReasonCode::ReceiveMaximumExceeded => "Receive Maximum exceeded",
            ReasonCode::TopicAliasInvalid => "Topic Alias invalid",
            ReasonCode::PacketTooLarge => "Packet too large",
            ReasonCode::MessageRateTooHigh => "Message rate too high",
            ReasonCode::QuotaExceeded => "Quota exceeded",
            ReasonCode::AdministrativeAction => "Administrative action",
            ReasonCode::PayloadFormatInvalid => "Payload format invalid",
            ReasonCode::RetainNotSupported => "Retain not supported",
            ReasonCode::QosNotSupported => "QoS not supported",
            ReasonCode::UseAnotherServer => "Use another server",
            ReasonCode::ServerMoved => "Server moved",
            ReasonCode::SharedSubscriptionsNotSupported => "Shared subscriptions not supported",
            ReasonCode::ConnectionRateExceeded => "Connection rate exceeded",
            ReasonCode::MaximumConnectTime => "Maximum connect time",
            ReasonCode::SubscriptionIdentifiersNotSupported => "Subscription Identifiers not supported",
            ReasonCode::WildcardSubscriptionsNotSupported => "Wildcard Subscriptions not supported",
            ReasonCode::MqttppV3Code => "Unknown",
        };
        String::from_str(s)
    }
}

impl Default for ReasonCode {
    fn default() -> (r: ReasonCode)
        ensures
            r == ReasonCode::Success,
    {
        ReasonCode::Success
    }
}

impl From<u32> for ReasonCode {
    fn from(code: u32) -> (r: ReasonCode) {
        ReasonCode::from_u32(code)
    }
}

impl vstd::std_specs::convert::FromSpecImpl<u32> for ReasonCode {
    open spec fn obeys_from_spec() -> bool {
        true
    }

    open spec fn from_spec(v: u32) -> ReasonCode {
        reason_code_of(v)
    }
}

/// A reason code is a success exactly when it is not a failure.
pub proof fn lemma_reason_code_ok_xor_err(rc: ReasonCode)
    ensures
        (reason_code_number(rc) < 0x80) != (reason_code_number(rc) >= 0x80),
{
}

/// Converting a reason code's value back gives the same reason code.
pub proof fn lemma_reason_code_roundtrip(rc: ReasonCode)
    ensures
        reason_code_of(reason_code_number(rc) as u32) == rc,
{
}


/// Each reason code has the number that the MQTT v5 specification gives
/// it (0x00 success through 0xA2 wildcard subscriptions not supported, and
/// 0xFF for a code that only an MQTT v3 engine reports).
pub proof fn lemma_reason_codes_follow_mqtt_table()
    ensures
        reason_code_number(ReasonCode::Success) == 0x00,
        reason_code_number(ReasonCode::GrantedQos1) == 0x01,
        reason_code_number(ReasonCode::GrantedQos2) == 0x02,
        reason_code_number(ReasonCode::DisconnectWithWillMessage) == 0x04,
        reason_code_number(ReasonCode::NoMatchingSubscribers) == 0x10,
        reason_code_number(ReasonCode::NoSubscriptionFound) == 0x11,
        reason_code_number(ReasonCode::ContinueAuthentication) == 0x18,
        reason_code_number(ReasonCode::ReAuthenticate) == 0x19,
        reason_code_number(ReasonCode::UnspecifiedError) == 0x80,
        reason_code_number(ReasonCode::MalformedPacket) == 0x81,
        reason_code_number(ReasonCode::ProtocolError) == 0x82,
        reason_code_number(ReasonCode::ImplementationSpecificError) == 0x83,
        reason_code_number(ReasonCode::UnsupportedProtocolVersion) == 0x84,
        reason_code_number(ReasonCode::ClientIdentifierNotValid) == 0x85,
        reason_code_number(ReasonCode::BadUserNameOrPassword) == 0x86,
        reason_code_number(ReasonCode::NotAuthorized) == 0x87,
        reason_code_number(ReasonCode::ServerUnavailable) == 0x88,
        reason_code_number(ReasonCode::ServerBusy) == 0x89,
        reason_code_number(ReasonCode::Banned) == 0x8A,
        reason_code_number(ReasonCode::ServerShuttingDown) == 0x8B,
        reason_code_number(ReasonCode::BadAuthenticationMethod) == 0x8C,
        reason_code_number(ReasonCode::KeepAliveTimeout) == 0x8D,
        reason_code_number(ReasonCode::SessionTakenOver) == 0x8E,
        reason_code_number(ReasonCode::TopicFilterInvalid) == 0x8F,
        reason_code_number(ReasonCode::TopicNameInvalid) == 0x90,
        reason_code_number(ReasonCode::PacketIdentifierInUse) == 0x91,
        reason_code_number(ReasonCode::PacketIdentifierNotFound) == 0x92,
        reason_code_number(ReasonCode::ReceiveMaximumExceeded) == 0x93,
        reason_code_number(ReasonCode::TopicAliasInvalid) == 0x94,
        reason_code_number(ReasonCode::PacketTooLarge) == 0x95,
        reason_code_number(ReasonCode::MessageRateTooHigh) == 0x96,
        reason_code_number(ReasonCode::QuotaExceeded) == 0x97,
        reason_code_number(ReasonCode::AdministrativeAction) == 0x98,
        reason_code_number(ReasonCode::PayloadFormatInvalid) == 0x99,
        reason_code_number(ReasonCode::RetainNotSupported) == 0x9A,
        reason_code_number(ReasonCode::QosNotSupported) == 0x9B,
        reason_code_number(ReasonCode::UseAnotherServer) == 0x9C,
        reason_code_number(ReasonCode::ServerMoved) == 0x9D,
        reason_code_number(ReasonCode::SharedSubscriptionsNotSupported) == 0x9E,
        reason_code_number(ReasonCode::ConnectionRateExceeded) == 0x9F,
        reason_code_number(ReasonCode::MaximumConnectTime) == 0xA0,
        reason_code_number(ReasonCode::SubscriptionIdentifiersNotSupported) == 0xA1,
        reason_code_number(ReasonCode::WildcardSubscriptionsNotSupported) == 0xA2,
        reason_code_number(ReasonCode::MqttppV3Code) == 0xFF,
{
}

/// A number that converts to a protocol reason code is that code's number:
/// converting a number and reading the code's number back gives the number.
pub proof fn lemma_reason_code_of_keeps_number(n: u32)
    ensures
        reason_code_of(n) != ReasonCode::MqttppV3Code ==> reason_code_number(reason_code_of(n)) == n,
{
}


/// The number of each MQTT v5 reason code converts to the code that the
/// specification's description names.
pub proof fn lemma_reason_code_numbers_name_descriptions()
    ensures
        reason_code_text(reason_code_of(0x00)) == "SUCCESS"@,
        reason_code_text(reason_code_of(0x01)) == "Granted QoS 1"@,
        reason_code_text(reason_code_of(0x02)) == "Granted QoS 2"@,
        reason_code_text(reason_code_of(0x04)) == "Disconnect with Will Message"@,
        reason_code_text(reason_code_of(0x10)) == "No matching subscribers"@,
        reason_code_text(reason_code_of(0x11)) == "No subscription found"@,
        reason_code_text(reason_code_of(0x18)) == "Continue authentication"@,
        reason_code_text(reason_code_of(0x19)) == "Re-authenticate"@,
        reason_code_text(reason_code_of(0x80)) == "Unspecified error"@,
        reason_code_text(reason_code_of(0x81)) == "Malformed Packet"@,
        reason_code_text(reason_code_of(0x82)) == "Protocol error"@,
        reason_code_text(reason_code_of(0x83)) == "Implementation specific error"@,
        reason_code_text(reason_code_of(0x84)) == "Unsupported Protocol Version"@,
        reason_code_text(reason_code_of(0x85)) == "Client Identifier not valid"@,
        reason_code_text(reason_code_of(0x86)) == "Bad User Name or Password"@,
        reason_code_text(reason_code_of(0x87)) == "Not authorized"@,
        reason_code_text(reason_code_of(0x88)) == "Server unavailable"@,
        reason_code_text(reason_code_of(0x89)) == "Server busy"@,
        reason_code_text(reason_code_of(0x8A)) == "Banned"@,
        reason_code_text(reason_code_of(0x8B)) == "Server shutting down"@,
        reason_code_text(reason_code_of(0x8C)) == "Bad authentication method"@,
        reason_code_text(reason_code_of(0x8D)) == "Keep Alive timeout"@,
        reason_code_text(reason_code_of(0x8E)) == "Session taken over"@,
        reason_code_text(reason_code_of(0x8F)) == "Topic filter invalid"@,
        reason_code_text(reason_code_of(0x90)) == "Topic name invalid"@,
        reason_code_text(reason_code_of(0x91)) == "Packet Identifier in use"@,
        reason_code_text(reason_code_of(0x92)) == "Packet Identifier not found"@,
        reason_code_text(reason_code_of(0x93)) == "Receive Maximum exceeded"@,
        reason_code_text(reason_code_of(0x94)) == "Topic Alias invalid"@,
        reason_code_text(reason_code_of(0x95)) == "Packet too large"@,
        reason_code_text(reason_code_of(0x96)) == "Message rate too high"@,
        reason_code_text(reason_code_of(0x97)) == "Quota exceeded"@,
        reason_code_text(reason_code_of(0x98)) == "Administrative action"@,
        reason_code_text(reason_code_of(0x99)) == "Payload format invalid"@,
        reason_code_text(reason_code_of(0x9A)) == "Retain not supported"@,
        reason_code_text(reason_code_of(0x9B)) == "QoS not supported"@,
        reason_code_text(reason_code_of(0x9C)) == "Use another server"@,
        reason_code_text(reason_code_of(0x9D)) == "Server moved"@,
        reason_code_text(reason_code_of(0x9E)) == "Shared subscriptions not supported"@,
        reason_code_text(reason_code_of(0x9F)) == "Connection rate exceeded"@,
        reason_code_text(reason_code_of(0xA0)) == "Maximum connect time"@,
        reason_code_text(reason_code_of(0xA1)) == "Subscription Identifiers not supported"@,
        reason_code_text(reason_code_of(0xA2)) == "Wildcard Subscriptions not supported"@,
{
}

} // verus!
