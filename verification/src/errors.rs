//! Errors of MQTT operations, and the messages for the numeric return
//! codes of the underlying client engine.

use vstd::prelude::*;
use vstd::string::*;

use crate::message::Message;
use crate::reason_code::ReasonCode;
use crate::strings::str_equals;

verus! {

/// A generic error code indicating the failure of an MQTT operation.
pub const MQTTASYNC_FAILURE: i32 = -1;
/// Persistence error.
pub const MQTTASYNC_PERSISTENCE_ERROR: i32 = -2;
/// The client is disconnected.
pub const MQTTASYNC_DISCONNECTED: i32 = -3;
/// The maximum number of in-flight messages was reached.
pub const MQTTASYNC_MAX_MESSAGES_INFLIGHT: i32 = -4;
/// An invalid UTF-8 string.
pub const MQTTASYNC_BAD_UTF8_STRING: i32 = -5;
/// A NULL parameter where it is not allowed.
pub const MQTTASYNC_NULL_PARAMETER: i32 = -6;
/// The topic name was truncated.
pub const MQTTASYNC_TOPICNAME_TRUNCATED: i32 = -7;
/// A structure parameter with a bad identifier or version.
pub const MQTTASYNC_BAD_STRUCTURE: i32 = -8;
/// An invalid QoS value.
pub const MQTTASYNC_BAD_QOS: i32 = -9;
/// All message identifiers are in use.
pub const MQTTASYNC_NO_MORE_MSGIDS: i32 = -10;
/// The request was discarded before completing.
pub const MQTTASYNC_OPERATION_INCOMPLETE: i32 = -11;
/// The limit on buffered messages was reached.
pub const MQTTASYNC_MAX_BUFFERED_MESSAGES: i32 = -12;
/// SSL requested from a library without SSL support.
pub const MQTTASYNC_SSL_NOT_SUPPORTED: i32 = -13;
/// A bad URL protocol/scheme.
pub const MQTTASYNC_BAD_PROTOCOL: i32 = -14;
/// An option for another version of MQTT.
pub const MQTTASYNC_BAD_MQTT_OPTION: i32 = -15;
/// A call not applicable to the client's MQTT version.
pub const MQTTASYNC_WRONG_MQTT_VERSION: i32 = -16;
/// A zero-length will topic.
pub const MQTTASYNC_0_LEN_WILL_TOPIC: i32 = -17;
/// A connect or disconnect command was ignored.
pub const MQTTASYNC_COMMAND_IGNORED: i32 = -18;
/// The maximum number of buffered messages is zero.
pub const MQTTASYNC_MAX_BUFFERED: i32 = -19;

/// Connect Return Code
///
/// This is the 2nd byte of the variable header of the CONNACK packet
/// which indicates whether the server accepted the connection, and if not,
/// contains some information about why it rejected the request.
///
/// These are defined in MQTT v3.x. In v5, these are replaced with reason
/// codes which expand the number of reasons why the connection was rejected.
#[derive(Debug, Clone, Copy, PartialEq, Eq, Structural, Hash)]
pub enum ConnectReturnCode {
    /// The connection was accepted.
    Accepted,
    /// The Server does not support the level of the MQTT protocol
    /// requested by the Client.
    UnacceptableProtocolVersion,
    /// The Client identifier is correct UTF-8 but not allowed by the Server
    IdentifierRejected,
    /// The Network Connection has been made but the MQTT service
    /// is unavailable
    ServerUnavailable,
    /// The data in the user name or password is malformed
    BadUserNameOrPassword,
    /// The Client is not authorized to connect
    NotAuthorized,
}

/// The byte value of a connect return code.
pub open spec fn connect_return_number(rc: ConnectReturnCode) -> u8 {
    match rc {
        ConnectReturnCode::Accepted => 0,
        ConnectReturnCode::UnacceptableProtocolVersion => 1,
        ConnectReturnCode::IdentifierRejected => 2,
        ConnectReturnCode::ServerUnavailable => 3,
        ConnectReturnCode::BadUserNameOrPassword => 4,
        ConnectReturnCode::NotAuthorized => 5,
    }
}

/// The connect return code for a byte value, if it names one.
pub open spec fn connect_return_of(rc: u8) -> Option<ConnectReturnCode> {
    if rc == 0 {
        Some(ConnectReturnCode::Accepted)
    } else if rc == 1 {
        Some(ConnectReturnCode::UnacceptableProtocolVersion)
    } else if rc == 2 {
        Some(ConnectReturnCode::IdentifierRejected)
    } else if rc == 3 {
        Some(ConnectReturnCode::ServerUnavailable)
    } else if rc == 4 {
        Some(ConnectReturnCode::BadUserNameOrPassword)
    } else if rc == 5 {
        Some(ConnectReturnCode::NotAuthorized)
    } else {
        None
    }
}

/// The text that describes a connect return code.
pub open spec fn connect_return_text(rc: ConnectReturnCode) -> Seq<char> {
    match rc {
        ConnectReturnCode::Accepted => "Accepted"@,
        ConnectReturnCode::UnacceptableProtocolVersion => "Unacceptable Protocol Version"@,
        ConnectReturnCode::IdentifierRejected => "Client Identifier Rejected"@,
        ConnectReturnCode::ServerUnavailable => "Server Unavailable"@,
        ConnectReturnCode::BadUserNameOrPassword => "Bad User Name or Password"@,
        ConnectReturnCode::NotAuthorized => "Not Authorized"@,
    }
}

impl ConnectReturnCode {
    /// Gets the byte value of the return code.
    pub fn value(&self) -> (r: u8)
        ensures
            r == connect_return_number(*self),
    {
        match self {
            ConnectReturnCode::Accepted => 0,
            ConnectReturnCode::UnacceptableProtocolVersion => 1,
            ConnectReturnCode::IdentifierRejected => 2,
            ConnectReturnCode::ServerUnavailable => 3,
            ConnectReturnCode::BadUserNameOrPassword => 4,
            ConnectReturnCode::NotAuthorized => 5,
        }
    }

    /// Converts a byte to a return code, failing with `Failure` for values
    /// above 5.
    pub fn try_from_u8(rc: u8) -> (r: Result<ConnectReturnCode, Error>)
        ensures
            connect_return_of(rc) matches Some(c) ==> r matches Ok(x) && x == c,
            connect_return_of(rc) is None ==> r matches Err(Error::Failure),
    {
        if rc == 0 {
            Ok(ConnectReturnCode::Accepted)
        } else if rc == 1 {
            Ok(ConnectReturnCode::UnacceptableProtocolVersion)
        } else if rc == 2 {
            Ok(ConnectReturnCode::IdentifierRejected)
        } else if rc == 3 {
            Ok(ConnectReturnCode::ServerUnavailable)
        } else if rc == 4 {
            Ok(ConnectReturnCode::BadUserNameOrPassword)
        } else if rc == 5 {
            Ok(ConnectReturnCode::NotAuthorized)
        } else {
            Err(Error::Failure)
        }
    }

    /// Gets the text that describes the return code.
    pub fn to_string(&self) -> (r: String)
        ensures
            r@ == connect_return_text(*self),
    {
        let s: &str = match self {
            ConnectReturnCode::Accepted => "Accepted",
            ConnectReturnCode::UnacceptableProtocolVersion => "Unacceptable Protocol Version",
            ConnectReturnCode::IdentifierRejected => "Client Identifier Rejected",
            ConnectReturnCode::ServerUnavailable => "Server Unavailable",
            ConnectReturnCode::BadUserNameOrPassword => "Bad User Name or Password",
            ConnectReturnCode::NotAuthorized => "Not Authorized",
        };
        String::from_str(s)
    }
}

/// The errors from an MQTT operation.
#[derive(Debug)]
#[allow(missing_docs)]
pub enum Error {
    // ---- From failure return codes ----
    /// A generic error code indicating the failure of an MQTT client operation.
    Failure,
    /// Persistence error
    PersistenceError,
    /// The client is disconnected.
    Disconnected,
    /// The maximum number of messages allowed to be simultaneously
    /// in-flight has been reached.
    MaxMessagesInflight,
    /// An invalid UTF-8 string has been detected.
    BadUtf8String,
    /// A NULL parameter has been supplied when this is invalid.
    NullParameter,
    /// The topic has been truncated (the topic string includes embedded NUL
    /// characters).
    TopicNameTruncated,
    /// A structure parameter does not have the correct eyecatcher and
    /// version number.
    BadStructure,
    /// An invaid QoS value was used (not 0, 1, or 2)
    BadQos,
    /// All 64k MQTT message ID are currently in use
    NoMoreMsgIds,
    /// The request is being discarded when not complete
    OperationIncomplete,
    /// The limit on the maximum number of message buffers has been reached.
    MaxBufferedMessages,
    /// Attempting SSL connection using non-SSL version of library.
    SslNotSupported,
    /// A bad URL protocol/schema was requested
    BadProtocol,
    /// Don't use options for another version of MQTT
    BadMqttOption,
    /// Call not applicable to the client's version of MQTT
    WrongMqttVersion,
    /// The LWT topic can not be zero length
    ZeroLenWillTopic,
    /// Connect or disconnect command ignored because there is already a
    /// connect or disconnect command waiting to be processed.
    CommandIgnored,
    /// The max number of buffered messages can not be zero.
    MaxBufferedZero,
    // ----- From engine description strings -----
    /// The TCP connection timed out
    TcpConnectTimeout,
    /// The TCP connection failed to complete
    TcpConnectCompletionFailure,
    /// TCP/TLS connection failure
    TcpTlsConnectFailure,
    /// A socket error occurred
    SocketError(i32),
    /// An MQTT v3 connect return (failure) code
    ConnectReturn(ConnectReturnCode),
    /// A disconnect was received from the server
    ReceivedDisconnect(i32),
    // ----- Errors from the Rust layer -----
    /// A synchronous error when publishing creating or queuing the message.
    Publish(i32, Message),
    /// An MQTT v5 error from a reason code.
    ReasonCode(ReasonCode),
    /// A bad topic filter
    BadTopicFilter,
    /// A string for the C library holds a NUL byte, at this position
    Nul(usize),
    /// Conversion error between types
    Conversion,
    /// A timeout, particularly from a synchronous operation.
    Timeout,
    /// A general error with description
    General(&'static str),
    /// A general error with description
    GeneralString(String),
}

/// The error for a numeric return code; unknown codes are a general failure.
pub open spec fn error_of_rc(rc: i32) -> Error {
    if rc == MQTTASYNC_PERSISTENCE_ERROR {
        Error::PersistenceError
    } else if rc == MQTTASYNC_DISCONNECTED {
        Error::Disconnected
    } else if rc == MQTTASYNC_MAX_MESSAGES_INFLIGHT {
        Error::MaxMessagesInflight
    } else if rc == MQTTASYNC_BAD_UTF8_STRING {
        Error::BadUtf8String
    } else if rc == MQTTASYNC_NULL_PARAMETER {
        Error::NullParameter
    } else if rc == MQTTASYNC_TOPICNAME_TRUNCATED {
        Error::TopicNameTruncated
    } else if rc == MQTTASYNC_BAD_STRUCTURE {
        Error::BadStructure
    } else if rc == MQTTASYNC_BAD_QOS {
        Error::BadQos
    } else if rc == MQTTASYNC_NO_MORE_MSGIDS {
        Error::NoMoreMsgIds
    } else if rc == MQTTASYNC_OPERATION_INCOMPLETE {
        Error::OperationIncomplete
    } else if rc == MQTTASYNC_MAX_BUFFERED_MESSAGES {
        Error::MaxBufferedMessages
    } else if rc == MQTTASYNC_SSL_NOT_SUPPORTED {
        Error::SslNotSupported
    } else if rc == MQTTASYNC_BAD_PROTOCOL {
        Error::BadProtocol
    } else if rc == MQTTASYNC_BAD_MQTT_OPTION {
        Error::BadMqttOption
    } else if rc == MQTTASYNC_WRONG_MQTT_VERSION {
        Error::WrongMqttVersion
    } else if rc == MQTTASYNC_0_LEN_WILL_TOPIC {
        Error::ZeroLenWillTopic
    } else if rc == MQTTASYNC_COMMAND_IGNORED {
        Error::CommandIgnored
    } else if rc == MQTTASYNC_MAX_BUFFERED {
        Error::MaxBufferedZero
    } else {
        Error::Failure
    }
}

/// The error for a return code together with the engine's description
/// string.
pub open spec fn error_of_rc_msg(rc: i32, msg: Seq<char>) -> Error {
    if rc == MQTTASYNC_FAILURE && msg == "TCP connect timeout"@ {
        Error::TcpConnectTimeout
    } else if rc == MQTTASYNC_FAILURE && msg == "TCP connect completion failure"@ {
        Error::TcpConnectCompletionFailure
    } else if rc == MQTTASYNC_FAILURE && msg == "TCP/TLS connect failure"@ {
        Error::TcpTlsConnectFailure
    } else if rc == MQTTASYNC_DISCONNECTED {
        Error::Disconnected
    } else if msg == "Received disconnect"@ {
        Error::ReceivedDisconnect(rc)
    } else if msg == "CONNACK return code"@ {
        match connect_return_of(rc as u8) {
            Some(c) => Error::ConnectReturn(c),
            None => Error::Failure,
        }
    } else if msg == "socket error"@ {
        Error::SocketError(rc)
    } else {
        Error::Failure
    }
}

/// The message text for a numeric return code.
pub open spec fn error_message_text(rc: i32) -> Seq<char> {
    if rc == MQTTASYNC_FAILURE {
        "General failure"@
    } else if rc == MQTTASYNC_PERSISTENCE_ERROR {
        "Persistence error"@
    } else if rc == MQTTASYNC_DISCONNECTED {
        "Client disconnected"@
    } else if rc == MQTTASYNC_MAX_MESSAGES_INFLIGHT {
        "Maximum inflight messages"@
    } else if rc == MQTTASYNC_BAD_UTF8_STRING {
        "Bad UTF8 string"@
    } else if rc == MQTTASYNC_NULL_PARAMETER {
        "NULL Parameter"@
    } else if rc == MQTTASYNC_TOPICNAME_TRUNCATED {
        "Topic name truncated"@
    } else if rc == MQTTASYNC_BAD_STRUCTURE {
        "Bad structure"@
    } else if rc == MQTTASYNC_BAD_QOS {
        "Bad QoS"@
    } else if rc == MQTTASYNC_NO_MORE_MSGIDS {
        "No more message ID's"@
    } else if rc == MQTTASYNC_OPERATION_INCOMPLETE {
        "Operation incomplete"@
    } else if rc == MQTTASYNC_MAX_BUFFERED_MESSAGES {
        "Max buffered messages"@
    } else if rc == MQTTASYNC_SSL_NOT_SUPPORTED {
        "SSL not supported by Paho C library"@
    } else if rc == MQTTASYNC_BAD_PROTOCOL {
        "Bad protocol"@
    } else if rc == MQTTASYNC_BAD_MQTT_OPTION {
        "Bad MQTT option"@
    } else if rc == MQTTASYNC_WRONG_MQTT_VERSION {
        "Wrong MQTT version"@
    } else if rc == MQTTASYNC_0_LEN_WILL_TOPIC {
        "Zero length Will Topic"@
    } else if rc == MQTTASYNC_COMMAND_IGNORED {
        "Command Ignored"@
    } else if rc == MQTTASYNC_MAX_BUFFERED {
        "Max buffered is zero"@
    } else {
        "Unknown Error"@
    }
}

/// The message for a return code with an optional detail string.
pub open spec fn error_message_opt_text(rc: i32, msg: Option<Seq<char>>) -> Seq<char> {
    match msg {
        Some(m) => error_message_text(rc) + " ("@ + m + ")"@,
        None => error_message_text(rc),
    }
}

impl Error {
    /// Creates an error from a numeric return code.
    pub fn from_rc(rc: i32) -> (e: Error)
        ensures
            e == error_of_rc(rc),
    {
        if rc == MQTTASYNC_PERSISTENCE_ERROR {
            Error::PersistenceError
        } else if rc == MQTTASYNC_DISCONNECTED {
            Error::Disconnected
        } else if rc == MQTTASYNC_MAX_MESSAGES_INFLIGHT {
            Error::MaxMessagesInflight
        } else if rc == MQTTASYNC_BAD_UTF8_STRING {
            Error::BadUtf8String
        } else if rc == MQTTASYNC_NULL_PARAMETER {
            Error::NullParameter
        } else if rc == MQTTASYNC_TOPICNAME_TRUNCATED {
            Error::TopicNameTruncated
        } else if rc == MQTTASYNC_BAD_STRUCTURE {
            Error::BadStructure
        } else if rc == MQTTASYNC_BAD_QOS {
            Error::BadQos
        } else if rc == MQTTASYNC_NO_MORE_MSGIDS {
            Error::NoMoreMsgIds
        } else if rc == MQTTASYNC_OPERATION_INCOMPLETE {
            Error::OperationIncomplete
        } else if rc == MQTTASYNC_MAX_BUFFERED_MESSAGES {
            Error::MaxBufferedMessages
        } else if rc == MQTTASYNC_SSL_NOT_SUPPORTED {
            Error::SslNotSupported
        } else if rc == MQTTASYNC_BAD_PROTOCOL {
            Error::BadProtocol
        } else if rc == MQTTASYNC_BAD_MQTT_OPTION {
            Error::BadMqttOption
        } else if rc == MQTTASYNC_WRONG_MQTT_VERSION {
            Error::WrongMqttVersion
        } else if rc == MQTTASYNC_0_LEN_WILL_TOPIC {
            Error::ZeroLenWillTopic
        } else if rc == MQTTASYNC_COMMAND_IGNORED {
            Error::CommandIgnored
        } else if rc == MQTTASYNC_MAX_BUFFERED {
            Error::MaxBufferedZero
        } else {
            Error::Failure
        }
    }

    /// Creates an error from a return code and the description string that
    /// the client engine passed along with it.
    pub fn from_rc_msg(rc: i32, msg: &str) -> (e: Error)
        ensures
            e == error_of_rc_msg(rc, msg@),
    {
        if rc == MQTTASYNC_FAILURE && str_equals(msg, "TCP connect timeout") {
            Error::TcpConnectTimeout
        } else if rc == MQTTASYNC_FAILURE && str_equals(msg, "TCP connect completion failure") {
            Error::TcpConnectCompletionFailure
        } else if rc == MQTTASYNC_FAILURE && str_equals(msg, "TCP/TLS connect failure") {
            Error::TcpTlsConnectFailure
        } else if rc == MQTTASYNC_DISCONNECTED {
            Error::Disconnected
        } else if str_equals(msg, "Received disconnect") {
            Error::ReceivedDisconnect(rc)
        } else if str_equals(msg, "CONNACK return code") {
            match ConnectReturnCode::try_from_u8(rc as u8) {
                Ok(ret) => Error::ConnectReturn(ret),
                Err(err) => err,
            }
        } else if str_equals(msg, "socket error") {
            Error::SocketError(rc)
        } else {
            Error::Failure
        }
    }

    /// Creates an error from a return code and an optional description.
    pub fn from_rc_opt(rc: i32, msg: Option<String>) -> (e: Error)
        ensures
            match msg {
                Some(m) => e == error_of_rc_msg(rc, m@),
                None => e == error_of_rc(rc),
            },
    {
        match msg {
            Some(m) => Self::from_rc_msg(rc, m.as_str()),
            None => Self::from_rc(rc),
        }
    }
}

impl From<i32> for Error {
    fn from(rc: i32) -> (e: Error) {
        Error::from_rc(rc)
    }
}

impl vstd::std_specs::convert::FromSpecImpl<i32> for Error {
    open spec fn obeys_from_spec() -> bool {
        true
    }

    open spec fn from_spec(v: i32) -> Error {
        error_of_rc(v)
    }
}

impl<'a> From<(i32, &'a str)> for Error {
    /// Creates an error from a return code and the engine's description.
    fn from(rc_msg: (i32, &'a str)) -> (e: Error) {
        Error::from_rc_msg(rc_msg.0, rc_msg.1)
    }
}

impl<'a> vstd::std_specs::convert::FromSpecImpl<(i32, &'a str)> for Error {
    open spec fn obeys_from_spec() -> bool {
        true
    }

    open spec fn from_spec(v: (i32, &'a str)) -> Error {
        error_of_rc_msg(v.0, v.1@)
    }
}

impl From<(i32, Option<String>)> for Error {
    /// Creates an error from a return code and an optional description.
    fn from(rc_msg: (i32, Option<String>)) -> (e: Error) {
        Error::from_rc_opt(rc_msg.0, rc_msg.1)
    }
}

impl vstd::std_specs::convert::FromSpecImpl<(i32, Option<String>)> for Error {
    open spec fn obeys_from_spec() -> bool {
        true
    }

    open spec fn from_spec(v: (i32, Option<String>)) -> Error {
        match v.1 {
            Some(m) => error_of_rc_msg(v.0, m@),
            None => error_of_rc(v.0),
        }
    }
}

impl From<&'static str> for Error {
    /// Create a general error from a string.
    fn from(descr: &'static str) -> (e: Error) {
        Error::General(descr)
    }
}

impl vstd::std_specs::convert::FromSpecImpl<&'static str> for Error {
    open spec fn obeys_from_spec() -> bool {
        true
    }

    open spec fn from_spec(v: &'static str) -> Error {
        Error::General(v)
    }
}

impl From<String> for Error {
    /// Create a general error from a string.
    fn from(descr: String) -> (e: Error) {
        Error::GeneralString(descr)
    }
}

impl vstd::std_specs::convert::FromSpecImpl<String> for Error {
    open spec fn obeys_from_spec() -> bool {
        true
    }

    open spec fn from_spec(v: String) -> Error {
        Error::GeneralString(v)
    }
}

/// Gets the message text associated with a numeric return code.
pub fn error_message(rc: i32) -> (r: &'static str)
    ensures
        r@ == error_message_text(rc),
{
    if rc == MQTTASYNC_FAILURE {
        "General failure"
    } else if rc == MQTTASYNC_PERSISTENCE_ERROR {
        "Persistence error"
    } else if rc == MQTTASYNC_DISCONNECTED {
        "Client disconnected"
    } else if rc == MQTTASYNC_MAX_MESSAGES_INFLIGHT {
        "Maximum inflight messages"
    } else if rc == MQTTASYNC_BAD_UTF8_STRING {
        "Bad UTF8 string"
    } else if rc == MQTTASYNC_NULL_PARAMETER {
        "NULL Parameter"
    } else if rc == MQTTASYNC_TOPICNAME_TRUNCATED {
        "Topic name truncated"
    } else if rc == MQTTASYNC_BAD_STRUCTURE {
        "Bad structure"
    } else if rc == MQTTASYNC_BAD_QOS {
        "Bad QoS"
    } else if rc == MQTTASYNC_NO_MORE_MSGIDS {
        "No more message ID's"
    } else if rc == MQTTASYNC_OPERATION_INCOMPLETE {
        "Operation incomplete"
    } else if rc == MQTTASYNC_MAX_BUFFERED_MESSAGES {
        "Max buffered messages"
    } else if rc == MQTTASYNC_SSL_NOT_SUPPORTED {
        "SSL not supported by Paho C library"
    } else if rc == MQTTASYNC_BAD_PROTOCOL {
        "Bad protocol"
    } else if rc == MQTTASYNC_BAD_MQTT_OPTION {
        "Bad MQTT option"
    } else if rc == MQTTASYNC_WRONG_MQTT_VERSION {
        "Wrong MQTT version"
    } else if rc == MQTTASYNC_0_LEN_WILL_TOPIC {
        "Zero length Will Topic"
    } else if rc == MQTTASYNC_COMMAND_IGNORED {
        "Command Ignored"
    } else if rc == MQTTASYNC_MAX_BUFFERED {
        "Max buffered is zero"
    } else {
        "Unknown Error"
    }
}

/// Gets an error message from an error code with an optional detail
/// string, which is appended in parentheses.
pub fn error_message_opt(rc: i32, msg: Option<String>) -> (r: String)
    ensures
        r@ == error_message_opt_text(
            rc,
            match msg {
                Some(m) => Some(m@),
                None => None,
            },
        ),
{
    match msg {
        Some(m) => {
            let mut s = String::from_str(error_message(rc));
            s.append(" (");
            s.append(m.as_str());
            s.append(")");
            s
        },
        None => String::from_str(error_message(rc)),
    }
}


/// The client engine's failure return codes map to their errors as the C
/// library numbers them, from -2 (persistence error) to -19 (no buffered
/// messages allowed); every other code, -1 (general failure) among them,
/// is a general failure.
pub proof fn lemma_return_codes_follow_c_library(rc: i32)
    ensures
        error_of_rc(-2i32) == Error::PersistenceError,
        error_of_rc(-3i32) == Error::Disconnected,
        error_of_rc(-4i32) == Error::MaxMessagesInflight,
        error_of_rc(-5i32) == Error::BadUtf8String,
        error_of_rc(-6i32) == Error::NullParameter,
        error_of_rc(-7i32) == Error::TopicNameTruncated,
        error_of_rc(-8i32) == Error::BadStructure,
        error_of_rc(-9i32) == Error::BadQos,
        error_of_rc(-10i32) == Error::NoMoreMsgIds,
        error_of_rc(-11i32) == Error::OperationIncomplete,
        error_of_rc(-12i32) == Error::MaxBufferedMessages,
        error_of_rc(-13i32) == Error::SslNotSupported,
        error_of_rc(-14i32) == Error::BadProtocol,
        error_of_rc(-15i32) == Error::BadMqttOption,
        error_of_rc(-16i32) == Error::WrongMqttVersion,
        error_of_rc(-17i32) == Error::ZeroLenWillTopic,
        error_of_rc(-18i32) == Error::CommandIgnored,
        error_of_rc(-19i32) == Error::MaxBufferedZero,
        (rc > -2 || rc < -19) ==> error_of_rc(rc) == Error::Failure,
{
}

/// The MQTT v3 CONNACK return codes 0 to 5 name the connect return codes
/// in the order of the specification; no other number names one.
pub proof fn lemma_connect_return_codes_follow_mqtt(rc: u8)
    ensures
        connect_return_of(0) == Some(ConnectReturnCode::Accepted),
        connect_return_of(1) == Some(ConnectReturnCode::UnacceptableProtocolVersion),
        connect_return_of(2) == Some(ConnectReturnCode::IdentifierRejected),
        connect_return_of(3) == Some(ConnectReturnCode::ServerUnavailable),
        connect_return_of(4) == Some(ConnectReturnCode::BadUserNameOrPassword),
        connect_return_of(5) == Some(ConnectReturnCode::NotAuthorized),
        rc > 5 ==> connect_return_of(rc) is None,
{
}

} // verus!
