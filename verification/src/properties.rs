//! MQTT v5 properties.
//!
//! A property is a code together with a value whose data type the code
//! fixes. A `Properties` collection keeps properties in the order they were
//! added and can report the size of its wire encoding.

use vstd::prelude::*;

use crate::errors::Error;
use crate::strings::no_nul;
use vstd::string::*;
use vstd::utf8::encode_utf8;

verus! {

/// Error code for a property whose value does not suit its code.
pub const INVALID_PROPERTY_ID: i32 = -2;

/// The numeric identifiers of the property data types.
pub const MQTTPROPERTY_TYPE_BYTE: u32 = 0;
pub const MQTTPROPERTY_TYPE_TWO_BYTE_INTEGER: u32 = 1;
pub const MQTTPROPERTY_TYPE_FOUR_BYTE_INTEGER: u32 = 2;
pub const MQTTPROPERTY_TYPE_VARIABLE_BYTE_INTEGER: u32 = 3;
pub const MQTTPROPERTY_TYPE_BINARY_DATA: u32 = 4;
pub const MQTTPROPERTY_TYPE_UTF_8_ENCODED_STRING: u32 = 5;
pub const MQTTPROPERTY_TYPE_UTF_8_STRING_PAIR: u32 = 6;

/// The numeric identifiers of the property codes.
pub const MQTTPROPERTY_CODE_PAYLOAD_FORMAT_INDICATOR: u32 = 1;
pub const MQTTPROPERTY_CODE_MESSAGE_EXPIRY_INTERVAL: u32 = 2;
pub const MQTTPROPERTY_CODE_CONTENT_TYPE: u32 = 3;
pub const MQTTPROPERTY_CODE_RESPONSE_TOPIC: u32 = 8;
pub const MQTTPROPERTY_CODE_CORRELATION_DATA: u32 = 9;
pub const MQTTPROPERTY_CODE_SUBSCRIPTION_IDENTIFIER: u32 = 11;
pub const MQTTPROPERTY_CODE_SESSION_EXPIRY_INTERVAL: u32 = 17;
pub const MQTTPROPERTY_CODE_ASSIGNED_CLIENT_IDENTIFER: u32 = 18;
pub const MQTTPROPERTY_CODE_SERVER_KEEP_ALIVE: u32 = 19;
pub const MQTTPROPERTY_CODE_AUTHENTICATION_METHOD: u32 = 21;
pub const MQTTPROPERTY_CODE_AUTHENTICATION_DATA: u32 = 22;
pub const MQTTPROPERTY_CODE_REQUEST_PROBLEM_INFORMATION: u32 = 23;
pub const MQTTPROPERTY_CODE_WILL_DELAY_INTERVAL: u32 = 24;
pub const MQTTPROPERTY_CODE_REQUEST_RESPONSE_INFORMATION: u32 = 25;
pub const MQTTPROPERTY_CODE_RESPONSE_INFORMATION: u32 = 26;
pub const MQTTPROPERTY_CODE_SERVER_REFERENCE: u32 = 28;
pub const MQTTPROPERTY_CODE_REASON_STRING: u32 = 31;
pub const MQTTPROPERTY_CODE_RECEIVE_MAXIMUM: u32 = 33;
pub const MQTTPROPERTY_CODE_TOPIC_ALIAS_MAXIMUM: u32 = 34;
pub const MQTTPROPERTY_CODE_TOPIC_ALIAS: u32 = 35;
pub const MQTTPROPERTY_CODE_MAXIMUM_QOS: u32 = 36;
pub const MQTTPROPERTY_CODE_RETAIN_AVAILABLE: u32 = 37;
pub const MQTTPROPERTY_CODE_USER_PROPERTY: u32 = 38;
pub const MQTTPROPERTY_CODE_MAXIMUM_PACKET_SIZE: u32 = 39;
pub const MQTTPROPERTY_CODE_WILDCARD_SUBSCRIPTION_AVAILABLE: u32 = 40;
pub const MQTTPROPERTY_CODE_SUBSCRIPTION_IDENTIFIERS_AVAILABLE: u32 = 41;
pub const MQTTPROPERTY_CODE_SHARED_SUBSCRIPTION_AVAILABLE: u32 = 42;

/// The underlying data type for a specific property
#[derive(Clone, Copy, PartialEq, Eq, Structural, Debug)]
pub enum PropertyType {
    /// A property containing a single byte
    Byte,
    /// A property containing a 16-bit integer, `i16` or `u16`.
    TwoByteInteger,
    /// A property containing a 32-bit integer, `i32` or `u32`.
    FourByteInteger,
    /// A property containing a variable-byte value.
    VariableByteInteger,
    /// A property containing a binary blob, like `Vec<u8>`
    BinaryData,
    /// A property containing a `String`
    Utf8EncodedString,
    /// A property containing a pair of strings `(String,String)`
    Utf8StringPair,
}

/// The number that identifies a property type.
pub open spec fn property_type_number(typ: PropertyType) -> u32 {
    match typ {
        PropertyType::Byte => MQTTPROPERTY_TYPE_BYTE,
        PropertyType::TwoByteInteger => MQTTPROPERTY_TYPE_TWO_BYTE_INTEGER,
        PropertyType::FourByteInteger => MQTTPROPERTY_TYPE_FOUR_BYTE_INTEGER,
        PropertyType::VariableByteInteger => MQTTPROPERTY_TYPE_VARIABLE_BYTE_INTEGER,
        PropertyType::BinaryData => MQTTPROPERTY_TYPE_BINARY_DATA,
        PropertyType::Utf8EncodedString => MQTTPROPERTY_TYPE_UTF_8_ENCODED_STRING,
        PropertyType::Utf8StringPair => MQTTPROPERTY_TYPE_UTF_8_STRING_PAIR,
    }
}

/// The property type identified by a number, if any.
pub open spec fn property_type_of(typ: u32) -> Option<PropertyType> {
    if typ == MQTTPROPERTY_TYPE_BYTE {
        Some(PropertyType::Byte)
    } else if typ == MQTTPROPERTY_TYPE_TWO_BYTE_INTEGER {
        Some(PropertyType::TwoByteInteger)
    } else if typ == MQTTPROPERTY_TYPE_FOUR_BYTE_INTEGER {
        Some(PropertyType::FourByteInteger)
    } else if typ == MQTTPROPERTY_TYPE_VARIABLE_BYTE_INTEGER {
        Some(PropertyType::VariableByteInteger)
    } else if typ == MQTTPROPERTY_TYPE_BINARY_DATA {
        Some(PropertyType::BinaryData)
    } else if typ == MQTTPROPERTY_TYPE_UTF_8_ENCODED_STRING {
        Some(PropertyType::Utf8EncodedString)
    } else if typ == MQTTPROPERTY_TYPE_UTF_8_STRING_PAIR {
        Some(PropertyType::Utf8StringPair)
    } else {
        None
    }
}

/// The enumerated codes for the MQTT v5 properties.
///
/// The property code defines both the meaning of the value in the property
/// (Correlation Data, Server Keep Alive) and the data type held by the
/// property.
#[derive(Clone, Copy, PartialEq, Eq, Structural, Debug)]
#[allow(missing_docs)]
pub enum PropertyCode {
    PayloadFormatIndicator,
    MessageExpiryInterval,
    ContentType,
    ResponseTopic,
    CorrelationData,
    SubscriptionIdentifier,
    SessionExpiryInterval,
    AssignedClientIdentifer,
    ServerKeepAlive,
    AuthenticationMethod,
    AuthenticationData,
    RequestProblemInformation,
    WillDelayInterval,
    RequestResponseInformation,
    ResponseInformation,
    ServerReference,
    ReasonString,
    ReceiveMaximum,
    TopicAliasMaximum,
    TopicAlias,
    MaximumQos,
    RetainAvailable,
    UserProperty,
    MaximumPacketSize,
    WildcardSubscriptionAvailable,
    SubscriptionIdentifiersAvailable,
    SharedSubscriptionAvailable,
}

/// The number that identifies a property code.
pub open spec fn property_code_number(code: PropertyCode) -> u32 {
    match code {
        PropertyCode::PayloadFormatIndicator => MQTTPROPERTY_CODE_PAYLOAD_FORMAT_INDICATOR,
        PropertyCode::MessageExpiryInterval => MQTTPROPERTY_CODE_MESSAGE_EXPIRY_INTERVAL,
        PropertyCode::ContentType => MQTTPROPERTY_CODE_CONTENT_TYPE,
        PropertyCode::ResponseTopic => MQTTPROPERTY_CODE_RESPONSE_TOPIC,
        PropertyCode::CorrelationData => MQTTPROPERTY_CODE_CORRELATION_DATA,
        PropertyCode::SubscriptionIdentifier => MQTTPROPERTY_CODE_SUBSCRIPTION_IDENTIFIER,
        PropertyCode::SessionExpiryInterval => MQTTPROPERTY_CODE_SESSION_EXPIRY_INTERVAL,
        PropertyCode::AssignedClientIdentifer => MQTTPROPERTY_CODE_ASSIGNED_CLIENT_IDENTIFER,
        PropertyCode::ServerKeepAlive => MQTTPROPERTY_CODE_SERVER_KEEP_ALIVE,
        PropertyCode::AuthenticationMethod => MQTTPROPERTY_CODE_AUTHENTICATION_METHOD,
        PropertyCode::AuthenticationData => MQTTPROPERTY_CODE_AUTHENTICATION_DATA,
        PropertyCode::RequestProblemInformation => MQTTPROPERTY_CODE_REQUEST_PROBLEM_INFORMATION,
        PropertyCode::WillDelayInterval => MQTTPROPERTY_CODE_WILL_DELAY_INTERVAL,
        PropertyCode::RequestResponseInformation => MQTTPROPERTY_CODE_REQUEST_RESPONSE_INFORMATION,
        PropertyCode::ResponseInformation => MQTTPROPERTY_CODE_RESPONSE_INFORMATION,
        PropertyCode::ServerReference => MQTTPROPERTY_CODE_SERVER_REFERENCE,
        PropertyCode::ReasonString => MQTTPROPERTY_CODE_REASON_STRING,
        PropertyCode::ReceiveMaximum => MQTTPROPERTY_CODE_RECEIVE_MAXIMUM,
        PropertyCode::TopicAliasMaximum => MQTTPROPERTY_CODE_TOPIC_ALIAS_MAXIMUM,
        PropertyCode::TopicAlias => MQTTPROPERTY_CODE_TOPIC_ALIAS,
        PropertyCode::MaximumQos => MQTTPROPERTY_CODE_MAXIMUM_QOS,
        PropertyCode::RetainAvailable => MQTTPROPERTY_CODE_RETAIN_AVAILABLE,
        PropertyCode::UserProperty => MQTTPROPERTY_CODE_USER_PROPERTY,
        PropertyCode::MaximumPacketSize => MQTTPROPERTY_CODE_MAXIMUM_PACKET_SIZE,
        PropertyCode::WildcardSubscriptionAvailable => MQTTPROPERTY_CODE_WILDCARD_SUBSCRIPTION_AVAILABLE,
        PropertyCode::SubscriptionIdentifiersAvailable => MQTTPROPERTY_CODE_SUBSCRIPTION_IDENTIFIERS_AVAILABLE,
        PropertyCode::SharedSubscriptionAvailable => MQTTPROPERTY_CODE_SHARED_SUBSCRIPTION_AVAILABLE,
    }
}

/// The property code identified by a number, if any.
pub open spec fn property_code_of(code: u32) -> Option<PropertyCode> {
    if code == MQTTPROPERTY_CODE_PAYLOAD_FORMAT_INDICATOR {
        Some(PropertyCode::PayloadFormatIndicator)
    } else if code == MQTTPROPERTY_CODE_MESSAGE_EXPIRY_INTERVAL {
        Some(PropertyCode::MessageExpiryInterval)
    } else if code == MQTTPROPERTY_CODE_CONTENT_TYPE {
        Some(PropertyCode::ContentType)
    } else if code == MQTTPROPERTY_CODE_RESPONSE_TOPIC {
        Some(PropertyCode::ResponseTopic)
    } else if code == MQTTPROPERTY_CODE_CORRELATION_DATA {
        Some(PropertyCode::CorrelationData)
    } else if code == MQTTPROPERTY_CODE_SUBSCRIPTION_IDENTIFIER {
        Some(PropertyCode::SubscriptionIdentifier)
    } else if code == MQTTPROPERTY_CODE_SESSION_EXPIRY_INTERVAL {
        Some(PropertyCode::SessionExpiryInterval)
    } else if code == MQTTPROPERTY_CODE_ASSIGNED_CLIENT_IDENTIFER {
        Some(PropertyCode::AssignedClientIdentifer)
    } else if code == MQTTPROPERTY_CODE_SERVER_KEEP_ALIVE {
        Some(PropertyCode::ServerKeepAlive)
    } else if code == MQTTPROPERTY_CODE_AUTHENTICATION_METHOD {
        Some(PropertyCode::AuthenticationMethod)
    } else if code == MQTTPROPERTY_CODE_AUTHENTICATION_DATA {
        Some(PropertyCode::AuthenticationData)
    } else if code == MQTTPROPERTY_CODE_REQUEST_PROBLEM_INFORMATION {
        Some(PropertyCode::RequestProblemInformation)
    } else if code == MQTTPROPERTY_CODE_WILL_DELAY_INTERVAL {
        Some(PropertyCode::WillDelayInterval)
    } else if code == MQTTPROPERTY_CODE_REQUEST_RESPONSE_INFORMATION {
        Some(PropertyCode::RequestResponseInformation)
    } else if code == MQTTPROPERTY_CODE_RESPONSE_INFORMATION {
        Some(PropertyCode::ResponseInformation)
    } else if code == MQTTPROPERTY_CODE_SERVER_REFERENCE {
        Some(PropertyCode::ServerReference)
    } else if code == MQTTPROPERTY_CODE_REASON_STRING {
        Some(PropertyCode::ReasonString)
    } else if code == MQTTPROPERTY_CODE_RECEIVE_MAXIMUM {
        Some(PropertyCode::ReceiveMaximum)
    } else if code == MQTTPROPERTY_CODE_TOPIC_ALIAS_MAXIMUM {
        Some(PropertyCode::TopicAliasMaximum)
    } else if code == MQTTPROPERTY_CODE_TOPIC_ALIAS {
        Some(PropertyCode::TopicAlias)
    } else if code == MQTTPROPERTY_CODE_MAXIMUM_QOS {
        Some(PropertyCode::MaximumQos)
    } else if code == MQTTPROPERTY_CODE_RETAIN_AVAILABLE {
        Some(PropertyCode::RetainAvailable)
    } else if code == MQTTPROPERTY_CODE_USER_PROPERTY {
        Some(PropertyCode::UserProperty)
    } else if code == MQTTPROPERTY_CODE_MAXIMUM_PACKET_SIZE {
        Some(PropertyCode::MaximumPacketSize)
    } else if code == MQTTPROPERTY_CODE_WILDCARD_SUBSCRIPTION_AVAILABLE {
        Some(PropertyCode::WildcardSubscriptionAvailable)
    } else if code == MQTTPROPERTY_CODE_SUBSCRIPTION_IDENTIFIERS_AVAILABLE {
        Some(PropertyCode::SubscriptionIdentifiersAvailable)
    } else if code == MQTTPROPERTY_CODE_SHARED_SUBSCRIPTION_AVAILABLE {
        Some(PropertyCode::SharedSubscriptionAvailable)
    } else {
        None
    }
}

/// The data type that the MQTT v5 specification gives each property code.
pub open spec fn code_type(code: PropertyCode) -> PropertyType {
    match code {
        PropertyCode::PayloadFormatIndicator => PropertyType::Byte,
        PropertyCode::MessageExpiryInterval => PropertyType::FourByteInteger,
        PropertyCode::ContentType => PropertyType::Utf8EncodedString,
        PropertyCode::ResponseTopic => PropertyType::Utf8EncodedString,
        PropertyCode::CorrelationData => PropertyType::BinaryData,
        PropertyCode::SubscriptionIdentifier => PropertyType::VariableByteInteger,
        PropertyCode::SessionExpiryInterval => PropertyType::FourByteInteger,
        PropertyCode::AssignedClientIdentifer => PropertyType::Utf8EncodedString,
        PropertyCode::ServerKeepAlive => PropertyType::TwoByteInteger,
        PropertyCode::AuthenticationMethod => PropertyType::Utf8EncodedString,
        PropertyCode::AuthenticationData => PropertyType::BinaryData,
        PropertyCode::RequestProblemInformation => PropertyType::Byte,
        PropertyCode::WillDelayInterval => PropertyType::FourByteInteger,
        PropertyCode::RequestResponseInformation => PropertyType::Byte,
        PropertyCode::ResponseInformation => PropertyType::Utf8EncodedString,
        PropertyCode::ServerReference => PropertyType::Utf8EncodedString,
        PropertyCode::ReasonString => PropertyType::Utf8EncodedString,
        PropertyCode::ReceiveMaximum => PropertyType::TwoByteInteger,
        PropertyCode::TopicAliasMaximum => PropertyType::TwoByteInteger,
        PropertyCode::TopicAlias => PropertyType::TwoByteInteger,
        PropertyCode::MaximumQos => PropertyType::Byte,
        PropertyCode::RetainAvailable => PropertyType::Byte,
        PropertyCode::UserProperty => PropertyType::Utf8StringPair,
        PropertyCode::MaximumPacketSize => PropertyType::FourByteInteger,
        PropertyCode::WildcardSubscriptionAvailable => PropertyType::Byte,
        PropertyCode::SubscriptionIdentifiersAvailable => PropertyType::Byte,
        PropertyCode::SharedSubscriptionAvailable => PropertyType::Byte,
    }
}

/// The Rust value type that carries the data of each property type.
#[derive(Clone, Copy, PartialEq, Eq, Structural, Debug)]
pub enum ValueType {
    /// `u8`
    U8,
    /// `u16`
    U16,
    /// `u32`
    U32,
    /// `i32`
    I32,
    /// `Vec<u8>`
    Binary,
    /// `String`
    Utf8String,
    /// `(String, String)`
    Utf8StringPair,
}

/// The value type for each property type.
pub open spec fn value_type_of(typ: PropertyType) -> ValueType {
    match typ {
        PropertyType::Byte => ValueType::U8,
        PropertyType::TwoByteInteger => ValueType::U16,
        PropertyType::FourByteInteger => ValueType::U32,
        PropertyType::VariableByteInteger => ValueType::I32,
        PropertyType::BinaryData => ValueType::Binary,
        PropertyType::Utf8EncodedString => ValueType::Utf8String,
        PropertyType::Utf8StringPair => ValueType::Utf8StringPair,
    }
}

impl PropertyType {
    /// Gets the numeric identifier of the type.
    pub fn value(&self) -> (r: u32)
        ensures
            r == property_type_number(*self),
    {
        match self {
            PropertyType::Byte => MQTTPROPERTY_TYPE_BYTE,
            PropertyType::TwoByteInteger => MQTTPROPERTY_TYPE_TWO_BYTE_INTEGER,
            PropertyType::FourByteInteger => MQTTPROPERTY_TYPE_FOUR_BYTE_INTEGER,
            PropertyType::VariableByteInteger => MQTTPROPERTY_TYPE_VARIABLE_BYTE_INTEGER,
            PropertyType::BinaryData => MQTTPROPERTY_TYPE_BINARY_DATA,
            PropertyType::Utf8EncodedString => MQTTPROPERTY_TYPE_UTF_8_ENCODED_STRING,
            PropertyType::Utf8StringPair => MQTTPROPERTY_TYPE_UTF_8_STRING_PAIR,
        }
    }

    /// Tries to convert an integer property type into the enumeration.
    pub fn try_from_u32(typ: u32) -> (r: Result<PropertyType, Error>)
        ensures
            match property_type_of(typ) {
                Some(t) => r == Ok::<PropertyType, Error>(t),
                None => r == Err::<PropertyType, Error>(Error::Conversion),
            },
    {
        if typ == MQTTPROPERTY_TYPE_BYTE {
            Ok(PropertyType::Byte)
        } else if typ == MQTTPROPERTY_TYPE_TWO_BYTE_INTEGER {
            Ok(PropertyType::TwoByteInteger)
        } else if typ == MQTTPROPERTY_TYPE_FOUR_BYTE_INTEGER {
            Ok(PropertyType::FourByteInteger)
        } else if typ == MQTTPROPERTY_TYPE_VARIABLE_BYTE_INTEGER {
            Ok(PropertyType::VariableByteInteger)
        } else if typ == MQTTPROPERTY_TYPE_BINARY_DATA {
            Ok(PropertyType::BinaryData)
        } else if typ == MQTTPROPERTY_TYPE_UTF_8_ENCODED_STRING {
            Ok(PropertyType::Utf8EncodedString)
        } else if typ == MQTTPROPERTY_TYPE_UTF_8_STRING_PAIR {
            Ok(PropertyType::Utf8StringPair)
        } else {
            Err(Error::Conversion)
        }
    }

    /// Tries to create a property type from a C integer value
    pub fn new(typ: u32) -> (r: Option<Self>)
        ensures
            r == property_type_of(typ),
    {
        match Self::try_from_u32(typ) {
            Ok(t) => Some(t),
            Err(_) => None,
        }
    }

    /// Gets the value type that corresponds to the property type.
    pub fn type_of(&self) -> (r: ValueType)
        ensures
            r == value_type_of(*self),
    {
        match *self {
            PropertyType::Byte => ValueType::U8,
            PropertyType::TwoByteInteger => ValueType::U16,
            PropertyType::FourByteInteger => ValueType::U32,
            PropertyType::VariableByteInteger => ValueType::I32,
            PropertyType::BinaryData => ValueType::Binary,
            PropertyType::Utf8EncodedString => ValueType::Utf8String,
            PropertyType::Utf8StringPair => ValueType::Utf8StringPair,
        }
    }
}

impl PropertyCode {
    /// Gets the numeric identifier of the code.
    pub fn value(&self) -> (r: u32)
        ensures
            r == property_code_number(*self),
    {
        match self {
            PropertyCode::PayloadFormatIndicator => MQTTPROPERTY_CODE_PAYLOAD_FORMAT_INDICATOR,
            PropertyCode::MessageExpiryInterval => MQTTPROPERTY_CODE_MESSAGE_EXPIRY_INTERVAL,
            PropertyCode::ContentType => MQTTPROPERTY_CODE_CONTENT_TYPE,
            PropertyCode::ResponseTopic => MQTTPROPERTY_CODE_RESPONSE_TOPIC,
            PropertyCode::CorrelationData => MQTTPROPERTY_CODE_CORRELATION_DATA,
            PropertyCode::SubscriptionIdentifier => MQTTPROPERTY_CODE_SUBSCRIPTION_IDENTIFIER,
            PropertyCode::SessionExpiryInterval => MQTTPROPERTY_CODE_SESSION_EXPIRY_INTERVAL,
            PropertyCode::AssignedClientIdentifer => MQTTPROPERTY_CODE_ASSIGNED_CLIENT_IDENTIFER,
            PropertyCode::ServerKeepAlive => MQTTPROPERTY_CODE_SERVER_KEEP_ALIVE,
            PropertyCode::AuthenticationMethod => MQTTPROPERTY_CODE_AUTHENTICATION_METHOD,
            PropertyCode::AuthenticationData => MQTTPROPERTY_CODE_AUTHENTICATION_DATA,
            PropertyCode::RequestProblemInformation => MQTTPROPERTY_CODE_REQUEST_PROBLEM_INFORMATION,
            PropertyCode::WillDelayInterval => MQTTPROPERTY_CODE_WILL_DELAY_INTERVAL,
            PropertyCode::RequestResponseInformation => MQTTPROPERTY_CODE_REQUEST_RESPONSE_INFORMATION,
            PropertyCode::ResponseInformation => MQTTPROPERTY_CODE_RESPONSE_INFORMATION,
            PropertyCode::ServerReference => MQTTPROPERTY_CODE_SERVER_REFERENCE,
            PropertyCode::ReasonString => MQTTPROPERTY_CODE_REASON_STRING,
            PropertyCode::ReceiveMaximum => MQTTPROPERTY_CODE_RECEIVE_MAXIMUM,
            PropertyCode::TopicAliasMaximum => MQTTPROPERTY_CODE_TOPIC_ALIAS_MAXIMUM,
            PropertyCode::TopicAlias => MQTTPROPERTY_CODE_TOPIC_ALIAS,
            PropertyCode::MaximumQos => MQTTPROPERTY_CODE_MAXIMUM_QOS,
            PropertyCode::RetainAvailable => MQTTPROPERTY_CODE_RETAIN_AVAILABLE,
            PropertyCode::UserProperty => MQTTPROPERTY_CODE_USER_PROPERTY,
            PropertyCode::MaximumPacketSize => MQTTPROPERTY_CODE_MAXIMUM_PACKET_SIZE,
            PropertyCode::WildcardSubscriptionAvailable => MQTTPROPERTY_CODE_WILDCARD_SUBSCRIPTION_AVAILABLE,
            PropertyCode::SubscriptionIdentifiersAvailable => MQTTPROPERTY_CODE_SUBSCRIPTION_IDENTIFIERS_AVAILABLE,
            PropertyCode::SharedSubscriptionAvailable => MQTTPROPERTY_CODE_SHARED_SUBSCRIPTION_AVAILABLE,
        }
    }

    /// Tries to convert an integer property code into the enumeration.
    pub fn try_from_u32(code: u32) -> (r: Result<PropertyCode, Error>)
        ensures
            match property_code_of(code) {
                Some(c) => r == Ok::<PropertyCode, Error>(c),
                None => r == Err::<PropertyCode, Error>(Error::Conversion),
            },
    {
        if code == MQTTPROPERTY_CODE_PAYLOAD_FORMAT_INDICATOR {
            Ok(PropertyCode::PayloadFormatIndicator)
        } else if code == MQTTPROPERTY_CODE_MESSAGE_EXPIRY_INTERVAL {
            Ok(PropertyCode::MessageExpiryInterval)
        } else if code == MQTTPROPERTY_CODE_CONTENT_TYPE {
            Ok(PropertyCode::ContentType)
        } else if code == MQTTPROPERTY_CODE_RESPONSE_TOPIC {
            Ok(PropertyCode::ResponseTopic)
        } else if code == MQTTPROPERTY_CODE_CORRELATION_DATA {
            Ok(PropertyCode::CorrelationData)
        } else if code == MQTTPROPERTY_CODE_SUBSCRIPTION_IDENTIFIER {
            Ok(PropertyCode::SubscriptionIdentifier)
        } else if code == MQTTPROPERTY_CODE_SESSION_EXPIRY_INTERVAL {
            Ok(PropertyCode::SessionExpiryInterval)
        } else if code == MQTTPROPERTY_CODE_ASSIGNED_CLIENT_IDENTIFER {
            Ok(PropertyCode::AssignedClientIdentifer)
        } else if code == MQTTPROPERTY_CODE_SERVER_KEEP_ALIVE {
            Ok(PropertyCode::ServerKeepAlive)
        } else if code == MQTTPROPERTY_CODE_AUTHENTICATION_METHOD {
            Ok(PropertyCode::AuthenticationMethod)
        } else if code == MQTTPROPERTY_CODE_AUTHENTICATION_DATA {
            Ok(PropertyCode::AuthenticationData)
        } else if code == MQTTPROPERTY_CODE_REQUEST_PROBLEM_INFORMATION {
            Ok(PropertyCode::RequestProblemInformation)
        } else if code == MQTTPROPERTY_CODE_WILL_DELAY_INTERVAL {
            Ok(PropertyCode::WillDelayInterval)
        } else if code == MQTTPROPERTY_CODE_REQUEST_RESPONSE_INFORMATION {
            Ok(PropertyCode::RequestResponseInformation)
        } else if code == MQTTPROPERTY_CODE_RESPONSE_INFORMATION {
            Ok(PropertyCode::ResponseInformation)
        } else if code == MQTTPROPERTY_CODE_SERVER_REFERENCE {
            Ok(PropertyCode::ServerReference)
        } else if code == MQTTPROPERTY_CODE_REASON_STRING {
            Ok(PropertyCode::ReasonString)
        } else if code == MQTTPROPERTY_CODE_RECEIVE_MAXIMUM {
            Ok(PropertyCode::ReceiveMaximum)
        } else if code == MQTTPROPERTY_CODE_TOPIC_ALIAS_MAXIMUM {
            Ok(PropertyCode::TopicAliasMaximum)
        } else if code == MQTTPROPERTY_CODE_TOPIC_ALIAS {
            Ok(PropertyCode::TopicAlias)
        } else if code == MQTTPROPERTY_CODE_MAXIMUM_QOS {
            Ok(PropertyCode::MaximumQos)
        } else if code == MQTTPROPERTY_CODE_RETAIN_AVAILABLE {
            Ok(PropertyCode::RetainAvailable)
        } else if code == MQTTPROPERTY_CODE_USER_PROPERTY {
            Ok(PropertyCode::UserProperty)
        } else if code == MQTTPROPERTY_CODE_MAXIMUM_PACKET_SIZE {
            Ok(PropertyCode::MaximumPacketSize)
        } else if code == MQTTPROPERTY_CODE_WILDCARD_SUBSCRIPTION_AVAILABLE {
            Ok(PropertyCode::WildcardSubscriptionAvailable)
        } else if code == MQTTPROPERTY_CODE_SUBSCRIPTION_IDENTIFIERS_AVAILABLE {
            Ok(PropertyCode::SubscriptionIdentifiersAvailable)
        } else if code == MQTTPROPERTY_CODE_SHARED_SUBSCRIPTION_AVAILABLE {
            Ok(PropertyCode::SharedSubscriptionAvailable)
        } else {
            Err(Error::Conversion)
        }
    }

    /// Tries to create a `PropertyCode` from the integer value.
    pub fn new(code: u32) -> (r: Option<Self>)
        ensures
            r == property_code_of(code),
    {
        match Self::try_from_u32(code) {
            Ok(c) => Some(c),
            Err(_) => None,
        }
    }

    /// Get the property type from the code identifier.
    pub fn property_type(&self) -> (r: PropertyType)
        ensures
            r == code_type(*self),
    {
        match self {
            PropertyCode::PayloadFormatIndicator => PropertyType::Byte,
            PropertyCode::MessageExpiryInterval => PropertyType::FourByteInteger,
            PropertyCode::ContentType => PropertyType::Utf8EncodedString,
            PropertyCode::ResponseTopic => PropertyType::Utf8EncodedString,
            PropertyCode::CorrelationData => PropertyType::BinaryData,
            PropertyCode::SubscriptionIdentifier => PropertyType::VariableByteInteger,
            PropertyCode::SessionExpiryInterval => PropertyType::FourByteInteger,
            PropertyCode::AssignedClientIdentifer => PropertyType::Utf8EncodedString,
            PropertyCode::ServerKeepAlive => PropertyType::TwoByteInteger,
            PropertyCode::AuthenticationMethod => PropertyType::Utf8EncodedString,
            PropertyCode::AuthenticationData => PropertyType::BinaryData,
            PropertyCode::RequestProblemInformation => PropertyType::Byte,
            PropertyCode::WillDelayInterval => PropertyType::FourByteInteger,
            PropertyCode::RequestResponseInformation => PropertyType::Byte,
            PropertyCode::ResponseInformation => PropertyType::Utf8EncodedString,
            PropertyCode::ServerReference => PropertyType::Utf8EncodedString,
            PropertyCode::ReasonString => PropertyType::Utf8EncodedString,
            PropertyCode::ReceiveMaximum => PropertyType::TwoByteInteger,
            PropertyCode::TopicAliasMaximum => PropertyType::TwoByteInteger,
            PropertyCode::TopicAlias => PropertyType::TwoByteInteger,
            PropertyCode::MaximumQos => PropertyType::Byte,
            PropertyCode::RetainAvailable => PropertyType::Byte,
            PropertyCode::UserProperty => PropertyType::Utf8StringPair,
            PropertyCode::MaximumPacketSize => PropertyType::FourByteInteger,
            PropertyCode::WildcardSubscriptionAvailable => PropertyType::Byte,
            PropertyCode::SubscriptionIdentifiersAvailable => PropertyType::Byte,
            PropertyCode::SharedSubscriptionAvailable => PropertyType::Byte,
        }
    }

    /// Gets the value type that corresponds to the property type.
    pub fn type_of(&self) -> (r: ValueType)
        ensures
            r == value_type_of(code_type(*self)),
    {
        self.property_type().type_of()
    }
}

/// Every property type survives the trip through its number.
pub proof fn lemma_property_type_number_roundtrip(typ: PropertyType)
    ensures
        property_type_of(property_type_number(typ)) == Some(typ),
{
}

/// Every property code survives the trip through its number, and a number
/// names at most one code.
pub proof fn lemma_property_code_number_roundtrip(code: PropertyCode, n: u32)
    ensures
        property_code_of(property_code_number(code)) == Some(code),
        property_code_of(n) == Some(code) ==> n == property_code_number(code),
{
}



/// The value of a property, by the kind of data that it holds.
pub enum PropertyValueView {
    /// A single byte.
    Byte(u8),
    /// A two-byte integer.
    TwoByte(u16),
    /// A four-byte or variable-byte integer.
    FourByte(u32),
    /// Binary data.
    Binary(Seq<u8>),
    /// A UTF-8 string.
    Text(Seq<char>),
    /// A pair of UTF-8 strings.
    TextPair(Seq<char>, Seq<char>),
}

/// A property as a code and a value.
pub struct PropertyView {
    /// The property code.
    pub code: PropertyCode,
    /// The value.
    pub value: PropertyValueView,
}

/// Whether a value has the data type that the code fixes, with strings that
/// can be held as C strings.
pub open spec fn value_suits(code: PropertyCode, v: PropertyValueView) -> bool {
    match code_type(code) {
        PropertyType::Byte => v is Byte,
        PropertyType::TwoByteInteger => v is TwoByte,
        PropertyType::FourByteInteger => v is FourByte,
        PropertyType::VariableByteInteger => v is FourByte,
        PropertyType::BinaryData => v is Binary,
        PropertyType::Utf8EncodedString => v matches PropertyValueView::Text(s) && no_nul(s),
        PropertyType::Utf8StringPair => v matches PropertyValueView::TextPair(k, x) && no_nul(k)
            && no_nul(x),
    }
}

/// The value that an integer gives a property with the code, if it fits.
pub open spec fn int_value(code: PropertyCode, val: i32) -> Option<PropertyValueView> {
    match code_type(code) {
        PropertyType::Byte => if 0 <= val <= 0xFF {
            Some(PropertyValueView::Byte(val as u8))
        } else {
            None
        },
        PropertyType::TwoByteInteger => if 0 <= val <= 0xFFFF {
            Some(PropertyValueView::TwoByte(val as u16))
        } else {
            None
        },
        PropertyType::FourByteInteger => Some(PropertyValueView::FourByte(val as u32)),
        PropertyType::VariableByteInteger => Some(PropertyValueView::FourByte(val as u32)),
        _ => None,
    }
}

/// The value of a byte property with the code, if the code takes a byte.
pub open spec fn byte_value(code: PropertyCode, val: u8) -> Option<PropertyValueView> {
    if code_type(code) == PropertyType::Byte {
        Some(PropertyValueView::Byte(val))
    } else {
        None
    }
}

/// The value of a two-byte property with the code, if the code takes one.
pub open spec fn u16_value(code: PropertyCode, val: u16) -> Option<PropertyValueView> {
    if code_type(code) == PropertyType::TwoByteInteger {
        Some(PropertyValueView::TwoByte(val))
    } else {
        None
    }
}

/// The value of a four-byte property with the code, if the code takes one.
pub open spec fn u32_value(code: PropertyCode, val: u32) -> Option<PropertyValueView> {
    if code_type(code) == PropertyType::FourByteInteger {
        Some(PropertyValueView::FourByte(val))
    } else {
        None
    }
}

/// The value of a binary property with the code, if the code takes binary data.
pub open spec fn binary_value(code: PropertyCode, bin: Seq<u8>) -> Option<PropertyValueView> {
    if code_type(code) == PropertyType::BinaryData {
        Some(PropertyValueView::Binary(bin))
    } else {
        None
    }
}

/// The value of a string property with the code, if the code takes a string.
pub open spec fn string_value(code: PropertyCode, s: Seq<char>) -> Option<PropertyValueView> {
    if code_type(code) == PropertyType::Utf8EncodedString {
        Some(PropertyValueView::Text(s))
    } else {
        None
    }
}

/// The value of a string-pair property with the code, if the code takes a pair.
pub open spec fn string_pair_value(code: PropertyCode, key: Seq<char>, val: Seq<char>) -> Option<
    PropertyValueView,
> {
    if code_type(code) == PropertyType::Utf8StringPair {
        Some(PropertyValueView::TextPair(key, val))
    } else {
        None
    }
}

/// The error for a value that does not suit its property code.
pub open spec fn invalid_property() -> Error {
    crate::errors::error_of_rc(INVALID_PROPERTY_ID)
}

/// Whether a constructor result is the property with the code and the
/// value, or, where there is no value, the invalid-property error.
pub open spec fn made_property(
    r: Result<Property, Error>,
    code: PropertyCode,
    v: Option<PropertyValueView>,
) -> bool {
    match v {
        Some(val) => r matches Ok(p) && p@ == PropertyView { code, value: val },
        None => r matches Err(e) && e == invalid_property(),
    }
}

/// The data held by a property.
#[derive(Debug)]
enum PropertyValue {
    Byte(u8),
    TwoByte(u16),
    FourByte(u32),
    Binary(Vec<u8>),
    Text(String),
    TextPair(String, String),
}

impl View for PropertyValue {
    type V = PropertyValueView;

    closed spec fn view(&self) -> PropertyValueView {
        match self {
            PropertyValue::Byte(b) => PropertyValueView::Byte(*b),
            PropertyValue::TwoByte(n) => PropertyValueView::TwoByte(*n),
            PropertyValue::FourByte(n) => PropertyValueView::FourByte(*n),
            PropertyValue::Binary(v) => PropertyValueView::Binary(v@),
            PropertyValue::Text(s) => PropertyValueView::Text(s@),
            PropertyValue::TextPair(k, v) => PropertyValueView::TextPair(k@, v@),
        }
    }
}

/// A single MQTT v5 property.
///
/// An MQTT v5 property consists of both a property "code" and a value. The
/// code indicates what the property contains (Response Topic, Will Delay
/// Interval, etc), and also the data type for the value. Each code
/// corresponds to a single, specific data type:
///   "Byte"  - `u8`
///   "Two Byte Integer"  - `u16`
///   "Four Byte Integer"  - `u32`
///   "Binary Data"  - `Vec<u8>`
///   "UTF-8 Encoded String"  - `String`
///   "UTF-8 String Pair"  - `(String,String)`
#[derive(Debug)]
pub struct Property {
    code: PropertyCode,
    value: PropertyValue,
}

impl View for Property {
    type V = PropertyView;

    closed spec fn view(&self) -> PropertyView {
        PropertyView { code: self.code, value: self.value@ }
    }
}

impl Property {
    /// The value always has the data type of the code.
    #[verifier::type_invariant]
    spec fn inv(&self) -> bool {
        value_suits(self.code, self.value@)
    }

    /// Creates a new integer property.
    ///
    /// This works for any sized integer type, from byte on up.
    pub fn new_int(code: PropertyCode, val: i32) -> (r: Result<Property, Error>)
        ensures
            made_property(r, code, int_value(code, val)),
    {
        let value = match code.property_type() {
            PropertyType::Byte => {
                if val < 0 || val > 0xFF {
                    return Err(Error::from_rc(INVALID_PROPERTY_ID));
                }
                PropertyValue::Byte(val as u8)
            },
            PropertyType::TwoByteInteger => {
                if val < 0 || val > 0xFFFF {
                    return Err(Error::from_rc(INVALID_PROPERTY_ID));
                }
                PropertyValue::TwoByte(val as u16)
            },
            PropertyType::FourByteInteger | PropertyType::VariableByteInteger => {
                PropertyValue::FourByte(val as u32)
            },
            _ => {
                return Err(Error::from_rc(INVALID_PROPERTY_ID));
            },
        };
        let p = Property { code, value };
        assert(p@ == PropertyView { code, value: int_value(code, val).unwrap() });
        Ok(p)
    }

    /// Creates a single-byte property
    pub fn new_byte(code: PropertyCode, val: u8) -> (r: Result<Property, Error>)
        ensures
            made_property(r, code, byte_value(code, val)),
    {
        match code.property_type() {
            PropertyType::Byte => Self::new_int(code, val as i32),
            _ => Err(Error::from_rc(INVALID_PROPERTY_ID)),
        }
    }

    /// Creates a 2-byte integer property
    pub fn new_u16(code: PropertyCode, val: u16) -> (r: Result<Property, Error>)
        ensures
            made_property(r, code, u16_value(code, val)),
    {
        match code.property_type() {
            PropertyType::TwoByteInteger => Self::new_int(code, val as i32),
            _ => Err(Error::from_rc(INVALID_PROPERTY_ID)),
        }
    }

    /// Creates a 4-byte integer property
    pub fn new_u32(code: PropertyCode, val: u32) -> (r: Result<Property, Error>)
        ensures
            made_property(r, code, u32_value(code, val)),
    {
        match code.property_type() {
            PropertyType::FourByteInteger => Ok(Property { code, value: PropertyValue::FourByte(val) }),
            _ => Err(Error::from_rc(INVALID_PROPERTY_ID)),
        }
    }

    /// Creates a new binary property.
    pub fn new_binary<V: IntoBinary>(code: PropertyCode, bin: V) -> (r: Result<Property, Error>)
        ensures
            made_property(r, code, binary_value(code, bin.binary_view())),
    {
        if code.property_type() != PropertyType::BinaryData {
            return Err(Error::from_rc(INVALID_PROPERTY_ID));
        }
        let v = bin.into_binary();
        Ok(Property { code, value: PropertyValue::Binary(v) })
    }

    /// Creates a new string property.
    pub fn new_string(code: PropertyCode, s: &str) -> (r: Result<Property, Error>)
        requires
            code_type(code) == PropertyType::Utf8EncodedString ==> no_nul(s@),
        ensures
            made_property(r, code, string_value(code, s@)),
    {
        if code.property_type() != PropertyType::Utf8EncodedString {
            return Err(Error::from_rc(INVALID_PROPERTY_ID));
        }
        Ok(Property { code, value: PropertyValue::Text(String::from_str(s)) })
    }

    /// Creates a new string pair property.
    pub fn new_string_pair(code: PropertyCode, key: &str, val: &str) -> (r: Result<Property, Error>)
        requires
            code_type(code) == PropertyType::Utf8StringPair ==> no_nul(key@) && no_nul(val@),
        ensures
            made_property(r, code, string_pair_value(code, key@, val@)),
    {
        if code.property_type() != PropertyType::Utf8StringPair {
            return Err(Error::from_rc(INVALID_PROPERTY_ID));
        }
        Ok(
            Property {
                code,
                value: PropertyValue::TextPair(String::from_str(key), String::from_str(val)),
            },
        )
    }
}

/// Data that a binary property can be made from.
pub trait IntoBinary: Sized {
    /// The bytes that the data stands for.
    spec fn binary_view(&self) -> Seq<u8>;

    /// Converts the data into a byte vector.
    fn into_binary(self) -> (r: Vec<u8>)
        ensures
            r@ == self.binary_view(),
    ;
}

impl IntoBinary for Vec<u8> {
    open spec fn binary_view(&self) -> Seq<u8> {
        self@
    }

    fn into_binary(self) -> (r: Vec<u8>) {
        self
    }
}

impl<'a> IntoBinary for &'a [u8] {
    open spec fn binary_view(&self) -> Seq<u8> {
        self@
    }

    fn into_binary(self) -> (r: Vec<u8>) {
        vstd::slice::slice_to_vec(self)
    }
}

impl<'a, const N: usize> IntoBinary for &'a [u8; N] {
    open spec fn binary_view(&self) -> Seq<u8> {
        self@
    }

    fn into_binary(self) -> (r: Vec<u8>) {
        vstd::slice::slice_to_vec(self.as_slice())
    }
}

impl<'a> IntoBinary for &'a str {
    open spec fn binary_view(&self) -> Seq<u8> {
        encode_utf8(self@)
    }

    fn into_binary(self) -> (r: Vec<u8>) {
        vstd::slice::slice_to_vec(self.as_bytes())
    }
}

impl IntoBinary for String {
    open spec fn binary_view(&self) -> Seq<u8> {
        encode_utf8(self@)
    }

    fn into_binary(self) -> (r: Vec<u8>) {
        vstd::slice::slice_to_vec(self.as_str().as_bytes())
    }
}


/// The byte held by a value, if it holds one.
pub open spec fn byte_of(v: PropertyValueView) -> Option<u8> {
    match v {
        PropertyValueView::Byte(b) => Some(b),
        _ => None,
    }
}

/// The two-byte integer held by a value, if it holds one.
pub open spec fn u16_of(v: PropertyValueView) -> Option<u16> {
    match v {
        PropertyValueView::TwoByte(n) => Some(n),
        _ => None,
    }
}

/// The four-byte integer of a property whose code is of the four-byte type.
pub open spec fn u32_of(p: PropertyView) -> Option<u32> {
    if code_type(p.code) == PropertyType::FourByteInteger {
        match p.value {
            PropertyValueView::FourByte(n) => Some(n),
            _ => None,
        }
    } else {
        None
    }
}

/// Any integer value of a property, as a signed 32-bit number.
pub open spec fn int_of(v: PropertyValueView) -> Option<i32> {
    match v {
        PropertyValueView::Byte(b) => Some(b as i32),
        PropertyValueView::TwoByte(n) => Some(n as i32),
        PropertyValueView::FourByte(n) => Some(n as i32),
        _ => None,
    }
}

/// The binary data held by a value, if it holds some.
pub open spec fn binary_of(v: PropertyValueView) -> Option<Seq<u8>> {
    match v {
        PropertyValueView::Binary(b) => Some(b),
        _ => None,
    }
}

/// The string held by a value, if it holds one.
pub open spec fn text_of(v: PropertyValueView) -> Option<Seq<char>> {
    match v {
        PropertyValueView::Text(s) => Some(s),
        _ => None,
    }
}

/// The string pair held by a value, if it holds one.
pub open spec fn pair_of(v: PropertyValueView) -> Option<(Seq<char>, Seq<char>)> {
    match v {
        PropertyValueView::TextPair(k, x) => Some((k, x)),
        _ => None,
    }
}

/// The characters of an optional string.
pub open spec fn opt_text_view(r: Option<String>) -> Option<Seq<char>> {
    match r {
        Some(s) => Some(s@),
        None => None,
    }
}

/// The bytes of an optional byte vector.
pub open spec fn opt_bytes_view(r: Option<Vec<u8>>) -> Option<Seq<u8>> {
    match r {
        Some(v) => Some(v@),
        None => None,
    }
}

/// The characters of an optional string pair.
pub open spec fn opt_pair_view(r: Option<(String, String)>) -> Option<(Seq<char>, Seq<char>)> {
    match r {
        Some((k, v)) => Some((k@, v@)),
        None => None,
    }
}

impl Property {
    /// Gets the MQTT code for the property.
    pub fn property_code(&self) -> (r: PropertyCode)
        ensures
            r == self@.code,
            value_suits(self@.code, self@.value),
    {
        proof {
            use_type_invariant(self);
        }
        self.code
    }

    /// Gets the type of this property.
    pub fn property_type(&self) -> (r: PropertyType)
        ensures
            r == code_type(self@.code),
    {
        self.code.property_type()
    }

    /// Gets the value type of this property.
    pub fn type_of(&self) -> (r: ValueType)
        ensures
            r == value_type_of(code_type(self@.code)),
    {
        self.property_type().type_of()
    }

    /// Gets the property value as a byte.
    pub fn get_byte(&self) -> (r: Option<u8>)
        ensures
            r == byte_of(self@.value),
    {
        match &self.value {
            PropertyValue::Byte(b) => Some(*b),
            _ => None,
        }
    }

    /// Gets the property value as a u16.
    pub fn get_u16(&self) -> (r: Option<u16>)
        ensures
            r == u16_of(self@.value),
    {
        match &self.value {
            PropertyValue::TwoByte(n) => Some(*n),
            _ => None,
        }
    }

    /// Gets the property value as a u32; only a four-byte integer property
    /// has one.
    pub fn get_u32(&self) -> (r: Option<u32>)
        ensures
            r == u32_of(self@),
    {
        match self.code.property_type() {
            PropertyType::FourByteInteger => match &self.value {
                PropertyValue::FourByte(n) => Some(*n),
                _ => None,
            },
            _ => None,
        }
    }

    /// Gets the property value as an integer.
    /// This extracts an integer value from the property. It works with any
    /// of the int types, one, two, or four bytes.
    /// If the Property contains an integer type it will be returned as
    /// Some(val), otherwise it will return None.
    pub fn get_int(&self) -> (r: Option<i32>)
        ensures
            r == int_of(self@.value),
    {
        match &self.value {
            PropertyValue::Byte(b) => Some(*b as i32),
            PropertyValue::TwoByte(n) => Some(*n as i32),
            PropertyValue::FourByte(n) => Some(*n as i32),
            _ => None,
        }
    }

    /// Gets the property value as a binary blob.
    pub fn get_binary(&self) -> (r: Option<Vec<u8>>)
        ensures
            opt_bytes_view(r) == binary_of(self@.value),
    {
        match &self.value {
            PropertyValue::Binary(v) => Some(vstd::slice::slice_to_vec(v.as_slice())),
            _ => None,
        }
    }

    /// Gets the property value as a string.
    pub fn get_string(&self) -> (r: Option<String>)
        ensures
            opt_text_view(r) == text_of(self@.value),
    {
        match &self.value {
            PropertyValue::Text(s) => Some(s.clone()),
            _ => None,
        }
    }

    /// Gets the property value as a string pair.
    pub fn get_string_pair(&self) -> (r: Option<(String, String)>)
        ensures
            opt_pair_view(r) == pair_of(self@.value),
    {
        match &self.value {
            PropertyValue::TextPair(k, v) => Some((k.clone(), v.clone())),
            _ => None,
        }
    }

    /// Gets the property value as the requested type, if the property holds
    /// a value of that type.
    pub fn get<T: FromProperty>(&self) -> (r: Option<T>)
        ensures
            T::extracted(self@, r),
            (r is Some) == reads(T::value_type(), self@),
    {
        proof {
            use_type_invariant(self);
        }
        let r = T::from_property(self);
        proof {
            T::lemma_reads(self@, r);
        }
        r
    }
}

impl Clone for Property {
    /// Creates a clone of the property, with its own copy of any string or
    /// binary data.
    fn clone(&self) -> (r: Self)
        ensures
            r@ == self@,
    {
        proof {
            use_type_invariant(self);
        }
        let value = match &self.value {
            PropertyValue::Byte(b) => PropertyValue::Byte(*b),
            PropertyValue::TwoByte(n) => PropertyValue::TwoByte(*n),
            PropertyValue::FourByte(n) => PropertyValue::FourByte(*n),
            PropertyValue::Binary(v) => PropertyValue::Binary(
                vstd::slice::slice_to_vec(v.as_slice()),
            ),
            PropertyValue::Text(s) => PropertyValue::Text(s.clone()),
            PropertyValue::TextPair(k, v) => PropertyValue::TextPair(k.clone(), v.clone()),
        };
        Property { code: self.code, value }
    }
}

/// Whether reading as the value type `t` succeeds on a property: `t` is
/// the value type of the property's code, or `i32` for a property of any
/// integer type.
pub open spec fn reads(t: ValueType, p: PropertyView) -> bool {
    ||| t == value_type_of(code_type(p.code))
    ||| (t == ValueType::I32 && (code_type(p.code) == PropertyType::Byte || code_type(p.code)
        == PropertyType::TwoByteInteger || code_type(p.code) == PropertyType::FourByteInteger
        || code_type(p.code) == PropertyType::VariableByteInteger))
}

/// A Rust type that a property value can be read as.
pub trait FromProperty: Sized {
    /// Whether `r` is what reading the property as this type gives.
    spec fn extracted(p: PropertyView, r: Option<Self>) -> bool;

    /// The value type that this Rust type stands for.
    spec fn value_type() -> ValueType;

    /// Reading a property whose value suits its code as this type succeeds
    /// exactly when `reads` says so.
    proof fn lemma_reads(p: PropertyView, r: Option<Self>)
        requires
            value_suits(p.code, p.value),
            Self::extracted(p, r),
        ensures
            (r is Some) == reads(Self::value_type(), p),
    ;

    /// Reads the property as this type.
    fn from_property(p: &Property) -> (r: Option<Self>)
        ensures
            Self::extracted(p@, r),
    ;
}

impl FromProperty for u8 {
    open spec fn value_type() -> ValueType {
        ValueType::U8
    }

    proof fn lemma_reads(p: PropertyView, r: Option<u8>) {
    }

    open spec fn extracted(p: PropertyView, r: Option<u8>) -> bool {
        r == byte_of(p.value)
    }

    fn from_property(p: &Property) -> (r: Option<u8>) {
        p.get_byte()
    }
}

impl FromProperty for u16 {
    open spec fn value_type() -> ValueType {
        ValueType::U16
    }

    proof fn lemma_reads(p: PropertyView, r: Option<u16>) {
    }

    open spec fn extracted(p: PropertyView, r: Option<u16>) -> bool {
        r == u16_of(p.value)
    }

    fn from_property(p: &Property) -> (r: Option<u16>) {
        p.get_u16()
    }
}

impl FromProperty for u32 {
    open spec fn value_type() -> ValueType {
        ValueType::U32
    }

    proof fn lemma_reads(p: PropertyView, r: Option<u32>) {
    }

    open spec fn extracted(p: PropertyView, r: Option<u32>) -> bool {
        r == u32_of(p)
    }

    fn from_property(p: &Property) -> (r: Option<u32>) {
        p.get_u32()
    }
}

impl FromProperty for i32 {
    open spec fn value_type() -> ValueType {
        ValueType::I32
    }

    proof fn lemma_reads(p: PropertyView, r: Option<i32>) {
    }

    open spec fn extracted(p: PropertyView, r: Option<i32>) -> bool {
        r == int_of(p.value)
    }

    fn from_property(p: &Property) -> (r: Option<i32>) {
        p.get_int()
    }
}

impl FromProperty for Vec<u8> {
    open spec fn value_type() -> ValueType {
        ValueType::Binary
    }

    proof fn lemma_reads(p: PropertyView, r: Option<Vec<u8>>) {
    }

    open spec fn extracted(p: PropertyView, r: Option<Vec<u8>>) -> bool {
        opt_bytes_view(r) == binary_of(p.value)
    }

    fn from_property(p: &Property) -> (r: Option<Vec<u8>>) {
        p.get_binary()
    }
}

impl FromProperty for String {
    open spec fn value_type() -> ValueType {
        ValueType::Utf8String
    }

    proof fn lemma_reads(p: PropertyView, r: Option<String>) {
    }

    open spec fn extracted(p: PropertyView, r: Option<String>) -> bool {
        opt_text_view(r) == text_of(p.value)
    }

    fn from_property(p: &Property) -> (r: Option<String>) {
        p.get_string()
    }
}

impl FromProperty for (String, String) {
    open spec fn value_type() -> ValueType {
        ValueType::Utf8StringPair
    }

    proof fn lemma_reads(p: PropertyView, r: Option<(String, String)>) {
    }

    open spec fn extracted(p: PropertyView, r: Option<(String, String)>) -> bool {
        opt_pair_view(r) == pair_of(p.value)
    }

    fn from_property(p: &Property) -> (r: Option<(String, String)>) {
        p.get_string_pair()
    }
}

/// A value handed to the generic property constructor, by its Rust type.
pub enum PropertyArg {
    /// A `u8`.
    Byte(u8),
    /// A `u16`.
    U16(u16),
    /// An `i16`.
    I16(i16),
    /// A `u32`.
    U32(u32),
    /// An `i32`.
    I32(i32),
    /// Bytes: a `Vec<u8>`, a byte slice or a byte array of 1 to 32 bytes.
    Bytes(Vec<u8>),
    /// A `String` or `&str`.
    Text(String),
    /// A pair of strings.
    Pair(String, String),
    /// A value of a type that no property takes.
    Other,
}

/// The value of a constructor argument.
pub enum PropertyArgView {
    /// A `u8`.
    Byte(u8),
    /// A `u16`.
    U16(u16),
    /// An `i16`.
    I16(i16),
    /// A `u32`.
    U32(u32),
    /// An `i32`.
    I32(i32),
    /// Bytes.
    Bytes(Seq<u8>),
    /// A string.
    Text(Seq<char>),
    /// A pair of strings.
    Pair(Seq<char>, Seq<char>),
    /// A value of a type that no property takes.
    Other,
}

impl View for PropertyArg {
    type V = PropertyArgView;

    open spec fn view(&self) -> PropertyArgView {
        match self {
            PropertyArg::Byte(v) => PropertyArgView::Byte(*v),
            PropertyArg::U16(v) => PropertyArgView::U16(*v),
            PropertyArg::I16(v) => PropertyArgView::I16(*v),
            PropertyArg::U32(v) => PropertyArgView::U32(*v),
            PropertyArg::I32(v) => PropertyArgView::I32(*v),
            PropertyArg::Bytes(b) => PropertyArgView::Bytes(b@),
            PropertyArg::Text(s) => PropertyArgView::Text(s@),
            PropertyArg::Pair(k, v) => PropertyArgView::Pair(k@, v@),
            PropertyArg::Other => PropertyArgView::Other,
        }
    }
}

/// The value that the generic constructor gives a property with the code,
/// if the argument suits the code. A string argument for a binary code is
/// taken as its UTF-8 bytes.
pub open spec fn arg_value(code: PropertyCode, arg: PropertyArgView) -> Option<PropertyValueView> {
    match arg {
        PropertyArgView::Byte(v) => byte_value(code, v),
        PropertyArgView::U16(v) => u16_value(code, v),
        PropertyArgView::I16(v) => u16_value(code, v as u16),
        PropertyArgView::U32(v) => u32_value(code, v),
        PropertyArgView::I32(v) => int_value(code, v),
        PropertyArgView::Bytes(b) => binary_value(code, b),
        PropertyArgView::Text(s) => if code_type(code) == PropertyType::BinaryData {
            Some(PropertyValueView::Binary(encode_utf8(s)))
        } else {
            string_value(code, s)
        },
        PropertyArgView::Pair(k, v) => string_pair_value(code, k, v),
        PropertyArgView::Other => None,
    }
}

/// Whether a string argument that becomes a C string holds no NUL.
pub open spec fn arg_storable(code: PropertyCode, arg: PropertyArgView) -> bool {
    match arg {
        PropertyArgView::Text(s) => code_type(code) == PropertyType::Utf8EncodedString ==> no_nul(s),
        PropertyArgView::Pair(k, v) => code_type(code) == PropertyType::Utf8StringPair ==> no_nul(k)
            && no_nul(v),
        _ => true,
    }
}

/// A Rust value that the generic property constructor accepts.
pub trait IntoPropertyArg: Sized {
    /// The argument that the value stands for.
    spec fn arg_view(&self) -> PropertyArgView;

    /// Converts the value into a constructor argument.
    fn into_property_arg(self) -> (r: PropertyArg)
        ensures
            r@ == self.arg_view(),
    ;
}

impl IntoPropertyArg for u8 {
    open spec fn arg_view(&self) -> PropertyArgView {
        PropertyArgView::Byte(*self)
    }

    fn into_property_arg(self) -> (r: PropertyArg) {
        PropertyArg::Byte(self)
    }
}

impl IntoPropertyArg for u16 {
    open spec fn arg_view(&self) -> PropertyArgView {
        PropertyArgView::U16(*self)
    }

    fn into_property_arg(self) -> (r: PropertyArg) {
        PropertyArg::U16(self)
    }
}

impl IntoPropertyArg for i16 {
    open spec fn arg_view(&self) -> PropertyArgView {
        PropertyArgView::I16(*self)
    }

    fn into_property_arg(self) -> (r: PropertyArg) {
        PropertyArg::I16(self)
    }
}

impl IntoPropertyArg for u32 {
    open spec fn arg_view(&self) -> PropertyArgView {
        PropertyArgView::U32(*self)
    }

    fn into_property_arg(self) -> (r: PropertyArg) {
        PropertyArg::U32(self)
    }
}

impl IntoPropertyArg for i32 {
    open spec fn arg_view(&self) -> PropertyArgView {
        PropertyArgView::I32(*self)
    }

    fn into_property_arg(self) -> (r: PropertyArg) {
        PropertyArg::I32(self)
    }
}

impl IntoPropertyArg for Vec<u8> {
    open spec fn arg_view(&self) -> PropertyArgView {
        PropertyArgView::Bytes(self@)
    }

    fn into_property_arg(self) -> (r: PropertyArg) {
        PropertyArg::Bytes(self)
    }
}

impl<'a> IntoPropertyArg for &'a [u8] {
    open spec fn arg_view(&self) -> PropertyArgView {
        PropertyArgView::Bytes(self@)
    }

    fn into_property_arg(self) -> (r: PropertyArg) {
        PropertyArg::Bytes(vstd::slice::slice_to_vec(self))
    }
}

impl<'a, const N: usize> IntoPropertyArg for &'a [u8; N] {
    open spec fn arg_view(&self) -> PropertyArgView {
        if 1 <= N <= 32 {
            PropertyArgView::Bytes(self@)
        } else {
            PropertyArgView::Other
        }
    }

    fn into_property_arg(self) -> (r: PropertyArg) {
        if 1 <= N && N <= 32 {
            PropertyArg::Bytes(vstd::slice::slice_to_vec(self.as_slice()))
        } else {
            PropertyArg::Other
        }
    }
}

impl IntoPropertyArg for String {
    open spec fn arg_view(&self) -> PropertyArgView {
        PropertyArgView::Text(self@)
    }

    fn into_property_arg(self) -> (r: PropertyArg) {
        PropertyArg::Text(self)
    }
}

impl<'a> IntoPropertyArg for &'a str {
    open spec fn arg_view(&self) -> PropertyArgView {
        PropertyArgView::Text(self@)
    }

    fn into_property_arg(self) -> (r: PropertyArg) {
        PropertyArg::Text(String::from_str(self))
    }
}

impl IntoPropertyArg for (String, String) {
    open spec fn arg_view(&self) -> PropertyArgView {
        PropertyArgView::Pair(self.0@, self.1@)
    }

    fn into_property_arg(self) -> (r: PropertyArg) {
        PropertyArg::Pair(self.0, self.1)
    }
}

impl<'a, 'b> IntoPropertyArg for (&'a str, &'b str) {
    open spec fn arg_view(&self) -> PropertyArgView {
        PropertyArgView::Pair(self.0@, self.1@)
    }

    fn into_property_arg(self) -> (r: PropertyArg) {
        PropertyArg::Pair(String::from_str(self.0), String::from_str(self.1))
    }
}

impl<'a> IntoPropertyArg for (&'a str, String) {
    open spec fn arg_view(&self) -> PropertyArgView {
        PropertyArgView::Pair(self.0@, self.1@)
    }

    fn into_property_arg(self) -> (r: PropertyArg) {
        PropertyArg::Pair(String::from_str(self.0), self.1)
    }
}

impl<'a> IntoPropertyArg for (String, &'a str) {
    open spec fn arg_view(&self) -> PropertyArgView {
        PropertyArgView::Pair(self.0@, self.1@)
    }

    fn into_property_arg(self) -> (r: PropertyArg) {
        PropertyArg::Pair(self.0, String::from_str(self.1))
    }
}

impl Property {
    /// Creates a new property for a given code and value.
    ///
    /// The type for the value must suit the type expected for the given
    /// property code, otherwise it will be rejected. A string is accepted
    /// for a binary property, as its bytes.
    pub fn new<T: IntoPropertyArg>(code: PropertyCode, val: T) -> (r: Result<Property, Error>)
        requires
            arg_storable(code, val.arg_view()),
        ensures
            made_property(r, code, arg_value(code, val.arg_view())),
    {
        let arg = val.into_property_arg();
        match arg {
            PropertyArg::Byte(v) => Self::new_byte(code, v),
            PropertyArg::U16(v) => Self::new_u16(code, v),
            PropertyArg::I16(v) => Self::new_u16(code, v as u16),
            PropertyArg::U32(v) => Self::new_u32(code, v),
            PropertyArg::I32(v) => Self::new_int(code, v),
            PropertyArg::Bytes(b) => Self::new_binary(code, b),
            PropertyArg::Text(s) => {
                if code.property_type() == PropertyType::BinaryData {
                    Self::new_binary(code, s)
                } else {
                    Self::new_string(code, s.as_str())
                }
            },
            PropertyArg::Pair(k, v) => Self::new_string_pair(code, k.as_str(), v.as_str()),
            PropertyArg::Other => Err(Error::from_rc(INVALID_PROPERTY_ID)),
        }
    }
}


/// The number of bytes in the variable-byte encoding of a (C `int`) value;
/// a negative value takes one byte.
pub open spec fn vbi_len(n: int) -> int {
    if n < 128 {
        1
    } else if n < 16384 {
        2
    } else if n < 2097152 {
        3
    } else {
        4
    }
}

/// The number of bytes that a property takes on the wire: the identifier
/// byte and the encoded value. A variable-byte integer is sized by its value
/// read as a signed 32-bit number; strings and binary data carry a two-byte
/// length.
pub open spec fn entry_len(p: PropertyView) -> int {
    1 + match p.value {
        PropertyValueView::Byte(_) => 1,
        PropertyValueView::TwoByte(_) => 2,
        PropertyValueView::FourByte(n) => if code_type(p.code) == PropertyType::VariableByteInteger {
            vbi_len((n as i32) as int)
        } else {
            4
        },
        PropertyValueView::Binary(b) => 2 + b.len() as int,
        PropertyValueView::Text(t) => 2 + encode_utf8(t).len() as int,
        PropertyValueView::TextPair(k, v) => 2 + encode_utf8(k).len() as int + 2 + encode_utf8(v).len() as int,
    }
}

/// The number of bytes that a list of properties takes on the wire, without
/// the list's own length field.
pub open spec fn props_len(s: Seq<PropertyView>) -> int
    decreases s.len(),
{
    if s.len() == 0 {
        0
    } else {
        props_len(s.drop_last()) + entry_len(s.last())
    }
}

/// The number of bytes of a serialized property list: its length, as a
/// variable-byte integer, and its properties.
pub open spec fn wire_len(s: Seq<PropertyView>) -> int {
    props_len(s) + vbi_len(props_len(s))
}

/// Whether a property has the code.
pub open spec fn code_is(code: PropertyCode) -> spec_fn(PropertyView) -> bool {
    |p: PropertyView| p.code == code
}

/// The properties with the code, in the order they were added.
pub open spec fn with_code(s: Seq<PropertyView>, code: PropertyCode) -> Seq<PropertyView> {
    s.filter(code_is(code))
}

/// The `n`-th property with the code (counting from zero), if there is one.
pub open spec fn nth_with_code(s: Seq<PropertyView>, code: PropertyCode, n: int) -> Option<
    PropertyView,
> {
    let f = with_code(s, code);
    if 0 <= n < f.len() {
        Some(f[n])
    } else {
        None
    }
}

/// The key/value pairs of the user properties, in order.
pub open spec fn user_pairs(s: Seq<PropertyView>) -> Seq<(Seq<char>, Seq<char>)> {
    with_code(s, PropertyCode::UserProperty).map_values(
        |p: PropertyView| pair_of(p.value).unwrap(),
    )
}

/// The value of the first pair with the key, if any.
pub open spec fn first_value_for(pairs: Seq<(Seq<char>, Seq<char>)>, key: Seq<char>) -> Option<
    Seq<char>,
>
    decreases pairs.len(),
{
    if pairs.len() == 0 {
        None
    } else if pairs[0].0 == key {
        Some(pairs[0].1)
    } else {
        first_value_for(pairs.drop_first(), key)
    }
}

/// The views of a sequence of properties.
pub open spec fn props_view(v: Seq<Property>) -> Seq<PropertyView> {
    v.map_values(|p: Property| p@)
}

/// The view of an optional property.
pub open spec fn opt_prop_view(r: Option<Property>) -> Option<PropertyView> {
    match r {
        Some(p) => Some(p@),
        None => None,
    }
}

/// The characters of a list of string pairs.
pub open spec fn pairs_view(v: Seq<(String, String)>) -> Seq<(Seq<char>, Seq<char>)> {
    v.map_values(|x: (String, String)| (x.0@, x.1@))
}

/// Whether a push of a value made from the code left the collection as it
/// should: with the new property at the end when there is a value, and
/// unchanged with the invalid-property error when there is none.
pub open spec fn pushed(
    old_props: Seq<PropertyView>,
    new_props: Seq<PropertyView>,
    r: Result<(), Error>,
    code: PropertyCode,
    v: Option<PropertyValueView>,
) -> bool {
    match v {
        Some(val) => r is Ok && new_props == old_props.push(PropertyView { code, value: val }),
        None => r matches Err(e) && e == invalid_property() && new_props == old_props,
    }
}

/// Taking one more element adds it to the properties with the code when it
/// has the code.
proof fn lemma_with_code_step(s: Seq<PropertyView>, code: PropertyCode, i: int)
    requires
        0 <= i < s.len(),
    ensures
        with_code(s.take(i + 1), code) == (if s[i].code == code {
            with_code(s.take(i), code).push(s[i])
        } else {
            with_code(s.take(i), code)
        }),
{
    reveal(Seq::filter);
    assert(s.take(i + 1).drop_last() =~= s.take(i));
    assert(s.take(i + 1).last() == s[i]);
    assert(code_is(code)(s[i]) == (s[i].code == code));
}

/// The properties with the code in the whole list begin with those of a
/// prefix.
proof fn lemma_with_code_split(s: Seq<PropertyView>, code: PropertyCode, i: int)
    requires
        0 <= i <= s.len(),
    ensures
        with_code(s, code) == with_code(s.take(i), code) + with_code(s.skip(i), code),
{
    assert(s =~= s.take(i) + s.skip(i));
    Seq::<PropertyView>::filter_distributes_over_add(s.take(i), s.skip(i), code_is(code));
}

/// A prefix of a property list takes no more room than the whole list.
proof fn lemma_props_len_prefix(s: Seq<PropertyView>, i: int)
    requires
        0 <= i <= s.len(),
    ensures
        0 <= props_len(s.take(i)) <= props_len(s),
    decreases s.len() - i,
{
    if i < s.len() {
        lemma_props_len_prefix(s, i + 1);
        assert(s.take(i + 1).drop_last() =~= s.take(i));
        lemma_props_len_nonneg(s.take(i));
    } else {
        assert(s.take(i) =~= s);
        lemma_props_len_nonneg(s);
    }
}

/// No property list takes negative room.
proof fn lemma_props_len_nonneg(s: Seq<PropertyView>)
    ensures
        props_len(s) >= 0,
    decreases s.len(),
{
    if s.len() > 0 {
        lemma_props_len_nonneg(s.drop_last());
    }
}

/// The number of bytes of the variable-byte encoding of a C `int`.
fn vbi_len_of(n: i32) -> (r: usize)
    ensures
        r == vbi_len(n as int),
{
    if n < 128 {
        1
    } else if n < 16384 {
        2
    } else if n < 2097152 {
        3
    } else {
        4
    }
}

impl Property {
    /// Gets the number of bytes the property takes on the wire.
    fn wire_len(&self) -> (r: usize)
        requires
            entry_len(self@) <= usize::MAX,
        ensures
            r == entry_len(self@),
    {
        let n: usize = match &self.value {
            PropertyValue::Byte(_) => 1,
            PropertyValue::TwoByte(_) => 2,
            PropertyValue::FourByte(n) => {
                if self.code.property_type() == PropertyType::VariableByteInteger {
                    vbi_len_of(*n as i32)
                } else {
                    4
                }
            },
            PropertyValue::Binary(b) => 2 + b.len(),
            PropertyValue::Text(t) => 2 + t.as_str().len(),
            PropertyValue::TextPair(k, v) => 2 + k.as_str().len() + 2 + v.as_str().len(),
        };
        1 + n
    }
}

/// A collection of MQTT v5 properties.
///
/// This is a collection of properties that can be added to outgoing packets
/// or retrieved from incoming packets. The properties keep the order in
/// which they were added; a code may occur more than once.
#[derive(Debug)]
pub struct Properties {
    props: Vec<Property>,
}

impl View for Properties {
    type V = Seq<PropertyView>;

    closed spec fn view(&self) -> Seq<PropertyView> {
        props_view(self.props@)
    }
}

impl Properties {
    /// Creates a new, empty collection of properties.
    pub fn new() -> (r: Self)
        ensures
            r@ == Seq::<PropertyView>::empty(),
    {
        let r = Properties { props: Vec::new() };
        assert(r@ =~= Seq::<PropertyView>::empty());
        r
    }

    /// Determines if the property list has no items in it.
    pub fn is_empty(&self) -> (r: bool)
        ensures
            r == (self@.len() == 0),
    {
        self.props.len() == 0
    }

    /// Gets the number of property items in the collection.
    pub fn len(&self) -> (r: usize)
        ensures
            r == self@.len(),
    {
        self.props.len()
    }

    /// Gets the number of bytes required for the serialized list on
    /// the wire.
    pub fn byte_len(&self) -> (r: usize)
        requires
            wire_len(self@) <= usize::MAX,
        ensures
            r == wire_len(self@),
    {
        let ghost s = self@;
        let mut total: usize = 0;
        let mut i: usize = 0;
        proof {
            lemma_props_len_prefix(s, s.len() as int);
            assert(s.take(0) =~= Seq::<PropertyView>::empty());
        }
        while i < self.props.len()
            invariant
                s == self@,
                s == props_view(self.props@),
                i <= self.props@.len(),
                total == props_len(s.take(i as int)),
                props_len(s) + 4 <= usize::MAX,
            decreases self.props@.len() - i,
        {
            proof {
                lemma_props_len_prefix(s, i + 1);
                assert(s.take(i + 1).drop_last() =~= s.take(i as int));
                lemma_props_len_nonneg(s.take(i as int));
            }
            let n = self.props[i].wire_len();
            total = total + n;
            i = i + 1;
        }
        proof {
            assert(s.take(i as int) =~= s);
        }
        let len_bytes: usize = if total < 128 {
            1
        } else if total < 16384 {
            2
        } else if total < 2097152 {
            3
        } else {
            4
        };
        total + len_bytes
    }

    /// Removes all the items from the property list.
    pub fn clear(&mut self)
        ensures
            final(self)@ == Seq::<PropertyView>::empty(),
    {
        self.props = Vec::new();
        assert(self@ =~= Seq::<PropertyView>::empty());
    }

    /// Adds a property to the collection.
    pub fn push(&mut self, prop: Property) -> (r: Result<(), Error>)
        ensures
            r is Ok,
            final(self)@ == old(self)@.push(prop@),
    {
        let ghost old_props = self.props@;
        self.props.push(prop);
        assert(self@ =~= props_view(old_props).push(prop@));
        Ok(())
    }

    /// Adds the property that a construction gave, or passes its error on.
    fn push_made(&mut self, made: Result<Property, Error>) -> (r: Result<(), Error>)
        ensures
            match made {
                Ok(p) => r is Ok && final(self)@ == old(self)@.push(p@),
                Err(e) => r == Err::<(), Error>(e) && final(self)@ == old(self)@,
            },
    {
        match made {
            Ok(p) => self.push(p),
            Err(e) => Err(e),
        }
    }

    /// Adds a property to the collection given the property code and value.
    pub fn push_val<T: IntoPropertyArg>(&mut self, code: PropertyCode, val: T) -> (r: Result<(), Error>)
        requires
            arg_storable(code, val.arg_view()),
        ensures
            pushed(old(self)@, final(self)@, r, code, arg_value(code, val.arg_view())),
    {
        self.push_made(Property::new(code, val))
    }

    /// Adds an single-byte property to the collection.
    pub fn push_byte(&mut self, code: PropertyCode, val: u8) -> (r: Result<(), Error>)
        ensures
            pushed(old(self)@, final(self)@, r, code, byte_value(code, val)),
    {
        self.push_made(Property::new_byte(code, val))
    }

    /// Adds an two-byte integer property to the collection.
    pub fn push_u16(&mut self, code: PropertyCode, val: u16) -> (r: Result<(), Error>)
        ensures
            pushed(old(self)@, final(self)@, r, code, u16_value(code, val)),
    {
        self.push_made(Property::new_u16(code, val))
    }

    /// Adds a four-byte integer property to the collection.
    pub fn push_u32(&mut self, code: PropertyCode, val: u32) -> (r: Result<(), Error>)
        ensures
            pushed(old(self)@, final(self)@, r, code, u32_value(code, val)),
    {
        self.push_made(Property::new_u32(code, val))
    }

    /// Adds an integer property to the collection.
    ///
    /// This works for any integer type.
    pub fn push_int(&mut self, code: PropertyCode, val: i32) -> (r: Result<(), Error>)
        ensures
            pushed(old(self)@, final(self)@, r, code, int_value(code, val)),
    {
        self.push_made(Property::new_int(code, val))
    }

    /// Adds a binary property to the collection
    pub fn push_binary<V: IntoBinary>(&mut self, code: PropertyCode, bin: V) -> (r: Result<(), Error>)
        ensures
            pushed(old(self)@, final(self)@, r, code, binary_value(code, bin.binary_view())),
    {
        self.push_made(Property::new_binary(code, bin))
    }

    /// Adds a string property to the collection
    pub fn push_string(&mut self, code: PropertyCode, s: &str) -> (r: Result<(), Error>)
        requires
            code_type(code) == PropertyType::Utf8EncodedString ==> no_nul(s@),
        ensures
            pushed(old(self)@, final(self)@, r, code, string_value(code, s@)),
    {
        self.push_made(Property::new_string(code, s))
    }

    /// Adds a string pair property to the collection
    pub fn push_string_pair(&mut self, code: PropertyCode, key: &str, val: &str) -> (r: Result<
        (),
        Error,
    >)
        requires
            code_type(code) == PropertyType::Utf8StringPair ==> no_nul(key@) && no_nul(val@),
        ensures
            pushed(old(self)@, final(self)@, r, code, string_pair_value(code, key@, val@)),
    {
        self.push_made(Property::new_string_pair(code, key, val))
    }

    /// Gets a property instance when there are possibly multiple values.
    /// The index is taken as a C `int`, as the underlying library does.
    pub fn get_at(&self, code: PropertyCode, idx: usize) -> (r: Option<Property>)
        ensures
            opt_prop_view(r) == nth_with_code(self@, code, (idx as i32) as int),
    {
        let ghost s = self@;
        let cidx: i32 = idx as i32;
        if cidx < 0 {
            return None;
        }
        let mut cur: i32 = 0;
        let mut i: usize = 0;
        proof {
            assert(s.take(0) =~= Seq::<PropertyView>::empty());
        }
        while i < self.props.len()
            invariant
                s == self@,
                s == props_view(self.props@),
                i <= self.props@.len(),
                0 <= cur <= cidx,
                cidx == (idx as i32),
                cur == with_code(s.take(i as int), code).len(),
            decreases self.props@.len() - i,
        {
            proof {
                lemma_with_code_step(s, code, i as int);
            }
            if self.props[i].code == code {
                if cur == cidx {
                    proof {
                        lemma_with_code_split(s, code, i + 1);
                    }
                    return Some(self.props[i].clone());
                }
                cur = cur + 1;
            }
            i = i + 1;
        }
        proof {
            assert(s.take(i as int) =~= s);
        }
        None
    }

    /// Gets a property instance
    pub fn get(&self, code: PropertyCode) -> (r: Option<Property>)
        ensures
            opt_prop_view(r) == nth_with_code(self@, code, 0),
    {
        self.get_at(code, 0)
    }

    /// Gets all the property instances with the code, in order.
    pub fn iter(&self, code: PropertyCode) -> (r: Vec<Property>)
        ensures
            props_view(r@) == with_code(self@, code),
    {
        let ghost s = self@;
        let mut r: Vec<Property> = Vec::new();
        let mut i: usize = 0;
        proof {
            assert(s.take(0) =~= Seq::<PropertyView>::empty());
            assert(props_view(r@) =~= Seq::<PropertyView>::empty());
        }
        while i < self.props.len()
            invariant
                s == self@,
                s == props_view(self.props@),
                i <= self.props@.len(),
                props_view(r@) == with_code(s.take(i as int), code),
            decreases self.props@.len() - i,
        {
            proof {
                lemma_with_code_step(s, code, i as int);
            }
            if self.props[i].code == code {
                let p = self.props[i].clone();
                let ghost old_r = r@;
                r.push(p);
                assert(props_view(r@) =~= props_view(old_r).push(s[i as int]));
            }
            i = i + 1;
        }
        proof {
            assert(s.take(i as int) =~= s);
        }
        r
    }

    /// Gets a value from the collection when there may be more than one
    /// for the code.
    pub fn get_val_at<T: FromProperty>(&self, code: PropertyCode, idx: usize) -> (r: Option<T>)
        ensures
            match nth_with_code(self@, code, (idx as i32) as int) {
                Some(p) => T::extracted(p, r),
                None => r is None,
            },
    {
        match self.get_at(code, idx) {
            Some(p) => p.get(),
            None => None,
        }
    }

    /// Gets a value from the collection for the first property with the code.
    pub fn get_val<T: FromProperty>(&self, code: PropertyCode) -> (r: Option<T>)
        ensures
            match nth_with_code(self@, code, 0) {
                Some(p) => T::extracted(p, r),
                None => r is None,
            },
    {
        self.get_val_at(code, 0)
    }

    /// Gets an integer value of a specific value when there may be more than one.
    pub fn get_int_at(&self, code: PropertyCode, idx: usize) -> (r: Option<i32>)
        ensures
            r == match nth_with_code(self@, code, (idx as i32) as int) {
                Some(p) => int_of(p.value),
                None => None,
            },
    {
        match self.get_at(code, idx) {
            Some(p) => p.get_int(),
            None => None,
        }
    }

    /// Gets an integer value of a specific property.
    pub fn get_int(&self, code: PropertyCode) -> (r: Option<i32>)
        ensures
            r == match nth_with_code(self@, code, 0) {
                Some(p) => int_of(p.value),
                None => None,
            },
    {
        self.get_int_at(code, 0)
    }

    /// Gets a binary value of a specific value when there may be more than one.
    pub fn get_binary_at(&self, code: PropertyCode, idx: usize) -> (r: Option<Vec<u8>>)
        ensures
            opt_bytes_view(r) == match nth_with_code(self@, code, (idx as i32) as int) {
                Some(p) => binary_of(p.value),
                None => None,
            },
    {
        match self.get_at(code, idx) {
            Some(p) => p.get_binary(),
            None => None,
        }
    }

    /// Gets a binary value of a specific property.
    pub fn get_binary(&self, code: PropertyCode) -> (r: Option<Vec<u8>>)
        ensures
            opt_bytes_view(r) == match nth_with_code(self@, code, 0) {
                Some(p) => binary_of(p.value),
                None => None,
            },
    {
        self.get_binary_at(code, 0)
    }

    /// Gets a string value of a specific value when there may be more than one.
    pub fn get_string_at(&self, code: PropertyCode, idx: usize) -> (r: Option<String>)
        ensures
            opt_text_view(r) == match nth_with_code(self@, code, (idx as i32) as int) {
                Some(p) => text_of(p.value),
                None => None,
            },
    {
        match self.get_at(code, idx) {
            Some(p) => p.get_string(),
            None => None,
        }
    }

    /// Gets a string value of a specific property.
    pub fn get_string(&self, code: PropertyCode) -> (r: Option<String>)
        ensures
            opt_text_view(r) == match nth_with_code(self@, code, 0) {
                Some(p) => text_of(p.value),
                None => None,
            },
    {
        self.get_string_at(code, 0)
    }

    /// Gets a string pair for a specific property when there may be more than one.
    pub fn get_string_pair_at(&self, code: PropertyCode, idx: usize) -> (r: Option<(String, String)>)
        ensures
            opt_pair_view(r) == match nth_with_code(self@, code, (idx as i32) as int) {
                Some(p) => pair_of(p.value),
                None => None,
            },
    {
        match self.get_at(code, idx) {
            Some(p) => p.get_string_pair(),
            None => None,
        }
    }

    /// Gets a string pair for a specific property.
    pub fn get_string_pair(&self, code: PropertyCode) -> (r: Option<(String, String)>)
        ensures
            opt_pair_view(r) == match nth_with_code(self@, code, 0) {
                Some(p) => pair_of(p.value),
                None => None,
            },
    {
        self.get_string_pair_at(code, 0)
    }
}

impl Default for Properties {
    /// Creates a new, empty collection of properties.
    fn default() -> (r: Self)
        ensures
            r@ == Seq::<PropertyView>::empty(),
    {
        Properties::new()
    }
}

impl Clone for Properties {
    /// Creates a copy of the collection, with its own copy of each property.
    fn clone(&self) -> (r: Self)
        ensures
            r@ == self@,
    {
        let ghost s = self@;
        let mut props: Vec<Property> = Vec::new();
        let mut i: usize = 0;
        while i < self.props.len()
            invariant
                s == props_view(self.props@),
                i <= self.props@.len(),
                props_view(props@) == s.take(i as int),
            decreases self.props@.len() - i,
        {
            let p = self.props[i].clone();
            let ghost old_props = props@;
            props.push(p);
            assert(s[i as int] == self.props@[i as int]@);
            assert(props_view(props@) =~= props_view(old_props).push(s[i as int]));
            assert(props_view(props@) =~= s.take(i + 1));
            i = i + 1;
        }
        let r = Properties { props };
        assert(r@ =~= s);
        r
    }
}


impl Properties {
    /// Gets the key/value pairs of the user properties, in order.
    pub fn user_iter(&self) -> (r: Vec<(String, String)>)
        ensures
            pairs_view(r@) == user_pairs(self@),
    {
        let users = self.iter(PropertyCode::UserProperty);
        let ghost u = props_view(users@);
        let mut r: Vec<(String, String)> = Vec::new();
        let mut i: usize = 0;
        assert(pairs_view(r@) =~= u.take(0).map_values(|p: PropertyView| pair_of(p.value).unwrap()));
        while i < users.len()
            invariant
                u == props_view(users@),
                u == with_code(self@, PropertyCode::UserProperty),
                i <= users@.len(),
                pairs_view(r@) == u.take(i as int).map_values(
                    |p: PropertyView| pair_of(p.value).unwrap(),
                ),
            decreases users@.len() - i,
        {
            let p = &users[i];
            let _ = p.property_code();
            proof {
                reveal(Seq::filter);
                Seq::<PropertyView>::lemma_filter_pred(self@, code_is(PropertyCode::UserProperty), i as int);
                assert(u[i as int] == p@);
            }
            match p.get_string_pair() {
                Some(pair) => {
                    let ghost old_r = r@;
                    r.push(pair);
                    assert(pairs_view(r@) =~= pairs_view(old_r).push(pair_of(u[i as int].value).unwrap()));
                },
                None => {},
            }
            i = i + 1;
            assert(pairs_view(r@) =~= u.take(i as int).map_values(
                |p: PropertyView| pair_of(p.value).unwrap(),
            ));
        }
        assert(u.take(i as int) =~= u);
        r
    }

    /// Searches for the specified key in the user properties and returns
    /// the value of the first pair with that key, if found.
    pub fn find_user_property(&self, key: &str) -> (r: Option<String>)
        ensures
            opt_text_view(r) == first_value_for(user_pairs(self@), key@),
    {
        let pairs = self.user_iter();
        let ghost ps = pairs_view(pairs@);
        let mut i: usize = 0;
        assert(ps.skip(0) =~= ps);
        while i < pairs.len()
            invariant
                ps == pairs_view(pairs@),
                ps == user_pairs(self@),
                i <= pairs@.len(),
                first_value_for(ps, key@) == first_value_for(ps.skip(i as int), key@),
            decreases pairs@.len() - i,
        {
            proof {
                assert(ps.skip(i as int)[0] == ps[i as int]);
                assert(ps.skip(i as int).drop_first() =~= ps.skip(i + 1));
            }
            if crate::strings::str_equals(pairs[i].0.as_str(), key) {
                return Some(pairs[i].1.clone());
            }
            i = i + 1;
        }
        proof {
            assert(ps.skip(i as int).len() == 0);
        }
        None
    }
}


/// A property added to a collection is found again at the index that counts
/// the earlier properties with its code, and the properties found at every
/// other index, for any code, stay as they were.
pub proof fn lemma_push_then_get_at(s: Seq<PropertyView>, p: PropertyView, code: PropertyCode, n: int)
    ensures
        nth_with_code(s.push(p), p.code, with_code(s, p.code).len() as int) == Some(p),
        (code != p.code || n != with_code(s, p.code).len()) ==> nth_with_code(s.push(p), code, n)
            == nth_with_code(s, code, n),
{
    reveal(Seq::filter);
    assert(s.push(p).drop_last() =~= s);
    assert(code_is(p.code)(p));
}

/// An integer that a property accepts is read back unchanged, and the value
/// it makes suits the code.
pub proof fn lemma_int_roundtrip(code: PropertyCode, val: i32)
    ensures
        int_value(code, val) matches Some(v) ==> int_of(v) == Some(val) && value_suits(code, v),
{
    assert(((val as u32) as i32) == val) by (bit_vector);
}

/// Bytes, two- and four-byte integers, binary data, strings and string
/// pairs that a property accepts are read back unchanged, and the values
/// they make suit the code.
pub proof fn lemma_typed_roundtrips(
    code: PropertyCode,
    b: u8,
    n16: u16,
    n32: u32,
    bin: Seq<u8>,
    key: Seq<char>,
    val: Seq<char>,
)
    requires
        no_nul(key),
        no_nul(val),
    ensures
        byte_value(code, b) matches Some(v) ==> byte_of(v) == Some(b) && value_suits(code, v),
        u16_value(code, n16) matches Some(v) ==> u16_of(v) == Some(n16) && value_suits(code, v),
        u32_value(code, n32) matches Some(v) ==> u32_of(PropertyView { code, value: v }) == Some(
            n32,
        ) && value_suits(code, v),
        binary_value(code, bin) matches Some(v) ==> binary_of(v) == Some(bin) && value_suits(
            code,
            v,
        ),
        string_value(code, key) matches Some(v) ==> text_of(v) == Some(key) && value_suits(code, v),
        string_pair_value(code, key, val) matches Some(v) ==> pair_of(v) == Some((key, val))
            && value_suits(code, v),
{
}

/// A value of one property type is refused by the constructors of every
/// other type: each code takes exactly one of them.
pub proof fn lemma_constructors_exclusive(code: PropertyCode, b: u8, n16: u16, n32: u32, bin: Seq<u8>, t: Seq<char>)
    ensures
        byte_value(code, b) is Some <==> code_type(code) == PropertyType::Byte,
        u16_value(code, n16) is Some <==> code_type(code) == PropertyType::TwoByteInteger,
        u32_value(code, n32) is Some <==> code_type(code) == PropertyType::FourByteInteger,
        binary_value(code, bin) is Some <==> code_type(code) == PropertyType::BinaryData,
        string_value(code, t) is Some <==> code_type(code) == PropertyType::Utf8EncodedString,
        string_pair_value(code, t, t) is Some <==> code_type(code) == PropertyType::Utf8StringPair,
{
}

/// An empty list takes one byte on the wire, and each property added grows
/// the list by the bytes of its entry.
pub proof fn lemma_wire_len_grows(s: Seq<PropertyView>, p: PropertyView)
    ensures
        wire_len(Seq::<PropertyView>::empty()) == 1,
        props_len(s.push(p)) == props_len(s) + entry_len(p),
{
    assert(s.push(p).drop_last() =~= s);
}


/// Adding a property adds its pair to the user pairs when it is a user
/// property, and leaves them as they were otherwise.
pub proof fn lemma_user_pairs_push(s: Seq<PropertyView>, p: PropertyView)
    ensures
        user_pairs(s.push(p)) == (if p.code == PropertyCode::UserProperty {
            user_pairs(s).push(pair_of(p.value).unwrap())
        } else {
            user_pairs(s)
        }),
{
    reveal(Seq::filter);
    assert(s.push(p).drop_last() =~= s);
    assert(code_is(PropertyCode::UserProperty)(p) == (p.code == PropertyCode::UserProperty));
    let f = |q: PropertyView| pair_of(q.value).unwrap();
    if p.code == PropertyCode::UserProperty {
        assert(with_code(s.push(p), PropertyCode::UserProperty) == with_code(
            s,
            PropertyCode::UserProperty,
        ).push(p));
        assert(with_code(s, PropertyCode::UserProperty).push(p).map_values(f) =~= with_code(
            s,
            PropertyCode::UserProperty,
        ).map_values(f).push(f(p)));
    }
}

/// The number of successful results.
pub open spec fn ok_count(results: Seq<Result<(), Error>>) -> nat
    decreases results.len(),
{
    if results.len() == 0 {
        0
    } else {
        ok_count(results.drop_last()) + if results.last() is Ok {
            1nat
        } else {
            0nat
        }
    }
}

/// Whether `states` are the property lists before and after each push of a
/// sequence, with `results` what each push returned, as the push methods'
/// contracts relate them (`push` meets `pushed` with its property's code
/// and value).
pub open spec fn push_sequence(
    states: Seq<Seq<PropertyView>>,
    results: Seq<Result<(), Error>>,
    codes: Seq<PropertyCode>,
    values: Seq<Option<PropertyValueView>>,
) -> bool {
    &&& states.len() == results.len() + 1
    &&& codes.len() == results.len()
    &&& values.len() == results.len()
    &&& forall|k: int|
        0 <= k < results.len() ==> pushed(
            #[trigger] states[k],
            states[k + 1],
            results[k],
            codes[k],
            values[k],
        )
}

/// Reading a property (whose value suits its code, as every `Property`'s
/// does) as the value type that `type_of` gives always succeeds, and a read
/// that succeeds is of that value type or of `i32`.
pub proof fn lemma_get_follows_type_of<T: FromProperty>(p: PropertyView, r: Option<T>)
    requires
        value_suits(p.code, p.value),
        T::extracted(p, r),
    ensures
        T::value_type() == value_type_of(code_type(p.code)) ==> r is Some,
        r is Some ==> (T::value_type() == value_type_of(code_type(p.code)) || T::value_type()
            == ValueType::I32),
{
    T::lemma_reads(p, r);
}

/// Adding a ready property, which always succeeds, is a push of its code
/// and value in the sense of `pushed`.
pub proof fn lemma_push_property_is_pushed(old_props: Seq<PropertyView>, p: PropertyView)
    ensures
        pushed(old_props, old_props.push(p), Ok(()), p.code, Some(p.value)),
{
}

/// After any sequence of pushes onto an empty collection, it holds exactly
/// as many properties as there were pushes that succeeded.
pub proof fn lemma_len_counts_successful_pushes(
    states: Seq<Seq<PropertyView>>,
    results: Seq<Result<(), Error>>,
    codes: Seq<PropertyCode>,
    values: Seq<Option<PropertyValueView>>,
)
    requires
        push_sequence(states, results, codes, values),
        states[0].len() == 0,
    ensures
        states.last().len() == ok_count(results),
    decreases results.len(),
{
    if results.len() > 0 {
        let n = results.len() - 1;
        let ps = states.drop_last();
        assert(push_sequence(ps, results.drop_last(), codes.drop_last(), values.drop_last())) by {
            assert forall|k: int| 0 <= k < results.drop_last().len() implies pushed(
                #[trigger] ps[k],
                ps[k + 1],
                results.drop_last()[k],
                codes.drop_last()[k],
                values.drop_last()[k],
            ) by {
                assert(pushed(states[k], states[k + 1], results[k], codes[k], values[k]));
            }
        }
        lemma_len_counts_successful_pushes(ps, results.drop_last(), codes.drop_last(), values.drop_last());
        assert(pushed(states[n], states[n + 1], results[n], codes[n], values[n]));
        assert(ps.last() == states[n]);
    }
}

/// Searching a list of pairs with one more pair at the end finds what it
/// found before, or the new pair's value when nothing was found and the
/// new pair has the key.
pub proof fn lemma_first_value_push(
    pairs: Seq<(Seq<char>, Seq<char>)>,
    k: Seq<char>,
    v: Seq<char>,
    key: Seq<char>,
)
    ensures
        first_value_for(pairs.push((k, v)), key) == (match first_value_for(pairs, key) {
            Some(x) => Some(x),
            None => if k == key {
                Some(v)
            } else {
                None
            },
        }),
    decreases pairs.len(),
{
    if pairs.len() > 0 {
        let q = pairs.push((k, v));
        assert(q[0] == pairs[0]);
        assert(q.drop_first() =~= pairs.drop_first().push((k, v)));
        lemma_first_value_push(pairs.drop_first(), k, v, key);
        if pairs[0].0 == key {
            assert(first_value_for(q, key) == Some(pairs[0].1));
            assert(first_value_for(pairs, key) == Some(pairs[0].1));
        } else {
            assert(first_value_for(q, key) == first_value_for(q.drop_first(), key));
            assert(first_value_for(pairs, key) == first_value_for(pairs.drop_first(), key));
        }
    } else {
        let q = pairs.push((k, v));
        assert(q[0] == (k, v));
        assert(q.drop_first() =~= Seq::<(Seq<char>, Seq<char>)>::empty());
        assert(first_value_for(q.drop_first(), key) is None);
        assert(first_value_for(pairs, key) is None);
        if k == key {
            assert(first_value_for(q, key) == Some(v));
        } else {
            assert(first_value_for(q, key) is None);
        }
    }
}


/// The data type of every property code follows the MQTT v5 property table
/// (by the property identifiers): the byte properties are 1, 23, 25, 36,
/// 37, 40, 41 and 42; the two-byte integers 19, 33, 34 and 35; the
/// four-byte integers 2, 17, 24 and 39; the variable byte integer 11; the
/// binary data 9 and 22; the UTF-8 strings 3, 8, 18, 21, 26, 28 and 31; the
/// string pair 38. So a four-byte value is taken exactly by the codes 2,
/// 17, 24 and 39, a two-byte value exactly by 19, 33, 34 and 35, and a byte
/// exactly by the byte properties.
pub proof fn lemma_code_types_follow_mqtt_table(code: PropertyCode, b: u8, n16: u16, n32: u32)
    ensures
        ({
            let id = property_code_number(code);
            &&& (code_type(code) == PropertyType::Byte) == (id == 1 || id == 23 || id == 25 || id
                == 36 || id == 37 || id == 40 || id == 41 || id == 42)
            &&& (code_type(code) == PropertyType::TwoByteInteger) == (id == 19 || id == 33 || id
                == 34 || id == 35)
            &&& (code_type(code) == PropertyType::FourByteInteger) == (id == 2 || id == 17 || id
                == 24 || id == 39)
            &&& (code_type(code) == PropertyType::VariableByteInteger) == (id == 11)
            &&& (code_type(code) == PropertyType::BinaryData) == (id == 9 || id == 22)
            &&& (code_type(code) == PropertyType::Utf8EncodedString) == (id == 3 || id == 8 || id
                == 18 || id == 21 || id == 26 || id == 28 || id == 31)
            &&& (code_type(code) == PropertyType::Utf8StringPair) == (id == 38)
            &&& (u32_value(code, n32) is Some) == (id == 2 || id == 17 || id == 24 || id == 39)
            &&& (u16_value(code, n16) is Some) == (id == 19 || id == 33 || id == 34 || id == 35)
            &&& (byte_value(code, b) is Some) == (id == 1 || id == 23 || id == 25 || id == 36
                || id == 37 || id == 40 || id == 41 || id == 42)
        }),
{
}

/// Each property code has the identifier that the MQTT v5 specification
/// gives it.
pub proof fn lemma_code_numbers_follow_mqtt_table()
    ensures
        property_code_number(PropertyCode::PayloadFormatIndicator) == 1,
        property_code_number(PropertyCode::MessageExpiryInterval) == 2,
        property_code_number(PropertyCode::ContentType) == 3,
        property_code_number(PropertyCode::ResponseTopic) == 8,
        property_code_number(PropertyCode::CorrelationData) == 9,
        property_code_number(PropertyCode::SubscriptionIdentifier) == 11,
        property_code_number(PropertyCode::SessionExpiryInterval) == 17,
        property_code_number(PropertyCode::AssignedClientIdentifer) == 18,
        property_code_number(PropertyCode::ServerKeepAlive) == 19,
        property_code_number(PropertyCode::AuthenticationMethod) == 21,
        property_code_number(PropertyCode::AuthenticationData) == 22,
        property_code_number(PropertyCode::RequestProblemInformation) == 23,
        property_code_number(PropertyCode::WillDelayInterval) == 24,
        property_code_number(PropertyCode::RequestResponseInformation) == 25,
        property_code_number(PropertyCode::ResponseInformation) == 26,
        property_code_number(PropertyCode::ServerReference) == 28,
        property_code_number(PropertyCode::ReasonString) == 31,
        property_code_number(PropertyCode::ReceiveMaximum) == 33,
        property_code_number(PropertyCode::TopicAliasMaximum) == 34,
        property_code_number(PropertyCode::TopicAlias) == 35,
        property_code_number(PropertyCode::MaximumQos) == 36,
        property_code_number(PropertyCode::RetainAvailable) == 37,
        property_code_number(PropertyCode::UserProperty) == 38,
        property_code_number(PropertyCode::MaximumPacketSize) == 39,
        property_code_number(PropertyCode::WildcardSubscriptionAvailable) == 40,
        property_code_number(PropertyCode::SubscriptionIdentifiersAvailable) == 41,
        property_code_number(PropertyCode::SharedSubscriptionAvailable) == 42,
{
}

} // verus!
