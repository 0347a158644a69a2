//! An MQTT client library core: topic matching, MQTT v5 properties,
//! reason codes and the option sets used to talk to a broker.

#![allow(non_upper_case_globals)]
#![allow(non_camel_case_types)]

use vstd::prelude::*;

pub mod c_trace;
pub mod connect_options;
pub mod create_options;
pub mod disconnect_options;
pub mod errors;
pub mod message;
pub mod properties;
pub mod reason_code;
pub mod response_options;
pub mod server_response;
pub mod ssl_options;
pub mod string_collection;
pub mod strings;
pub mod subscribe_options;
pub mod token;
pub mod topic;
pub mod topic_levels;
pub mod topic_matcher;
pub mod types;
pub mod will_options;

pub use crate::connect_options::{ConnectOptions, ConnectOptionsBuilder};
pub use crate::create_options::{
    ClientPersistence, CreateOptions, CreateOptionsBuilder, PersistenceType, UserData,
};
pub use crate::disconnect_options::{DisconnectOptions, DisconnectOptionsBuilder};
pub use crate::errors::{error_message, error_message_opt, ConnectReturnCode, Error};
pub use crate::message::{Message, MessageBuilder};
pub use crate::properties::{Properties, Property, PropertyCode, PropertyType};
pub use crate::reason_code::ReasonCode;
pub use crate::response_options::{ResponseOptions, ResponseOptionsBuilder};
pub use crate::server_response::{
    ConnectResponse, RequestResponse, ServerRequest, ServerResponse,
};
pub use crate::ssl_options::{SslOptions, SslOptionsBuilder, SslVersion};
pub use crate::string_collection::{NameValueCollection, StringCollection};
pub use crate::subscribe_options::{
    RetainHandling, SubscribeOptions, SubscribeOptionsBuilder, NO_RETAIN_AS_PUBLISHED,
    RETAIN_AS_PUBLISHED, SUBSCRIBE_LOCAL, SUBSCRIBE_NO_LOCAL,
};
pub use crate::topic::{Topic, TopicFilter};
pub use crate::topic_matcher::{topic_matches, topic_matches_iter, TopicMatcher};
pub use crate::will_options::WillOptions;
pub use crate::types::{
    MqttVersion, QoS, MQTT_VERSION_3_1, MQTT_VERSION_3_1_1, MQTT_VERSION_5, MQTT_VERSION_DEFAULT,
    QOS_0, QOS_1, QOS_2,
};

verus! {

/// Converts a Rust bool to a C-style integer boolean.
pub fn to_c_bool(on: bool) -> (r: i32)
    ensures
        r == (if on { 1i32 } else { 0i32 }),
{
    if on { 1 } else { 0 }
}

/// Converts a C-style integer boolean to a Rust bool.
pub fn from_c_bool(on: i32) -> (r: bool)
    ensures
        r == (on != 0),
{
    on != 0
}

} // verus!
