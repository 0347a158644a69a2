//! Disconnect options.
//! This contains the structures to define the options for disconnecting from
//! the MQTT broker/server.

#![allow(non_snake_case)]

use vstd::prelude::*;

use std::time::Duration;

use crate::properties::{Properties, PropertyView};
use crate::reason_code::{reason_code_number, reason_code_of, ReasonCode};

verus! {

/// The version of the C disconnect options struct that this library fills.
pub const DISCONNECT_OPTIONS_STRUCT_VERSION: i32 = 1;

/// The plain fields of the C library's disconnect options struct.
#[derive(Debug, Clone, Copy)]
pub struct CDisconnectOptions {
    /// The struct identifier, "MQTD".
    pub struct_id: [u8; 4],
    /// The version of the struct.
    pub struct_version: i32,
    /// The time allowed for the disconnect to complete, in milliseconds.
    pub timeout: i32,
    /// The MQTT v5 reason code sent with the disconnect.
    pub reasonCode: u32,
}

/// The C library's disconnect options initializer.
pub open spec fn default_disconnect_copts() -> CDisconnectOptions {
    CDisconnectOptions {
        struct_id: [77u8, 81u8, 84u8, 68u8],
        struct_version: DISCONNECT_OPTIONS_STRUCT_VERSION,
        timeout: 0,
        reasonCode: 0,
    }
}

impl Default for CDisconnectOptions {
    /// The C library's disconnect options initializer.
    fn default() -> (r: Self)
        ensures
            r == default_disconnect_copts(),
    {
        CDisconnectOptions {
            struct_id: [77u8, 81u8, 84u8, 68u8],
            struct_version: DISCONNECT_OPTIONS_STRUCT_VERSION,
            timeout: 0,
            reasonCode: 0,
        }
    }
}

/// The collection of options for disconnecting from the client.
#[derive(Debug)]
pub struct DisconnectOptions {
    /// The underlying C disconnect options
    pub copts: CDisconnectOptions,
    /// The properties sent with the disconnect.
    pub props: Properties,
}

impl DisconnectOptions {
    /// Create a new `DisconnectOptions`
    pub fn new() -> (r: Self)
        ensures
            r.copts == default_disconnect_copts(),
            r.props@ == Seq::<PropertyView>::empty(),
    {
        DisconnectOptions { copts: CDisconnectOptions::default(), props: Properties::new() }
    }

    /// Gets the reason code in the options.
    pub fn reason_code(&self) -> (r: ReasonCode)
        ensures
            r == reason_code_of(self.copts.reasonCode),
    {
        ReasonCode::from_u32(self.copts.reasonCode)
    }

    /// Gets the properties in the message
    pub fn properties(&self) -> (r: &Properties)
        ensures
            r@ == self.props@,
    {
        &self.props
    }
}

impl Default for DisconnectOptions {
    /// Options with the C defaults and no properties.
    fn default() -> (r: Self)
        ensures
            r.copts == default_disconnect_copts(),
            r.props@ == Seq::<PropertyView>::empty(),
    {
        Self::new()
    }
}

impl Clone for DisconnectOptions {
    /// Copies the options, with a copy of the properties.
    fn clone(&self) -> (r: Self)
        ensures
            r.copts == self.copts,
            r.props@ == self.props@,
    {
        DisconnectOptions { copts: self.copts, props: self.props.clone() }
    }
}

/// The timeout stored for a number of milliseconds: zero becomes one
/// millisecond (zero would mean the default), and the count is kept as a C
/// `int`.
pub open spec fn timeout_for_millis(millis: u128) -> i32 {
    if millis == 0 {
        1
    } else {
        millis as i32
    }
}

/// The total number of whole milliseconds in a duration, as
/// `Duration::as_millis` counts them.
pub uninterp spec fn duration_millis(d: Duration) -> u128;

/// Calls `Duration::as_millis`, the total number of whole milliseconds in
/// the duration; the contract names that count.
#[verifier::external_body]
fn duration_as_millis(timeout: Duration) -> (r: u128)
    ensures
        r == duration_millis(timeout),
{
    timeout.as_millis()
}

/// What a disconnect options builder holds.
pub struct DisconnectOptionsBuilderView {
    /// The C options.
    pub copts: CDisconnectOptions,
    /// The properties.
    pub props: Seq<PropertyView>,
}

/// Builder to create the options for disconnecting from an MQTT server.
#[derive(Debug)]
pub struct DisconnectOptionsBuilder {
    copts: CDisconnectOptions,
    props: Properties,
}

impl View for DisconnectOptionsBuilder {
    type V = DisconnectOptionsBuilderView;

    closed spec fn view(&self) -> DisconnectOptionsBuilderView {
        DisconnectOptionsBuilderView { copts: self.copts, props: self.props@ }
    }
}

impl DisconnectOptionsBuilder {
    /// Create a new `DisconnectOptionsBuilder`
    pub fn new() -> (r: Self)
        ensures
            r@ == (DisconnectOptionsBuilderView {
                copts: default_disconnect_copts(),
                props: Seq::empty(),
            }),
    {
        DisconnectOptionsBuilder { copts: CDisconnectOptions::default(), props: Properties::new() }
    }

    /// Sets the time interval to allow the disconnect to complete.
    /// This specifies the time to allow in-flight messages to complete.
    /// This has a resolution of milliseconds.
    pub fn timeout(&mut self, timeout: Duration) -> (r: &mut Self)
        ensures
            r@ == (DisconnectOptionsBuilderView {
                copts: CDisconnectOptions {
                    timeout: timeout_for_millis(duration_millis(timeout)),
                    ..old(self)@.copts
                },
                ..old(self)@
            }),
            final(self)@ == final(r)@,
    {
        let millis = duration_as_millis(timeout);
        self.timeout_millis(millis)
    }

    /// Sets the time interval to allow the disconnect to complete, in
    /// milliseconds.
    pub fn timeout_millis(&mut self, millis: u128) -> (r: &mut Self)
        ensures
            r@ == (DisconnectOptionsBuilderView {
                copts: CDisconnectOptions { timeout: timeout_for_millis(millis), ..old(self)@.copts },
                ..old(self)@
            }),
            final(self)@ == final(r)@,
    {
        self.copts.timeout = if millis == 0 {
            1
        } else {
            millis as i32
        };
        self
    }

    /// Set the reason for the disconnect.
    pub fn reason_code(&mut self, reason_code: ReasonCode) -> (r: &mut Self)
        ensures
            r@ == (DisconnectOptionsBuilderView {
                copts: CDisconnectOptions {
                    reasonCode: reason_code_number(reason_code) as u32,
                    ..old(self)@.copts
                },
                ..old(self)@
            }),
            final(self)@ == final(r)@,
    {
        self.copts.reasonCode = reason_code.value() as u32;
        self
    }

    /// Tell the server to publish the will message on this disconnect.
    ///
    /// This sets the reason code in the options to 0x04:
    ///   "Disconnect with Will Message"
    pub fn publish_will_message(&mut self) -> (r: &mut Self)
        ensures
            r@ == (DisconnectOptionsBuilderView {
                copts: CDisconnectOptions { reasonCode: 4, ..old(self)@.copts },
                ..old(self)@
            }),
            final(self)@ == final(r)@,
    {
        self.reason_code(ReasonCode::DisconnectWithWillMessage)
    }

    /// Sets the collection of properties for the disconnect.
    pub fn properties(&mut self, props: Properties) -> (r: &mut Self)
        ensures
            r@ == (DisconnectOptionsBuilderView { props: props@, ..old(self)@ }),
            final(self)@ == final(r)@,
    {
        self.props = props;
        self
    }

    /// Finalize the builder to create the disconnect options.
    pub fn finalize(&self) -> (r: DisconnectOptions)
        ensures
            r.copts == self@.copts,
            r.props@ == self@.props,
    {
        DisconnectOptions { copts: self.copts, props: self.props.clone() }
    }
}

impl Default for DisconnectOptionsBuilder {
    /// Create a new `DisconnectOptionsBuilder`
    fn default() -> (r: Self)
        ensures
            r@ == (DisconnectOptionsBuilderView {
                copts: default_disconnect_copts(),
                props: Seq::empty(),
            }),
    {
        Self::new()
    }
}


/// The disconnect options initializer holds the C library's values:
/// "MQTD", struct version 1, no timeout (0) and reason code 0 (normal
/// disconnection).
pub proof fn lemma_disconnect_defaults_follow_c_initializer()
    ensures
        ({
            let c = default_disconnect_copts();
            &&& c.struct_id == [77u8, 81u8, 84u8, 68u8]
            &&& c.struct_version == 1
            &&& c.timeout == 0
            &&& c.reasonCode == 0
        }),
{
}

} // verus!
