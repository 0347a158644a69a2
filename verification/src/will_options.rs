//! The options for the Last Will and Testament (LWT).

use vstd::prelude::*;
use vstd::utf8::{decode_utf8, valid_utf8};

use crate::message::{from_utf8_lossy, utf8_lossy, Message, MessageData};
use crate::properties::{IntoBinary, Properties, PropertyView};
use crate::strings::{no_nul, IntoText};

verus! {

/// The version of the C will options struct that this library fills.
pub const WILL_OPTIONS_STRUCT_VERSION: i32 = 1;

/// The plain fields of the C library's will options struct.
#[derive(Debug, Clone, Copy)]
pub struct CWillOptions {
    /// The struct identifier, "MQTW".
    pub struct_id: [u8; 4],
    /// The version of the struct.
    pub struct_version: i32,
    /// Whether the broker retains the message (non-zero).
    pub retained: i32,
    /// The quality of service.
    pub qos: i32,
    /// The length of the payload, in bytes.
    pub payload_len: i32,
}

/// The C will options with the QoS, retained flag and payload length, and
/// defaults otherwise.
pub open spec fn will_copts(qos: i32, retained: i32, payload_len: i32) -> CWillOptions {
    CWillOptions {
        struct_id: [77u8, 81u8, 84u8, 87u8],
        struct_version: WILL_OPTIONS_STRUCT_VERSION,
        retained,
        qos,
        payload_len,
    }
}

impl Default for CWillOptions {
    /// The C library's will options initializer.
    fn default() -> (r: Self)
        ensures
            r == will_copts(0, 0, 0),
    {
        CWillOptions {
            struct_id: [77u8, 81u8, 84u8, 87u8],
            struct_version: WILL_OPTIONS_STRUCT_VERSION,
            retained: 0,
            qos: 0,
            payload_len: 0,
        }
    }
}

/// The options for the Last Will and Testament (LWT).
/// This defines a message that is registered with the the server at the time
/// of connection. Then if the connection is lost unexpectedly, the message
/// is published by the server.
///
/// Users are encouraged to just create a `Message` and use it when
/// building the connect options.
#[derive(Debug)]
pub struct WillOptions {
    copts: CWillOptions,
    data: MessageData,
    props: Properties,
}

/// Will options, by their parts.
pub struct WillView {
    /// The C options.
    pub copts: CWillOptions,
    /// The topic.
    pub topic: Seq<char>,
    /// The payload.
    pub payload: Seq<u8>,
    /// The properties of the message the options were made from.
    pub msg_props: Seq<PropertyView>,
    /// The will properties.
    pub props: Seq<PropertyView>,
}

impl View for WillOptions {
    type V = WillView;

    closed spec fn view(&self) -> WillView {
        WillView {
            copts: self.copts,
            topic: self.data.topic@,
            payload: self.data.payload@,
            msg_props: self.data.props@,
            props: self.props@,
        }
    }
}

impl WillOptions {
    /// The C struct records the payload length, and the will properties
    /// stay empty.
    #[verifier::type_invariant]
    spec fn inv(&self) -> bool {
        &&& self.copts.payload_len == self.data.payload@.len() as i32
        &&& self.props@ == Seq::<PropertyView>::empty()
    }

    /// Gets the C options struct.
    pub fn c_options(&self) -> (r: CWillOptions)
        ensures
            r == self@.copts,
    {
        self.copts
    }

    /// Records the payload length in the C struct; the will properties
    /// start empty.
    fn from_data(copts: CWillOptions, data: MessageData) -> (r: Self)
        ensures
            r@ == (WillView {
                copts: CWillOptions { payload_len: data.payload@.len() as i32, ..copts },
                topic: data.topic@,
                payload: data.payload@,
                msg_props: data.props@,
                props: Seq::empty(),
            }),
    {
        let mut copts = copts;
        copts.payload_len = data.payload.len() as i32;
        WillOptions { copts, data, props: Properties::new() }
    }

    /// Creates a new WillOptions message, for a topic, a payload and a QoS.
    pub fn new<S: IntoText, V: IntoBinary>(topic: S, payload: V, qos: i32) -> (r: WillOptions)
        requires
            no_nul(topic.text_view()),
        ensures
            r@ == (WillView {
                copts: will_copts(qos, 0, payload.binary_view().len() as i32),
                topic: topic.text_view(),
                payload: payload.binary_view(),
                msg_props: Seq::empty(),
                props: Seq::empty(),
            }),
    {
        let mut copts = CWillOptions::default();
        copts.qos = qos;
        let data = MessageData {
            topic: topic.into_text(),
            payload: payload.into_binary(),
            props: Properties::new(),
        };
        Self::from_data(copts, data)
    }

    /// Creates a new WillOptions message with the 'retain' flag set.
    pub fn new_retained<S: IntoText, V: IntoBinary>(topic: S, payload: V, qos: i32) -> (r:
        WillOptions)
        requires
            no_nul(topic.text_view()),
        ensures
            r@ == (WillView {
                copts: will_copts(qos, 1, payload.binary_view().len() as i32),
                topic: topic.text_view(),
                payload: payload.binary_view(),
                msg_props: Seq::empty(),
                props: Seq::empty(),
            }),
    {
        let mut copts = CWillOptions::default();
        copts.qos = qos;
        copts.retained = 1;
        let data = MessageData {
            topic: topic.into_text(),
            payload: payload.into_binary(),
            props: Properties::new(),
        };
        Self::from_data(copts, data)
    }

    /// Gets the topic string for the LWT
    pub fn topic(&self) -> (r: &str)
        ensures
            r@ == self@.topic,
    {
        self.data.topic.as_str()
    }

    /// Gets the payload of the LWT
    pub fn payload(&self) -> (r: &[u8])
        ensures
            r@ == self@.payload,
    {
        self.data.payload.as_slice()
    }

    /// Gets the payload of the message as a string, with any invalid UTF-8
    /// sequence replaced by U+FFFD.
    pub fn payload_str(&self) -> (r: String)
        ensures
            r@ == utf8_lossy(self@.payload),
            valid_utf8(self@.payload) ==> r@ == decode_utf8(self@.payload),
    {
        from_utf8_lossy(self.data.payload.as_slice())
    }

    /// Returns the Quality of Service (QOS) for the message.
    pub fn qos(&self) -> (r: i32)
        ensures
            r == self@.copts.qos,
    {
        self.copts.qos
    }

    /// Gets the 'retained' flag for the message.
    pub fn retained(&self) -> (r: bool)
        ensures
            r == (self@.copts.retained != 0),
    {
        self.copts.retained != 0
    }

    /// Gets the properties for the will message.
    pub fn properties(&self) -> (r: &Properties)
        ensures
            r@ == self@.props,
    {
        &self.props
    }
}

impl Default for WillOptions {
    /// Creates a WillOptions struct with default options
    fn default() -> (r: Self)
        ensures
            r@ == (WillView {
                copts: will_copts(0, 0, 0),
                topic: Seq::empty(),
                payload: Seq::empty(),
                msg_props: Seq::empty(),
                props: Seq::empty(),
            }),
    {
        let data = MessageData { topic: String::new(), payload: Vec::new(), props: Properties::new() };
        let r = Self::from_data(CWillOptions::default(), data);
        assert(r@.payload =~= Seq::<u8>::empty());
        assert(r@.topic =~= Seq::<char>::empty());
        r
    }
}

impl Clone for WillOptions {
    /// Creates a copy of the options.
    fn clone(&self) -> (r: Self)
        ensures
            r@ == self@,
    {
        proof {
            use_type_invariant(self);
        }
        Self::from_data(self.copts, self.data.copy())
    }
}

impl From<Message> for WillOptions {
    /// Create `WillOptions` from a `Message`: its topic, payload, QoS and
    /// retained flag.
    fn from(msg: Message) -> (r: Self)
        ensures
            r@ == (WillView {
                copts: will_copts(msg.cmsg.qos, msg.cmsg.retained, msg.data.payload@.len() as i32),
                topic: msg.data.topic@,
                payload: msg.data.payload@,
                msg_props: msg.data.props@,
                props: Seq::empty(),
            }),
    {
        let mut copts = CWillOptions::default();
        copts.qos = msg.cmsg.qos;
        copts.retained = msg.cmsg.retained;
        Self::from_data(copts, msg.data)
    }
}

impl vstd::std_specs::convert::FromSpecImpl<Message> for WillOptions {
    /// The options hold strings, which no spec value can be built from; the
    /// `from` impl states its result itself.
    open spec fn obeys_from_spec() -> bool {
        false
    }

    open spec fn from_spec(v: Message) -> WillOptions {
        arbitrary()
    }
}


/// The will options initializer holds the C library's values: "MQTW",
/// struct version 1, QoS 0, not retained and no payload.
pub proof fn lemma_will_defaults_follow_c_initializer()
    ensures
        ({
            let c = will_copts(0, 0, 0);
            &&& c.struct_id == [77u8, 81u8, 84u8, 87u8]
            &&& c.struct_version == 1
            &&& c.qos == 0
            &&& c.retained == 0
            &&& c.payload_len == 0
        }),
{
}

} // verus!
