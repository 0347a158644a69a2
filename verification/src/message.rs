//! The messages passed in MQTT PUBLISH packets, and a builder for them.

use vstd::prelude::*;
use vstd::utf8::{decode_utf8, valid_utf8};

use crate::properties::{Properties, PropertyView};
use crate::strings::{no_nul, IntoText};
use crate::types::{qos_from_int, qos_number, IntoQoS, QoS};
use crate::properties::IntoBinary;

verus! {

/// The version of the C message struct that this library fills.
pub const MESSAGE_STRUCT_VERSION: i32 = 1;

/// The eye-catcher that starts every C message struct.
pub const MESSAGE_STRUCT_ID: [u8; 4] = [77u8, 81u8, 84u8, 77u8];

/// The plain fields of the C library's message struct.
#[derive(Debug, Clone, Copy)]
pub struct CMessage {
    /// The struct identifier, "MQTM".
    pub struct_id: [u8; 4],
    /// The version of the struct.
    pub struct_version: i32,
    /// The length of the payload, in bytes.
    pub payloadlen: i32,
    /// The quality of service.
    pub qos: i32,
    /// Whether the broker should retain the message (non-zero) or not.
    pub retained: i32,
    /// Whether this is a duplicate delivery (non-zero) or not.
    pub dup: i32,
    /// The message identifier.
    pub msgid: i32,
}

/// Whether a C message struct has the default values but for the QoS, the
/// retained flag and the payload length.
pub open spec fn cmsg_with(c: CMessage, qos: i32, retained: i32, payloadlen: i32) -> bool {
    &&& c.struct_id@ == MESSAGE_STRUCT_ID@
    &&& c.struct_version == MESSAGE_STRUCT_VERSION
    &&& c.payloadlen == payloadlen
    &&& c.qos == qos
    &&& c.retained == retained
    &&& c.dup == 0
    &&& c.msgid == 0
}

impl Default for CMessage {
    /// The C library's message initializer.
    fn default() -> (r: CMessage)
        ensures
            cmsg_with(r, 0, 0, 0),
    {
        CMessage {
            struct_id: [77u8, 81u8, 84u8, 77u8],
            struct_version: MESSAGE_STRUCT_VERSION,
            payloadlen: 0,
            qos: 0,
            retained: 0,
            dup: 0,
            msgid: 0,
        }
    }
}

/// The data that a message carries beside its C struct.
#[derive(Debug)]
pub struct MessageData {
    /// The topic; it holds no NUL, so that it can be a C string.
    pub topic: String,
    /// The payload.
    pub payload: Vec<u8>,
    /// The MQTT v5 properties.
    pub props: Properties,
}

impl MessageData {
    /// Copies the topic, payload and properties.
    pub fn copy(&self) -> (r: MessageData)
        ensures
            r.topic@ == self.topic@,
            r.payload@ == self.payload@,
            r.props@ == self.props@,
    {
        MessageData {
            topic: self.topic.clone(),
            payload: vstd::slice::slice_to_vec(self.payload.as_slice()),
            props: self.props.clone(),
        }
    }
}

/// A `Message` represents all the information passed in an MQTT PUBLISH
/// packet.
/// This is the primary data transfer mechanism.
#[derive(Debug)]
pub struct Message {
    /// The C message struct.
    pub cmsg: CMessage,
    /// The topic, payload and properties.
    pub data: MessageData,
}

/// Whether a message has the topic, payload, properties, QoS and retained
/// flag, with a C struct that records them.
pub open spec fn message_is(
    m: Message,
    topic: Seq<char>,
    payload: Seq<u8>,
    props: Seq<PropertyView>,
    qos: i32,
    retained: i32,
) -> bool {
    &&& m.data.topic@ == topic
    &&& m.data.payload@ == payload
    &&& m.data.props@ == props
    &&& cmsg_with(m.cmsg, qos, retained, payload.len() as i32)
}

/// The text that `String::from_utf8_lossy` makes of a byte sequence.
pub uninterp spec fn utf8_lossy(bytes: Seq<u8>) -> Seq<char>;

/// Calls `String::from_utf8_lossy`: its documentation says that valid UTF-8
/// is decoded as is, and that each invalid sequence becomes U+FFFD; the
/// contract states the first and names the result for the rest.
#[verifier::external_body]
pub(crate) fn from_utf8_lossy(bytes: &[u8]) -> (r: String)
    ensures
        r@ == utf8_lossy(bytes@),
        valid_utf8(bytes@) ==> r@ == decode_utf8(bytes@),
{
    String::from_utf8_lossy(bytes).into_owned()
}

impl Message {
    /// Assembles a message from its C struct and data, recording the
    /// payload length in the struct.
    fn from_data(cmsg: CMessage, data: MessageData) -> (r: Message)
        ensures
            r.data == data,
            r.cmsg == (CMessage { payloadlen: data.payload@.len() as i32, ..cmsg }),
    {
        let mut cmsg = cmsg;
        cmsg.payloadlen = data.payload.len() as i32;
        Message { cmsg, data }
    }

    /// Creates a new message.
    ///
    /// # Arguments
    ///
    /// * `topic` The topic on which the message is published.
    /// * `payload` The binary payload of the message
    /// * `qos` The quality of service for message delivery (0, 1, or 2)
    pub fn new<S: IntoText, V: IntoBinary, Q: IntoQoS>(topic: S, payload: V, qos: Q) -> (r: Message)
        requires
            no_nul(topic.text_view()),
        ensures
            message_is(
                r,
                topic.text_view(),
                payload.binary_view(),
                Seq::empty(),
                qos_number(qos.qos_view()) as i32,
                0,
            ),
    {
        let mut cmsg = CMessage::default();
        cmsg.qos = qos.into_qos().value() as i32;
        let data = MessageData {
            topic: topic.into_text(),
            payload: payload.into_binary(),
            props: Properties::new(),
        };
        Self::from_data(cmsg, data)
    }

    /// Creates a new message that will be retained by the broker.
    /// This creates a message with the 'retained' flag set.
    pub fn new_retained<S: IntoText, V: IntoBinary, Q: IntoQoS>(topic: S, payload: V, qos: Q) -> (r:
        Message)
        requires
            no_nul(topic.text_view()),
        ensures
            message_is(
                r,
                topic.text_view(),
                payload.binary_view(),
                Seq::empty(),
                qos_number(qos.qos_view()) as i32,
                1,
            ),
    {
        let mut cmsg = CMessage::default();
        cmsg.qos = qos.into_qos().value() as i32;
        cmsg.retained = 1;
        let data = MessageData {
            topic: topic.into_text(),
            payload: payload.into_binary(),
            props: Properties::new(),
        };
        Self::from_data(cmsg, data)
    }

    /// Gets the topic for the message.
    pub fn topic(&self) -> (r: &str)
        ensures
            r@ == self.data.topic@,
    {
        self.data.topic.as_str()
    }

    /// Gets the payload of the message.
    /// This returns the payload as a slice.
    pub fn payload(&self) -> (r: &[u8])
        ensures
            r@ == self.data.payload@,
    {
        self.data.payload.as_slice()
    }

    /// Gets the payload of the message as a string.
    ///
    /// Valid UTF-8 is taken as it is; any invalid sequence is replaced with
    /// U+FFFD REPLACEMENT CHARACTER.
    pub fn payload_str(&self) -> (r: String)
        ensures
            r@ == utf8_lossy(self.data.payload@),
            valid_utf8(self.data.payload@) ==> r@ == decode_utf8(self.data.payload@),
    {
        from_utf8_lossy(self.data.payload.as_slice())
    }

    /// The text of the message: its topic, a colon and a space, then its
    /// payload as a string.
    pub fn to_string(&self) -> (r: String)
        ensures
            r@ == self.data.topic@ + ": "@ + utf8_lossy(self.data.payload@),
    {
        let mut s = String::from_str(self.data.topic.as_str());
        s.append(": ");
        let payload = self.payload_str();
        s.append(payload.as_str());
        s
    }

    /// Returns the Quality of Service (QOS) for the message.
    pub fn qos(&self) -> (r: QoS)
        ensures
            r == qos_from_int(self.cmsg.qos),
    {
        QoS::from_i32(self.cmsg.qos)
    }

    /// Gets the 'retain' flag for the message.
    pub fn retained(&self) -> (r: bool)
        ensures
            r == (self.cmsg.retained != 0),
    {
        self.cmsg.retained != 0
    }

    /// Gets the properties in the message
    pub fn properties(&self) -> (r: &Properties)
        ensures
            r@ == self.data.props@,
    {
        &self.data.props
    }
}

impl Default for Message {
    /// Creates a default, empty message
    fn default() -> (r: Message)
        ensures
            message_is(r, Seq::empty(), Seq::empty(), Seq::empty(), 0, 0),
    {
        let data = MessageData { topic: String::new(), payload: Vec::new(), props: Properties::new() };
        Self::from_data(CMessage::default(), data)
    }
}

impl Clone for Message {
    /// Create a clone of the message
    fn clone(&self) -> (r: Message)
        ensures
            r.cmsg == self.cmsg,
            r.data.topic@ == self.data.topic@,
            r.data.payload@ == self.data.payload@,
            r.data.props@ == self.data.props@,
    {
        Message { cmsg: self.cmsg, data: self.data.copy() }
    }
}

/// What a message builder holds.
pub struct MessageBuilderView {
    /// The topic.
    pub topic: Seq<char>,
    /// The payload.
    pub payload: Seq<u8>,
    /// The quality of service.
    pub qos: QoS,
    /// Whether the message is to be retained.
    pub retained: bool,
    /// The properties.
    pub props: Seq<PropertyView>,
}

/// Builder to create a new Message
#[derive(Debug)]
pub struct MessageBuilder {
    topic: String,
    payload: Vec<u8>,
    qos: QoS,
    retained: bool,
    props: Properties,
}

impl View for MessageBuilder {
    type V = MessageBuilderView;

    closed spec fn view(&self) -> MessageBuilderView {
        MessageBuilderView {
            topic: self.topic@,
            payload: self.payload@,
            qos: self.qos,
            retained: self.retained,
            props: self.props@,
        }
    }
}

/// What a new builder holds: an empty topic and payload, the default QoS,
/// no retain flag and no properties.
pub open spec fn builder_default() -> MessageBuilderView {
    MessageBuilderView {
        topic: Seq::empty(),
        payload: Seq::empty(),
        qos: QoS::AtLeastOnce,
        retained: false,
        props: Seq::empty(),
    }
}

impl MessageBuilder {
    /// Create a new message builder.
    pub fn new() -> (r: Self)
        ensures
            r@ == builder_default(),
    {
        let r = MessageBuilder {
            topic: String::new(),
            payload: Vec::new(),
            qos: QoS::default(),
            retained: false,
            props: Properties::new(),
        };
        proof {
            reveal_strlit("");
        }
        assert(r@.topic =~= Seq::<char>::empty());
        assert(r@.payload =~= Seq::<u8>::empty());
        r
    }

    /// Sets the topic for the message
    pub fn topic<T: IntoText>(self, topic: T) -> (r: Self)
        ensures
            r@ == (MessageBuilderView { topic: topic.text_view(), ..self@ }),
    {
        let mut b = self;
        b.topic = topic.into_text();
        b
    }

    /// Sets the payload for the message
    pub fn payload<V: IntoBinary>(self, payload: V) -> (r: Self)
        ensures
            r@ == (MessageBuilderView { payload: payload.binary_view(), ..self@ }),
    {
        let mut b = self;
        b.payload = payload.into_binary();
        b
    }

    /// Sets the Quality of Service for the message.
    pub fn qos<Q: IntoQoS>(self, qos: Q) -> (r: Self)
        ensures
            r@ == (MessageBuilderView { qos: qos.qos_view(), ..self@ }),
    {
        let mut b = self;
        b.qos = qos.into_qos();
        b
    }

    /// Sets whether or not the published message should be retained by the
    /// broker.
    pub fn retained(self, retained: bool) -> (r: Self)
        ensures
            r@ == (MessageBuilderView { retained, ..self@ }),
    {
        let mut b = self;
        b.retained = retained;
        b
    }

    /// Sets the collection of properties for the message.
    pub fn properties(self, props: Properties) -> (r: Self)
        ensures
            r@ == (MessageBuilderView { props: props@, ..self@ }),
    {
        let mut b = self;
        b.props = props;
        b
    }

    /// Finalize the builder to create the message.
    pub fn finalize(self) -> (r: Message)
        requires
            no_nul(self@.topic),
        ensures
            message_is(
                r,
                self@.topic,
                self@.payload,
                self@.props,
                qos_number(self@.qos) as i32,
                if self@.retained { 1 } else { 0 },
            ),
    {
        let mut cmsg = CMessage::default();
        cmsg.qos = self.qos.value() as i32;
        cmsg.retained = crate::to_c_bool(self.retained);
        let data = MessageData { topic: self.topic, payload: self.payload, props: self.props };
        Message::from_data(cmsg, data)
    }
}

impl Default for MessageBuilder {
    /// Create a new message builder.
    fn default() -> (r: Self)
        ensures
            r@ == builder_default(),
    {
        Self::new()
    }
}

} // verus!
