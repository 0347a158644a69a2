//! The responses that come back from the server for client requests.

use vstd::prelude::*;

use crate::properties::{Properties, PropertyView};
use crate::reason_code::{reason_code_of, ReasonCode};

verus! {

/// The server requests that expect a response.
/// This is required because the data that the C library hands back on
/// success doesn't indicate which kind of response it holds.
#[derive(Debug, Clone, Copy, PartialEq, Eq, Structural)]
pub enum ServerRequest {
    /// No response expected from the server
    NoRequest,
    /// Connecting to the server
    Connect,
    /// A subscription request for a single topic
    Subscribe,
    /// A subscription request for multiple topics
    SubscribeMany(usize),
    /// An unsubscribe request for a single topic
    Unsubscribe,
    /// An unsubscribe request for multiple topics
    UnsubscribeMany(usize),
}

impl Default for ServerRequest {
    /// No request.
    fn default() -> (r: Self)
        ensures
            r == ServerRequest::NoRequest,
    {
        ServerRequest::NoRequest
    }
}

/// The response from the server on a connect request.
#[derive(Debug)]
pub struct ConnectResponse {
    /// The URI of the server.
    pub server_uri: String,
    /// The version of MQTT granted by the server.
    pub mqtt_version: u32,
    /// Whether the client session is already present on the server.
    pub session_present: bool,
}

/// A connect response, with the server URI as characters.
pub struct ConnectResponseView {
    /// The URI of the server.
    pub server_uri: Seq<char>,
    /// The version of MQTT granted by the server.
    pub mqtt_version: u32,
    /// Whether the client session is already present on the server.
    pub session_present: bool,
}

impl View for ConnectResponse {
    type V = ConnectResponseView;

    open spec fn view(&self) -> ConnectResponseView {
        ConnectResponseView {
            server_uri: self.server_uri@,
            mqtt_version: self.mqtt_version,
            session_present: self.session_present,
        }
    }
}

impl Clone for ConnectResponse {
    /// Copies the response.
    fn clone(&self) -> (r: Self)
        ensures
            r@ == self@,
    {
        ConnectResponse {
            server_uri: self.server_uri.clone(),
            mqtt_version: self.mqtt_version,
            session_present: self.session_present,
        }
    }
}

impl Default for ConnectResponse {
    /// An empty response.
    fn default() -> (r: Self)
        ensures
            r@.server_uri == Seq::<char>::empty(),
            r@.mqtt_version == 0,
            !r@.session_present,
    {
        ConnectResponse { server_uri: String::new(), mqtt_version: 0, session_present: false }
    }
}

/// The possible responses that may come back from the server, depending on
/// the type of request.
#[derive(Debug)]
pub enum RequestResponse {
    /// No response from the server
    NoResponse,
    /// The server URI, MQTT version, and whether the session is present
    Connect(ConnectResponse),
    /// The granted QoS of the subscription
    Subscribe(i32),
    /// The granted QoS of all the subscriptions
    SubscribeMany(Vec<i32>),
    /// The result of the unsubscribe
    Unsubscribe(i32),
    /// The results of all the unsubscribes
    UnsubscribeMany(Vec<i32>),
}

/// A request response, with sequences for its data.
pub enum RequestResponseView {
    /// No response from the server
    NoResponse,
    /// The connect response
    Connect(ConnectResponseView),
    /// The granted QoS of the subscription
    Subscribe(i32),
    /// The granted QoS of all the subscriptions
    SubscribeMany(Seq<i32>),
    /// The result of the unsubscribe
    Unsubscribe(i32),
    /// The results of all the unsubscribes
    UnsubscribeMany(Seq<i32>),
}

impl View for RequestResponse {
    type V = RequestResponseView;

    open spec fn view(&self) -> RequestResponseView {
        match self {
            RequestResponse::NoResponse => RequestResponseView::NoResponse,
            RequestResponse::Connect(c) => RequestResponseView::Connect(c@),
            RequestResponse::Subscribe(q) => RequestResponseView::Subscribe(*q),
            RequestResponse::SubscribeMany(v) => RequestResponseView::SubscribeMany(v@),
            RequestResponse::Unsubscribe(q) => RequestResponseView::Unsubscribe(*q),
            RequestResponse::UnsubscribeMany(v) => RequestResponseView::UnsubscribeMany(v@),
        }
    }
}

impl Clone for RequestResponse {
    /// Copies the response.
    fn clone(&self) -> (r: Self)
        ensures
            r@ == self@,
    {
        match self {
            RequestResponse::NoResponse => RequestResponse::NoResponse,
            RequestResponse::Connect(c) => RequestResponse::Connect(c.clone()),
            RequestResponse::Subscribe(q) => RequestResponse::Subscribe(*q),
            RequestResponse::SubscribeMany(v) => RequestResponse::SubscribeMany(
                vstd::slice::slice_to_vec(v.as_slice()),
            ),
            RequestResponse::Unsubscribe(q) => RequestResponse::Unsubscribe(*q),
            RequestResponse::UnsubscribeMany(v) => RequestResponse::UnsubscribeMany(
                vstd::slice::slice_to_vec(v.as_slice()),
            ),
        }
    }
}

impl Default for RequestResponse {
    /// No response.
    fn default() -> (r: Self)
        ensures
            r@ == RequestResponseView::NoResponse,
    {
        RequestResponse::NoResponse
    }
}

/// The data that the client engine hands back when an MQTT v3 request
/// succeeds.
pub struct SuccessData {
    /// The granted QoS of a single subscription.
    pub qos: i32,
    /// The granted QoS of each of many subscriptions, if the engine gave a
    /// list.
    pub qos_list: Option<Vec<i32>>,
    /// The URI of the server connected to.
    pub server_uri: String,
    /// The MQTT version of the connection.
    pub mqtt_version: i32,
    /// Whether the session was present on the server (non-zero).
    pub session_present: i32,
}

/// The data that the client engine hands back when an MQTT v5 request
/// succeeds.
pub struct SuccessData5 {
    /// The reason code of the response (the granted QoS of a single
    /// subscription).
    pub reason_code: u32,
    /// The properties of the response.
    pub props: Properties,
    /// The URI of the server connected to.
    pub server_uri: String,
    /// The MQTT version of the connection.
    pub mqtt_version: i32,
    /// Whether the session was present on the server (non-zero).
    pub session_present: i32,
    /// The number of reason codes of a subscribe or unsubscribe of many
    /// topics.
    pub reason_code_count: i32,
    /// The reason codes of a subscribe or unsubscribe of many topics, if
    /// the engine gave a list.
    pub reason_codes: Option<Vec<u32>>,
}

/// The codes of a response to many (un)subscriptions: the single reason
/// code when there is one topic, else as many codes of the list as both the
/// request and the engine count, each as an `i32`.
pub open spec fn many_codes(n: usize, data: SuccessData5) -> Seq<i32> {
    let count = data.reason_code_count as usize;
    let m = if n <= count {
        n
    } else {
        count
    };
    if m == 1 {
        seq![data.reason_code as i32]
    } else {
        match data.reason_codes {
            Some(list) => list@.take(m as int).map_values(|c: u32| c as i32),
            None => Seq::empty(),
        }
    }
}

/// The response that success data gives for a v5 request: the connection
/// details for a connect, the reason code for a single (un)subscription,
/// and the codes for many.
pub open spec fn success5_response(req: ServerRequest, data: SuccessData5) -> RequestResponseView {
    match req {
        ServerRequest::Connect => RequestResponseView::Connect(
            ConnectResponseView {
                server_uri: data.server_uri@,
                mqtt_version: data.mqtt_version as u32,
                session_present: data.session_present != 0,
            },
        ),
        ServerRequest::Subscribe => RequestResponseView::Subscribe(data.reason_code as i32),
        ServerRequest::SubscribeMany(n) => RequestResponseView::SubscribeMany(many_codes(n, data)),
        ServerRequest::Unsubscribe => RequestResponseView::Unsubscribe(data.reason_code as i32),
        ServerRequest::UnsubscribeMany(n) => RequestResponseView::UnsubscribeMany(
            many_codes(n, data),
        ),
        _ => RequestResponseView::NoResponse,
    }
}

/// Whether the engine's list holds all the codes that a response to many
/// (un)subscriptions reads.
pub open spec fn codes_readable(n: usize, data: SuccessData5) -> bool {
    let count = data.reason_code_count as usize;
    let m = if n <= count {
        n
    } else {
        count
    };
    m != 1 ==> (data.reason_codes matches Some(list) ==> m <= list@.len())
}

/// Reads the codes of a response to many (un)subscriptions.
fn read_many_codes(n: usize, data: &SuccessData5) -> (r: Vec<i32>)
    requires
        codes_readable(n, *data),
    ensures
        r@ == many_codes(n, *data),
{
    let count = data.reason_code_count as usize;
    let m = if n <= count {
        n
    } else {
        count
    };
    let mut codes: Vec<i32> = Vec::new();
    if m == 1 {
        codes.push(data.reason_code as i32);
        assert(codes@ =~= seq![data.reason_code as i32]);
    } else {
        match &data.reason_codes {
            Some(list) => {
                let mut i: usize = 0;
                while i < m
                    invariant
                        m <= list@.len(),
                        i <= m,
                        codes@ == list@.take(i as int).map_values(|c: u32| c as i32),
                    decreases m - i,
                {
                    codes.push(list[i] as i32);
                    i = i + 1;
                    assert(codes@ =~= list@.take(i as int).map_values(|c: u32| c as i32));
                }
            },
            None => {
                assert(codes@ =~= Seq::<i32>::empty());
            },
        }
    }
    codes
}

/// A server response, by its parts.
pub struct ServerResponseView {
    /// The request-specific response
    pub rsp: RequestResponseView,
    /// MQTT v5 Properties
    pub props: Seq<PropertyView>,
    /// MQTT v5 Reason Code
    pub reason_code: ReasonCode,
}

/// Responses coming back from the server from client requests.
#[derive(Debug)]
pub struct ServerResponse {
    rsp: RequestResponse,
    props: Properties,
    reason_code: ReasonCode,
}

impl View for ServerResponse {
    type V = ServerResponseView;

    closed spec fn view(&self) -> ServerResponseView {
        ServerResponseView { rsp: self.rsp@, props: self.props@, reason_code: self.reason_code }
    }
}

/// The response that success data gives for a v3 request: the connection
/// details for a connect, the granted QoS for a subscribe, and for many
/// subscriptions the single QoS when there is one, else the list.
pub open spec fn success_response(req: ServerRequest, data: SuccessData) -> RequestResponseView {
    match req {
        ServerRequest::Connect => RequestResponseView::Connect(
            ConnectResponseView {
                server_uri: data.server_uri@,
                mqtt_version: data.mqtt_version as u32,
                session_present: data.session_present != 0,
            },
        ),
        ServerRequest::Subscribe => RequestResponseView::Subscribe(data.qos),
        ServerRequest::SubscribeMany(n) => RequestResponseView::SubscribeMany(
            if n == 1 {
                seq![data.qos]
            } else {
                match data.qos_list {
                    Some(list) => list@.take(n as int),
                    None => Seq::empty(),
                }
            },
        ),
        _ => RequestResponseView::NoResponse,
    }
}

impl ServerResponse {
    /// Creates a new, empty, server response.
    pub fn new() -> (r: Self)
        ensures
            r@ == (ServerResponseView {
                rsp: RequestResponseView::NoResponse,
                props: Seq::empty(),
                reason_code: ReasonCode::Success,
            }),
    {
        ServerResponse {
            rsp: RequestResponse::NoResponse,
            props: Properties::new(),
            reason_code: ReasonCode::Success,
        }
    }

    /// Creates the response from the data of a successful v3 request.
    pub fn from_success(req: ServerRequest, data: &SuccessData) -> (r: Self)
        requires
            req matches ServerRequest::SubscribeMany(n) ==> (n != 1 ==> (data.qos_list matches Some(
                list,
            ) ==> n <= list@.len())),
        ensures
            r@ == (ServerResponseView {
                rsp: success_response(req, *data),
                props: Seq::empty(),
                reason_code: ReasonCode::Success,
            }),
    {
        let rsp = match req {
            ServerRequest::Connect => RequestResponse::Connect(
                ConnectResponse {
                    server_uri: data.server_uri.clone(),
                    mqtt_version: data.mqtt_version as u32,
                    session_present: crate::from_c_bool(data.session_present),
                },
            ),
            ServerRequest::Subscribe => RequestResponse::Subscribe(data.qos),
            ServerRequest::SubscribeMany(n) => {
                let mut qosv: Vec<i32> = Vec::new();
                if n == 1 {
                    qosv.push(data.qos);
                } else {
                    match &data.qos_list {
                        Some(list) => {
                            let mut i: usize = 0;
                            while i < n
                                invariant
                                    n <= list@.len(),
                                    i <= n,
                                    qosv@ == list@.take(i as int),
                                decreases n - i,
                            {
                                qosv.push(list[i]);
                                i = i + 1;
                                assert(qosv@ =~= list@.take(i as int));
                            }
                        },
                        None => {},
                    }
                }
                assert(n == 1 ==> qosv@ =~= seq![data.qos]);
                RequestResponse::SubscribeMany(qosv)
            },
            _ => RequestResponse::NoResponse,
        };
        ServerResponse { rsp, props: Properties::new(), reason_code: ReasonCode::Success }
    }

    /// Creates the response from the data of a successful v5 request,
    /// with its properties and reason code.
    pub fn from_success5(req: ServerRequest, data: SuccessData5) -> (r: Self)
        requires
            req matches ServerRequest::SubscribeMany(n) ==> codes_readable(n, data),
            req matches ServerRequest::UnsubscribeMany(n) ==> codes_readable(n, data),
        ensures
            r@ == (ServerResponseView {
                rsp: success5_response(req, data),
                props: data.props@,
                reason_code: reason_code_of(data.reason_code),
            }),
    {
        let reason_code = ReasonCode::from_u32(data.reason_code);
        let rsp = match req {
            ServerRequest::Connect => RequestResponse::Connect(
                ConnectResponse {
                    server_uri: data.server_uri.clone(),
                    mqtt_version: data.mqtt_version as u32,
                    session_present: crate::from_c_bool(data.session_present),
                },
            ),
            ServerRequest::Subscribe => RequestResponse::Subscribe(data.reason_code as i32),
            ServerRequest::SubscribeMany(n) => RequestResponse::SubscribeMany(
                read_many_codes(n, &data),
            ),
            ServerRequest::Unsubscribe => RequestResponse::Unsubscribe(data.reason_code as i32),
            ServerRequest::UnsubscribeMany(n) => RequestResponse::UnsubscribeMany(
                read_many_codes(n, &data),
            ),
            _ => RequestResponse::NoResponse,
        };
        ServerResponse { rsp, props: data.props, reason_code }
    }

    /// Creates the response from the data of a failed v5 request: its
    /// properties and reason code.
    pub fn from_failure5(props: Properties, reason_code: u32) -> (r: Self)
        ensures
            r@ == (ServerResponseView {
                rsp: RequestResponseView::NoResponse,
                props: props@,
                reason_code: reason_code_of(reason_code),
            }),
    {
        ServerResponse {
            rsp: RequestResponse::NoResponse,
            props,
            reason_code: ReasonCode::from_u32(reason_code),
        }
    }

    /// Gets the response for the specific type of request.
    pub fn request_response(&self) -> (r: &RequestResponse)
        ensures
            r@ == self@.rsp,
    {
        &self.rsp
    }

    /// Gets the response for a connection request
    pub fn connect_response(&self) -> (r: Option<ConnectResponse>)
        ensures
            match self@.rsp {
                RequestResponseView::Connect(c) => r matches Some(x) && x@ == c,
                _ => r is None,
            },
    {
        match &self.rsp {
            RequestResponse::Connect(conn_rsp) => Some(conn_rsp.clone()),
            _ => None,
        }
    }

    /// Gets the response for a subscription request.
    pub fn subscribe_response(&self) -> (r: Option<i32>)
        ensures
            r == match self@.rsp {
                RequestResponseView::Subscribe(q) => Some(q),
                _ => None,
            },
    {
        match &self.rsp {
            RequestResponse::Subscribe(qos) => Some(*qos),
            _ => None,
        }
    }

    /// Gets the response for a multi-topic subscription request.
    pub fn subscribe_many_response(&self) -> (r: Option<Vec<i32>>)
        ensures
            match self@.rsp {
                RequestResponseView::SubscribeMany(v) => r matches Some(x) && x@ == v,
                _ => r is None,
            },
    {
        match &self.rsp {
            RequestResponse::SubscribeMany(qosv) => Some(vstd::slice::slice_to_vec(qosv.as_slice())),
            _ => None,
        }
    }

    /// Gets the response for an unsubscribe request.
    pub fn unsubscribe_response(&self) -> (r: Option<i32>)
        ensures
            r == match self@.rsp {
                RequestResponseView::Unsubscribe(q) => Some(q),
                _ => None,
            },
    {
        match &self.rsp {
            RequestResponse::Unsubscribe(qos) => Some(*qos),
            _ => None,
        }
    }

    /// Gets the response for a multi-topic unsubscribe request.
    pub fn unsubscribe_many_response(&self) -> (r: Option<Vec<i32>>)
        ensures
            match self@.rsp {
                RequestResponseView::UnsubscribeMany(v) => r matches Some(x) && x@ == v,
                _ => r is None,
            },
    {
        match &self.rsp {
            RequestResponse::UnsubscribeMany(qosv) => Some(
                vstd::slice::slice_to_vec(qosv.as_slice()),
            ),
            _ => None,
        }
    }

    /// Gets the properties returned from the server.
    pub fn properties(&self) -> (r: &Properties)
        ensures
            r@ == self@.props,
    {
        &self.props
    }

    /// Gets the reason code returned from the server.
    pub fn reason_code(&self) -> (r: ReasonCode)
        ensures
            r == self@.reason_code,
    {
        self.reason_code
    }
}

impl Default for ServerResponse {
    /// An empty response.
    fn default() -> (r: Self)
        ensures
            r@ == (ServerResponseView {
                rsp: RequestResponseView::NoResponse,
                props: Seq::empty(),
                reason_code: ReasonCode::Success,
            }),
    {
        Self::new()
    }
}

impl Clone for ServerResponse {
    /// Copies the response, its properties included.
    fn clone(&self) -> (r: Self)
        ensures
            r@ == self@,
    {
        ServerResponse {
            rsp: self.rsp.clone(),
            props: self.props.clone(),
            reason_code: self.reason_code,
        }
    }
}


/// A response to a subscription of (or an unsubscription from) `n` topics
/// holds one code per topic the engine reported on, `min(n, count)` of
/// them: the response's own reason code when that is a single one, and
/// otherwise the engine's list in order, each code as a number; without a
/// list there are no codes.
pub proof fn lemma_many_codes_one_per_topic(n: usize, data: SuccessData5)
    requires
        codes_readable(n, data),
    ensures
        ({
            let count = data.reason_code_count as usize;
            let codes = many_codes(n, data);
            &&& (n == 1 && count >= 1 || count == 1 && n >= 1) ==> codes == seq![
                data.reason_code as i32,
            ]
            &&& !(n == 1 && count >= 1 || count == 1 && n >= 1) ==> match data.reason_codes {
                Some(list) => {
                    &&& codes.len() <= n && codes.len() <= count
                    &&& (codes.len() == n || codes.len() == count)
                    &&& forall|i: int| 0 <= i < codes.len() ==> #[trigger] codes[i] == list@[i] as i32
                },
                None => codes.len() == 0,
            }
        }),
{
}

/// A response to many subscriptions made from the engine's data holds the
/// codes of `many_codes`, and so one code per subscribed topic.
pub proof fn lemma_subscribe_many_response_codes(n: usize, data: SuccessData5)
    requires
        codes_readable(n, data),
    ensures
        success5_response(ServerRequest::SubscribeMany(n), data) == RequestResponseView::SubscribeMany(
            many_codes(n, data),
        ),
        success5_response(ServerRequest::UnsubscribeMany(n), data)
            == RequestResponseView::UnsubscribeMany(many_codes(n, data)),
{
}


/// A v3 response to a subscription of `n` topics holds one granted QoS per
/// topic: the single QoS for one topic, otherwise the first `n` entries of
/// the engine's list, in order; without a list there are none.
pub proof fn lemma_v3_subscribe_many_one_per_topic(n: usize, data: SuccessData)
    requires
        n != 1 ==> (data.qos_list matches Some(list) ==> n <= list@.len()),
    ensures
        success_response(ServerRequest::SubscribeMany(n), data) matches RequestResponseView::SubscribeMany(
            codes,
        ) && (n == 1 ==> codes == seq![data.qos]) && (n != 1 ==> match data.qos_list {
            Some(list) => codes.len() == n && forall|i: int| 0 <= i < n ==> #[trigger] codes[i] == list@[i],
            None => codes.len() == 0,
        }),
{
}

} // verus!
