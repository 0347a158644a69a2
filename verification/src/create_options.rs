//! Options for creating a client.

#![allow(non_snake_case)]

use std::any::Any;
use vstd::prelude::*;

use crate::errors::Error;
use crate::strings::IntoText;
use crate::types::{mqtt_version_number, mqtt_version_of, IntoMqttVersion, MqttVersion};

verus! {

/// The version of the C create options struct that this library fills.
pub const CREATE_OPTIONS_STRUCT_VERSION: i32 = 2;

/// Trait to implement custom persistence in the client.
///
/// The client engine calls these to keep messages across restarts; what
/// they do is up to the application.
pub trait ClientPersistence: Send {
    /// Open and initialize the persistent store.
    /// `client_id` is the unique client identifier and `server_uri` the
    /// address of the server to which the client is connected.
    fn open(&mut self, client_id: &str, server_uri: &str) -> Result<(), Error>;

    /// Close the persistence store.
    fn close(&mut self) -> Result<(), Error>;

    /// Put data into the persistence store under the key.
    fn put(&mut self, key: &str, buffers: Vec<&[u8]>) -> Result<(), Error>;

    /// Gets data from the persistence store.
    fn get(&self, key: &str) -> Result<Vec<u8>, Error>;

    /// Removes data for the specified key.
    fn remove(&mut self, key: &str) -> Result<(), Error>;

    /// Gets the keys that are currently in the persistence store
    fn keys(&self) -> Result<Vec<String>, Error>;

    /// Clear the persistence store so that it no longer contains any data.
    fn clear(&mut self) -> Result<(), Error>;

    /// Determines if the persistence store contains the key.
    fn contains_key(&self, key: &str) -> bool;
}

/// The type of persistence for the client.
///
/// There is a built-in mechanism for using the file system to persist
/// messages and data. The `File` selection will use that in the current
/// working directory. A path can also be specified, with `FilePath`,
/// and then the persistence store will be created under that directory.
/// Each client will create a directory under that using the MQTT client
/// ID and server URL to name the directory. Therefore, a client ID is
/// required by the library when using persistence.
pub enum PersistenceType {
    /// Messages are persisted to files in a local directory (default).
    File,
    /// Messages are persisted to files under the specified directory.
    FilePath(String),
    /// No persistence is used.
    NoPersistence,
    /// A user-defined persistence provided by the application.
    User(Box<Box<dyn ClientPersistence>>),
}

/// The kind of persistence, with the directory of file persistence.
pub enum PersistenceView {
    /// Files in the working directory.
    File,
    /// Files under the directory.
    FilePath(Seq<char>),
    /// No persistence.
    NoPersistence,
    /// A user-defined store.
    User,
}

impl View for PersistenceType {
    type V = PersistenceView;

    open spec fn view(&self) -> PersistenceView {
        match self {
            PersistenceType::File => PersistenceView::File,
            PersistenceType::FilePath(p) => PersistenceView::FilePath(p@),
            PersistenceType::NoPersistence => PersistenceView::NoPersistence,
            PersistenceType::User(_) => PersistenceView::User,
        }
    }
}

impl Default for PersistenceType {
    /// No persistence.
    fn default() -> (r: Self)
        ensures
            r@ == PersistenceView::NoPersistence,
    {
        PersistenceType::NoPersistence
    }
}

/// A value that selects a kind of persistence: the kind itself, a
/// directory for file persistence, or an optional kind where absence means
/// no persistence.
pub trait IntoPersistence: Sized {
    /// The persistence that the value selects.
    spec fn persistence_view(&self) -> PersistenceView;

    /// Converts the value into a persistence type.
    fn into_persistence(self) -> (r: PersistenceType)
        ensures
            r@ == self.persistence_view(),
    ;
}

impl IntoPersistence for PersistenceType {
    open spec fn persistence_view(&self) -> PersistenceView {
        self@
    }

    fn into_persistence(self) -> (r: PersistenceType) {
        self
    }
}

impl<'a> IntoPersistence for &'a str {
    open spec fn persistence_view(&self) -> PersistenceView {
        PersistenceView::FilePath(self@)
    }

    fn into_persistence(self) -> (r: PersistenceType) {
        PersistenceType::FilePath(String::from_str(self))
    }
}

impl IntoPersistence for String {
    open spec fn persistence_view(&self) -> PersistenceView {
        PersistenceView::FilePath(self@)
    }

    fn into_persistence(self) -> (r: PersistenceType) {
        PersistenceType::FilePath(self)
    }
}

impl IntoPersistence for Option<PersistenceType> {
    open spec fn persistence_view(&self) -> PersistenceView {
        match self {
            Some(p) => p@,
            None => PersistenceView::NoPersistence,
        }
    }

    fn into_persistence(self) -> (r: PersistenceType) {
        match self {
            Some(p) => p,
            None => PersistenceType::NoPersistence,
        }
    }
}

/// The plain fields of the C library's create options struct.
#[derive(Debug, Clone, Copy)]
pub struct CCreateOptions {
    /// The struct identifier, "MQCO".
    pub struct_id: [u8; 4],
    /// The version of the struct.
    pub struct_version: i32,
    /// Whether messages can be published while disconnected (non-zero).
    pub sendWhileDisconnected: i32,
    /// The maximum number of messages buffered while disconnected.
    pub maxBufferedMessages: i32,
    /// The MQTT version the client is created for.
    pub MQTTVersion: i32,
    /// Whether messages can be sent before the first connect (non-zero).
    pub allowDisconnectedSendAtAnyTime: i32,
    /// Whether the oldest buffered message goes when the buffer is full.
    pub deleteOldestMessages: i32,
    /// Whether persisted messages are restored on create.
    pub restoreMessages: i32,
    /// Whether QoS 0 messages are persisted.
    pub persistQoS0: i32,
}

/// The C library's create options initializer, for a client that can use
/// MQTT v3.x or v5.
pub open spec fn default_create_copts() -> CCreateOptions {
    CCreateOptions {
        struct_id: [77u8, 81u8, 67u8, 79u8],
        struct_version: CREATE_OPTIONS_STRUCT_VERSION,
        sendWhileDisconnected: 0,
        maxBufferedMessages: 100,
        MQTTVersion: 5,
        allowDisconnectedSendAtAnyTime: 0,
        deleteOldestMessages: 0,
        restoreMessages: 1,
        persistQoS0: 1,
    }
}

/// The create options initializer for a client that can only use MQTT v3.x.
pub open spec fn v3_create_copts() -> CCreateOptions {
    CCreateOptions { MQTTVersion: 0, ..default_create_copts() }
}

impl Default for CCreateOptions {
    /// The C library's create options initializer.
    fn default() -> (r: Self)
        ensures
            r == default_create_copts(),
    {
        CCreateOptions {
            struct_id: [77u8, 81u8, 67u8, 79u8],
            struct_version: CREATE_OPTIONS_STRUCT_VERSION,
            sendWhileDisconnected: 0,
            maxBufferedMessages: 100,
            MQTTVersion: 5,
            allowDisconnectedSendAtAnyTime: 0,
            deleteOldestMessages: 0,
            restoreMessages: 1,
            persistQoS0: 1,
        }
    }
}

impl CCreateOptions {
    /// Creates options for a client that can only connect using MQTT v3.x
    pub fn new_v3() -> (r: Self)
        ensures
            r == v3_create_copts(),
    {
        let mut r = CCreateOptions::default();
        r.MQTTVersion = 0;
        r
    }
}

/// Data that an application attaches to a client: any value that can be
/// shared between threads, in a box. The library only carries it: the box
/// is opaque to the verifier, which cannot name the `Any` trait, and no
/// contract looks inside it.
#[verifier::external_body]
pub struct UserData(pub Box<dyn Any + Send + Sync>);

/// The options for creating an MQTT client.
/// This can be constructed using a
/// [CreateOptionsBuilder](struct.CreateOptionsBuilder.html).
pub struct CreateOptions {
    /// The underlying C option structure
    pub copts: CCreateOptions,
    /// The URI for the MQTT broker.
    pub server_uri: String,
    /// The unique name for the client.
    /// This can be left empty for the server to assign a random name.
    pub client_id: String,
    /// The type of persistence used by the client.
    pub persistence: PersistenceType,
    /// User-defined data, if any, for the client.
    pub user_data: Option<UserData>,
}

/// Whether create options hold the C options, server URI, client ID and
/// persistence.
pub open spec fn create_options_are(
    o: CreateOptions,
    copts: CCreateOptions,
    server_uri: Seq<char>,
    client_id: Seq<char>,
    persistence: PersistenceView,
) -> bool {
    &&& o.copts == copts
    &&& o.server_uri@ == server_uri
    &&& o.client_id@ == client_id
    &&& o.persistence@ == persistence
}

/// The persistence used for a client ID: file persistence without a client
/// ID is turned off, as the library needs the ID to name the store.
pub open spec fn persistence_for(p: PersistenceView, client_id: Seq<char>) -> PersistenceView {
    match p {
        PersistenceView::File => if client_id.len() == 0 {
            PersistenceView::NoPersistence
        } else {
            PersistenceView::File
        },
        _ => p,
    }
}

impl CreateOptions {
    /// Create options for a client that can connect using MQTT v3.x or v5.
    pub fn new() -> (r: Self)
        ensures
            create_options_are(
                r,
                default_create_copts(),
                Seq::empty(),
                Seq::empty(),
                PersistenceView::NoPersistence,
            ),
            r.user_data is None,
    {
        let r = CreateOptions {
            copts: CCreateOptions::default(),
            server_uri: String::new(),
            client_id: String::new(),
            persistence: PersistenceType::NoPersistence,
            user_data: None,
        };
        proof {
            reveal_strlit("");
        }
        r
    }

    /// Create options for a client that can only connect using MQTT v3.x.
    pub fn new_v3() -> (r: Self)
        ensures
            create_options_are(
                r,
                v3_create_copts(),
                Seq::empty(),
                Seq::empty(),
                PersistenceView::NoPersistence,
            ),
            r.user_data is None,
    {
        let mut r = Self::new();
        r.copts = CCreateOptions::new_v3();
        r
    }

    /// Gets the MQTT protocol version used when creating the client.
    ///
    /// This version is used by the client as the default when connecting.
    /// It can be overridden in the connect options to request a different
    /// version, but typically this is the highest version that can be used
    /// by the client.
    pub fn mqtt_version(&self) -> (r: MqttVersion)
        ensures
            r == mqtt_version_of(self.copts.MQTTVersion as u32),
    {
        MqttVersion::from_i32(self.copts.MQTTVersion)
    }

    /// Gets the raw, integer value of the MQTT version.
    pub fn mqtt_version_raw(&self) -> (r: u32)
        ensures
            r == self.copts.MQTTVersion as u32,
    {
        self.copts.MQTTVersion as u32
    }

    /// Create options for a server URI and client ID, with file persistence
    /// when there is a client ID.
    fn with_uri_and_id(server_uri: String, client_id: String) -> (r: Self)
        ensures
            create_options_are(
                r,
                default_create_copts(),
                server_uri@,
                client_id@,
                if client_id@.len() == 0 {
                    PersistenceView::NoPersistence
                } else {
                    PersistenceView::File
                },
            ),
            r.user_data is None,
    {
        let mut opts = Self::new();
        opts.server_uri = server_uri;
        let empty = client_id.as_str().unicode_len() == 0;
        opts.client_id = client_id;
        if !empty {
            opts.persistence = PersistenceType::File;
        }
        opts
    }
}

impl Default for CreateOptions {
    /// Create options for a client that can connect using MQTT v3.x or v5.
    fn default() -> (r: Self)
        ensures
            create_options_are(
                r,
                default_create_copts(),
                Seq::empty(),
                Seq::empty(),
                PersistenceView::NoPersistence,
            ),
            r.user_data is None,
    {
        Self::new()
    }
}

impl<'a> From<&'a str> for CreateOptions {
    /// Options for a server URI, with the defaults otherwise.
    fn from(server_uri: &'a str) -> (r: Self)
        ensures
            create_options_are(
                r,
                default_create_copts(),
                server_uri@,
                Seq::empty(),
                PersistenceView::NoPersistence,
            ),
            r.user_data is None,
    {
        let mut opts = Self::new();
        opts.server_uri = String::from_str(server_uri);
        opts
    }
}

impl<'a> vstd::std_specs::convert::FromSpecImpl<&'a str> for CreateOptions {
    /// The options hold strings, which no spec value can be built from; the
    /// `from` impl states its result itself.
    open spec fn obeys_from_spec() -> bool {
        false
    }

    open spec fn from_spec(v: &'a str) -> CreateOptions {
        arbitrary()
    }
}

impl From<String> for CreateOptions {
    /// Options for a server URI, with the defaults otherwise.
    fn from(server_uri: String) -> (r: Self)
        ensures
            create_options_are(
                r,
                default_create_copts(),
                server_uri@,
                Seq::empty(),
                PersistenceView::NoPersistence,
            ),
            r.user_data is None,
    {
        let mut opts = Self::new();
        opts.server_uri = server_uri;
        opts
    }
}

impl vstd::std_specs::convert::FromSpecImpl<String> for CreateOptions {
    /// The options hold strings, which no spec value can be built from; the
    /// `from` impl states its result itself.
    open spec fn obeys_from_spec() -> bool {
        false
    }

    open spec fn from_spec(v: String) -> CreateOptions {
        arbitrary()
    }
}

impl<'a, 'b> From<(&'a str, &'b str)> for CreateOptions {
    /// Constructs the create options from two string reference giving the
    /// server URI and Client ID.
    fn from(ids: (&'a str, &'b str)) -> (r: Self)
        ensures
            create_options_are(
                r,
                default_create_copts(),
                ids.0@,
                ids.1@,
                if ids.1@.len() == 0 {
                    PersistenceView::NoPersistence
                } else {
                    PersistenceView::File
                },
            ),
            r.user_data is None,
    {
        Self::with_uri_and_id(String::from_str(ids.0), String::from_str(ids.1))
    }
}

impl<'a, 'b> vstd::std_specs::convert::FromSpecImpl<(&'a str, &'b str)> for CreateOptions {
    /// The options hold strings, which no spec value can be built from; the
    /// `from` impl states its result itself.
    open spec fn obeys_from_spec() -> bool {
        false
    }

    open spec fn from_spec(v: (&'a str, &'b str)) -> CreateOptions {
        arbitrary()
    }
}

impl From<(String, String)> for CreateOptions {
    /// Constructs the create options from two strings giving the server URI
    /// and Client ID.
    fn from(ids: (String, String)) -> (r: Self)
        ensures
            create_options_are(
                r,
                default_create_copts(),
                ids.0@,
                ids.1@,
                if ids.1@.len() == 0 {
                    PersistenceView::NoPersistence
                } else {
                    PersistenceView::File
                },
            ),
            r.user_data is None,
    {
        Self::with_uri_and_id(ids.0, ids.1)
    }
}

impl vstd::std_specs::convert::FromSpecImpl<(String, String)> for CreateOptions {
    /// The options hold strings, which no spec value can be built from; the
    /// `from` impl states its result itself.
    open spec fn obeys_from_spec() -> bool {
        false
    }

    open spec fn from_spec(v: (String, String)) -> CreateOptions {
        arbitrary()
    }
}

/// What a create options builder holds.
pub struct CreateOptionsBuilderView {
    /// The C options.
    pub copts: CCreateOptions,
    /// The server URI.
    pub server_uri: Seq<char>,
    /// The client ID.
    pub client_id: Seq<char>,
    /// The persistence.
    pub persistence: PersistenceView,
    /// The user data.
    pub user_data: Option<UserData>,
}

/// Builder to construct client creation options.
pub struct CreateOptionsBuilder {
    copts: CCreateOptions,
    server_uri: String,
    client_id: String,
    persistence: PersistenceType,
    user_data: Option<UserData>,
}

impl View for CreateOptionsBuilder {
    type V = CreateOptionsBuilderView;

    closed spec fn view(&self) -> CreateOptionsBuilderView {
        CreateOptionsBuilderView {
            copts: self.copts,
            server_uri: self.server_uri@,
            client_id: self.client_id@,
            persistence: self.persistence@,
            user_data: self.user_data,
        }
    }
}

/// A builder with the C options and otherwise empty settings.
pub open spec fn builder_with(copts: CCreateOptions) -> CreateOptionsBuilderView {
    CreateOptionsBuilderView {
        copts,
        server_uri: Seq::empty(),
        client_id: Seq::empty(),
        persistence: PersistenceView::NoPersistence,
        user_data: None,
    }
}

/// The largest of two integers.
pub open spec fn max_i32(a: i32, b: i32) -> i32 {
    if a >= b {
        a
    } else {
        b
    }
}

impl CreateOptionsBuilder {
    /// Constructs a builder for a client that can connect using MQTT v3.x
    /// or v5.
    pub fn new() -> (r: Self)
        ensures
            r@ == builder_with(default_create_copts()),
    {
        let r = CreateOptionsBuilder {
            copts: CCreateOptions::default(),
            server_uri: String::new(),
            client_id: String::new(),
            persistence: PersistenceType::NoPersistence,
            user_data: None,
        };
        proof {
            reveal_strlit("");
        }
        r
    }

    /// Constructs a builder for a client that can only connect using MQTT v3.x.
    pub fn new_v3() -> (r: Self)
        ensures
            r@ == builder_with(v3_create_copts()),
    {
        let mut r = Self::new();
        r.copts = CCreateOptions::new_v3();
        r
    }

    /// Sets the the URI to the MQTT broker, in the form
    /// _protocol://host:port_.
    pub fn server_uri<S: IntoText>(self, server_uri: S) -> (r: Self)
        ensures
            r@ == (CreateOptionsBuilderView { server_uri: server_uri.text_view(), ..self@ }),
    {
        let mut b = self;
        b.server_uri = server_uri.into_text();
        b
    }

    /// Sets the client identifier string that is sent to the server.
    /// This can be an empty string, in which case the server will assign a
    /// random name for the client (with a clean session).
    pub fn client_id<S: IntoText>(self, client_id: S) -> (r: Self)
        ensures
            r@ == (CreateOptionsBuilderView { client_id: client_id.text_view(), ..self@ }),
    {
        let mut b = self;
        b.client_id = client_id.into_text();
        b
    }

    /// Sets the type of persistence used by the client.
    pub fn persistence<P: IntoPersistence>(self, persist: P) -> (r: Self)
        ensures
            r@ == (CreateOptionsBuilderView { persistence: persist.persistence_view(), ..self@ }),
    {
        let mut b = self;
        b.persistence = persist.into_persistence();
        b
    }

    /// Sets a user-defined persistence store, anything that implements the
    /// `ClientPersistence` trait.
    pub fn user_persistence<T: ClientPersistence + 'static>(self, persistence: T) -> (r: Self)
        ensures
            r@ == (CreateOptionsBuilderView { persistence: PersistenceView::User, ..self@ }),
    {
        let mut b = self;
        let inner: Box<dyn ClientPersistence> = Box::new(persistence);
        b.persistence = PersistenceType::User(Box::new(inner));
        b
    }

    /// Sets the user-defined data to hand to the client.
    pub fn user_data(self, data: UserData) -> (r: Self)
        ensures
            r@ == (CreateOptionsBuilderView { user_data: Some(data), ..self@ }),
    {
        let mut b = self;
        b.user_data = Some(data);
        b
    }

    /// Sets the maximum number of messages that can be buffered for delivery.
    ///
    /// The library keeps at least four slots, as it needs some to send
    /// messages even when connected. Setting zero also disables any off-line
    /// buffering.
    pub fn max_buffered_messages(self, n: i32) -> (r: Self)
        ensures
            r@ == (CreateOptionsBuilderView {
                copts: CCreateOptions {
                    maxBufferedMessages: max_i32(4, n),
                    sendWhileDisconnected: if n == 0 {
                        0
                    } else {
                        self@.copts.sendWhileDisconnected
                    },
                    ..self@.copts
                },
                ..self@
            }),
    {
        let mut b = self;
        b.copts.maxBufferedMessages = if n >= 4 { n } else { 4 };
        if n == 0 {
            b.copts.sendWhileDisconnected = 0;
        }
        b
    }

    /// Allow the application to send (publish) messages while disconnected.
    pub fn send_while_disconnected(self, on: bool) -> (r: Self)
        ensures
            r@ == (CreateOptionsBuilderView {
                copts: CCreateOptions {
                    sendWhileDisconnected: if on { 1i32 } else { 0i32 },
                    ..self@.copts
                },
                ..self@
            }),
    {
        let mut b = self;
        b.copts.sendWhileDisconnected = crate::to_c_bool(on);
        b
    }

    /// Sets the version of MQTT to use on the connect.
    pub fn mqtt_version<V: IntoMqttVersion>(self, ver: V) -> (r: Self)
        ensures
            r@ == (CreateOptionsBuilderView {
                copts: CCreateOptions {
                    MQTTVersion: mqtt_version_number(ver.version_view()) as i32,
                    ..self@.copts
                },
                ..self@
            }),
    {
        let mut b = self;
        b.copts.MQTTVersion = ver.into_mqtt_version().value() as i32;
        b
    }

    /// Allow sending of messages while disconnected before a first successful
    /// connect.
    pub fn allow_disconnected_send_at_anytime(self, allow: bool) -> (r: Self)
        ensures
            r@ == (CreateOptionsBuilderView {
                copts: CCreateOptions {
                    allowDisconnectedSendAtAnyTime: if allow { 1i32 } else { 0i32 },
                    ..self@.copts
                },
                ..self@
            }),
    {
        let mut b = self;
        b.copts.allowDisconnectedSendAtAnyTime = crate::to_c_bool(allow);
        b
    }

    /// When the maximum number of buffered messages is reached, delete the
    /// oldest rather than the newest.
    pub fn delete_oldest_messages(self, delete_oldest: bool) -> (r: Self)
        ensures
            r@ == (CreateOptionsBuilderView {
                copts: CCreateOptions {
                    deleteOldestMessages: if delete_oldest { 1i32 } else { 0i32 },
                    ..self@.copts
                },
                ..self@
            }),
    {
        let mut b = self;
        b.copts.deleteOldestMessages = crate::to_c_bool(delete_oldest);
        b
    }

    /// If set, messages from persistence are restored on create. Defaults to
    /// true.
    pub fn restore_messages(self, restore: bool) -> (r: Self)
        ensures
            r@ == (CreateOptionsBuilderView {
                copts: CCreateOptions {
                    restoreMessages: if restore { 1i32 } else { 0i32 },
                    ..self@.copts
                },
                ..self@
            }),
    {
        let mut b = self;
        b.copts.restoreMessages = crate::to_c_bool(restore);
        b
    }

    /// If set, QoS0 publish commands are persisted. Defaults to true.
    pub fn persist_qos0(self, persist: bool) -> (r: Self)
        ensures
            r@ == (CreateOptionsBuilderView {
                copts: CCreateOptions {
                    persistQoS0: if persist { 1i32 } else { 0i32 },
                    ..self@.copts
                },
                ..self@
            }),
    {
        let mut b = self;
        b.copts.persistQoS0 = crate::to_c_bool(persist);
        b
    }

    /// Constructs a set of create options from the builder information.
    /// File persistence without a client ID is turned off.
    pub fn finalize(self) -> (r: CreateOptions)
        ensures
            create_options_are(
                r,
                self@.copts,
                self@.server_uri,
                self@.client_id,
                persistence_for(self@.persistence, self@.client_id),
            ),
            r.user_data == self@.user_data,
    {
        let no_id = self.client_id.as_str().unicode_len() == 0;
        let persistence = match self.persistence {
            PersistenceType::File => {
                if no_id {
                    PersistenceType::NoPersistence
                } else {
                    PersistenceType::File
                }
            },
            p => p,
        };
        CreateOptions {
            copts: self.copts,
            server_uri: self.server_uri,
            client_id: self.client_id,
            persistence,
            user_data: self.user_data,
        }
    }
}

impl Default for CreateOptionsBuilder {
    /// Constructs a builder for a client that can connect using MQTT v3.x
    /// or v5.
    fn default() -> (r: Self)
        ensures
            r@ == builder_with(default_create_copts()),
    {
        Self::new()
    }
}


/// Finalized options never ask for file persistence without a client ID,
/// and keep every other persistence choice as it was.
pub proof fn lemma_file_persistence_needs_id(p: PersistenceView, client_id: Seq<char>)
    ensures
        client_id.len() == 0 ==> !(persistence_for(p, client_id) is File),
        !(p is File) ==> persistence_for(p, client_id) == p,
        client_id.len() > 0 ==> persistence_for(p, client_id) == p,
{
}


/// The create options initializers hold the C library's values: "MQCO",
/// struct version 2, no sending while disconnected, 100 buffered messages,
/// no sending before the first connect, the newest buffered message is
/// refused rather than the oldest dropped, persisted messages restored and
/// QoS 0 messages persisted; MQTT version 5 (v3.x or v5) by default and 0
/// (v3.x only) for `new_v3`.
pub proof fn lemma_create_defaults_follow_c_initializer()
    ensures
        ({
            let c = default_create_copts();
            let v3 = v3_create_copts();
            &&& c.struct_id == [77u8, 81u8, 67u8, 79u8] && v3.struct_id == c.struct_id
            &&& c.struct_version == 2 && v3.struct_version == 2
            &&& c.sendWhileDisconnected == 0 && v3.sendWhileDisconnected == 0
            &&& c.maxBufferedMessages == 100 && v3.maxBufferedMessages == 100
            &&& c.MQTTVersion == 5 && v3.MQTTVersion == 0
            &&& c.allowDisconnectedSendAtAnyTime == 0 && v3.allowDisconnectedSendAtAnyTime == 0
            &&& c.deleteOldestMessages == 0 && v3.deleteOldestMessages == 0
            &&& c.restoreMessages == 1 && v3.restoreMessages == 1
            &&& c.persistQoS0 == 1 && v3.persistQoS0 == 1
        }),
{
}

} // verus!
