//! Options for connecting to the broker.

#![allow(non_snake_case)]

use vstd::prelude::*;

use std::time::Duration;

use crate::message::Message;
use crate::properties::{opt_text_view, Properties, PropertyView};
use crate::ssl_options::{SslOptions, SslOptionsView};
use crate::string_collection::{
    c_compatible, str_list_view, str_pairs_view, NameValueCollection, StringCollection,
};
use crate::strings::IntoText;
use crate::types::{mqtt_version_number, IntoMqttVersion, MqttVersion};
use crate::will_options::{WillOptions, WillView};

verus! {

/// The version of the C connect options struct that this library fills.
pub const CONNECT_OPTIONS_STRUCT_VERSION: i32 = 8;

/// The plain fields of the C library's connect options struct, with a flag
/// for each of its pointers that tells whether it is set.
#[derive(Debug, Clone, Copy)]
pub struct CConnectOptions {
    /// The struct identifier, "MQTC".
    pub struct_id: [u8; 4],
    /// The version of the struct.
    pub struct_version: i32,
    /// The keep alive interval, in seconds.
    pub keepAliveInterval: i32,
    /// Whether the session is clean (MQTT v3, non-zero).
    pub cleansession: i32,
    /// The maximum number of messages in flight.
    pub maxInflight: i32,
    /// The time allowed for the connect to complete, in seconds.
    pub connectTimeout: i32,
    /// The retry interval, in seconds.
    pub retryInterval: i32,
    /// The number of server URIs.
    pub serverURIcount: i32,
    /// The MQTT version to connect with.
    pub MQTTVersion: i32,
    /// Whether the client reconnects by itself (non-zero).
    pub automaticReconnect: i32,
    /// The minimum retry interval, in seconds.
    pub minRetryInterval: i32,
    /// The maximum retry interval, in seconds.
    pub maxRetryInterval: i32,
    /// Whether the session starts clean (MQTT v5, non-zero).
    pub cleanstart: i32,
    /// Whether the will options are set.
    pub has_will: bool,
    /// Whether the SSL options are set.
    pub has_ssl: bool,
    /// Whether the user name is set.
    pub has_username: bool,
    /// Whether the password is set.
    pub has_password: bool,
    /// Whether the connect properties are set.
    pub has_connect_properties: bool,
    /// Whether the will properties are set.
    pub has_will_properties: bool,
    /// Whether the HTTP headers are set.
    pub has_http_headers: bool,
    /// Whether the HTTP proxy is set.
    pub has_http_proxy: bool,
    /// Whether the HTTPS proxy is set.
    pub has_https_proxy: bool,
}

/// The C library's connect options initializer, for MQTT v3.x.
pub open spec fn default_connect_copts() -> CConnectOptions {
    CConnectOptions {
        struct_id: [77u8, 81u8, 84u8, 67u8],
        struct_version: CONNECT_OPTIONS_STRUCT_VERSION,
        keepAliveInterval: 60,
        cleansession: 1,
        maxInflight: 65535,
        connectTimeout: 30,
        retryInterval: 0,
        serverURIcount: 0,
        MQTTVersion: 0,
        automaticReconnect: 0,
        minRetryInterval: 1,
        maxRetryInterval: 60,
        cleanstart: 0,
        has_will: false,
        has_ssl: false,
        has_username: false,
        has_password: false,
        has_connect_properties: false,
        has_will_properties: false,
        has_http_headers: false,
        has_http_proxy: false,
        has_https_proxy: false,
    }
}

/// The connect options initializer for MQTT v5: clean start in place of
/// clean session.
pub open spec fn v5_connect_copts() -> CConnectOptions {
    CConnectOptions { cleansession: 0, cleanstart: 1, MQTTVersion: 5, ..default_connect_copts() }
}

/// The initializer for MQTT v3.x over websockets.
pub open spec fn ws_connect_copts() -> CConnectOptions {
    CConnectOptions { keepAliveInterval: 45, ..default_connect_copts() }
}

/// The initializer for MQTT v5 over websockets.
pub open spec fn ws_v5_connect_copts() -> CConnectOptions {
    CConnectOptions { keepAliveInterval: 45, ..v5_connect_copts() }
}

impl Default for CConnectOptions {
    /// The C library's connect options initializer, for MQTT v3.x.
    fn default() -> (r: Self)
        ensures
            r == default_connect_copts(),
    {
        CConnectOptions {
            struct_id: [77u8, 81u8, 84u8, 67u8],
            struct_version: CONNECT_OPTIONS_STRUCT_VERSION,
            keepAliveInterval: 60,
            cleansession: 1,
            maxInflight: 65535,
            connectTimeout: 30,
            retryInterval: 0,
            serverURIcount: 0,
            MQTTVersion: 0,
            automaticReconnect: 0,
            minRetryInterval: 1,
            maxRetryInterval: 60,
            cleanstart: 0,
            has_will: false,
            has_ssl: false,
            has_username: false,
            has_password: false,
            has_connect_properties: false,
            has_will_properties: false,
            has_http_headers: false,
            has_http_proxy: false,
            has_https_proxy: false,
        }
    }
}

impl CConnectOptions {
    /// Creates default connect options for v5
    pub fn new_v5() -> (r: Self)
        ensures
            r == v5_connect_copts(),
    {
        let mut r = Self::default();
        r.cleansession = 0;
        r.cleanstart = 1;
        r.MQTTVersion = 5;
        r
    }

    /// Creates default connect options for v3.x over websockets
    pub fn new_ws() -> (r: Self)
        ensures
            r == ws_connect_copts(),
    {
        let mut r = Self::default();
        r.keepAliveInterval = 45;
        r
    }

    /// Creates default connect options for v5 over websockets
    pub fn new_ws_v5() -> (r: Self)
        ensures
            r == ws_v5_connect_copts(),
    {
        let mut r = Self::new_v5();
        r.keepAliveInterval = 45;
        r
    }
}

/// The settings of connect options that the C struct points to.
#[derive(Debug)]
pub struct ConnectOptionsData {
    /// The LWT options.
    pub will: Option<WillOptions>,
    /// The SSL options.
    pub ssl: Option<SslOptions>,
    /// The user name.
    pub user_name: Option<String>,
    /// The password.
    pub password: Option<String>,
    /// The server URIs.
    pub server_uris: StringCollection,
    /// The connect properties.
    pub props: Option<Properties>,
    /// The will properties.
    pub will_props: Option<Properties>,
    /// The HTTP headers for the websocket handshake.
    pub http_headers: Option<NameValueCollection>,
    /// The HTTP proxy.
    pub http_proxy: Option<String>,
    /// The HTTPS proxy.
    pub https_proxy: Option<String>,
}

/// The settings, by their parts.
pub struct ConnectDataView {
    /// The LWT options.
    pub will: Option<WillView>,
    /// The SSL options.
    pub ssl: Option<SslOptionsView>,
    /// The user name.
    pub user_name: Option<Seq<char>>,
    /// The password.
    pub password: Option<Seq<char>>,
    /// The server URIs.
    pub server_uris: Seq<Seq<char>>,
    /// The connect properties.
    pub props: Option<Seq<PropertyView>>,
    /// The will properties.
    pub will_props: Option<Seq<PropertyView>>,
    /// The HTTP headers.
    pub http_headers: Option<Seq<(Seq<char>, Seq<char>)>>,
    /// The HTTP proxy.
    pub http_proxy: Option<Seq<char>>,
    /// The HTTPS proxy.
    pub https_proxy: Option<Seq<char>>,
}

/// The view of an optional value that has a view.
pub open spec fn opt_will_view(w: Option<WillOptions>) -> Option<WillView> {
    match w {
        Some(w) => Some(w@),
        None => None,
    }
}

/// The view of optional SSL options.
pub open spec fn opt_ssl_view(s: Option<SslOptions>) -> Option<SslOptionsView> {
    match s {
        Some(s) => Some(s@),
        None => None,
    }
}

/// The view of optional properties.
pub open spec fn opt_props_view(p: Option<Properties>) -> Option<Seq<PropertyView>> {
    match p {
        Some(p) => Some(p@),
        None => None,
    }
}

/// The view of optional name/value pairs.
pub open spec fn opt_pairs_view(p: Option<NameValueCollection>) -> Option<
    Seq<(Seq<char>, Seq<char>)>,
> {
    match p {
        Some(p) => Some(p@),
        None => None,
    }
}

impl View for ConnectOptionsData {
    type V = ConnectDataView;

    open spec fn view(&self) -> ConnectDataView {
        ConnectDataView {
            will: opt_will_view(self.will),
            ssl: opt_ssl_view(self.ssl),
            user_name: opt_text_view(self.user_name),
            password: opt_text_view(self.password),
            server_uris: self.server_uris@,
            props: opt_props_view(self.props),
            will_props: opt_props_view(self.will_props),
            http_headers: opt_pairs_view(self.http_headers),
            http_proxy: opt_text_view(self.http_proxy),
            https_proxy: opt_text_view(self.https_proxy),
        }
    }
}

/// Settings with nothing set.
pub open spec fn empty_connect_data() -> ConnectDataView {
    ConnectDataView {
        will: None,
        ssl: None,
        user_name: None,
        password: None,
        server_uris: Seq::empty(),
        props: None,
        will_props: None,
        http_headers: None,
        http_proxy: None,
        https_proxy: None,
    }
}

/// Copies an optional string.
fn copy_opt_string(s: &Option<String>) -> (r: Option<String>)
    ensures
        opt_text_view(r) == opt_text_view(*s),
{
    match s {
        Some(s) => Some(s.clone()),
        None => None,
    }
}

/// Copies optional properties.
fn copy_opt_props(p: &Option<Properties>) -> (r: Option<Properties>)
    ensures
        opt_props_view(r) == opt_props_view(*p),
{
    match p {
        Some(p) => Some(p.clone()),
        None => None,
    }
}

impl ConnectOptionsData {
    /// Settings with nothing set.
    pub fn new() -> (r: Self)
        ensures
            r@ == empty_connect_data(),
    {
        ConnectOptionsData {
            will: None,
            ssl: None,
            user_name: None,
            password: None,
            server_uris: StringCollection::default(),
            props: None,
            will_props: None,
            http_headers: None,
            http_proxy: None,
            https_proxy: None,
        }
    }

    /// Copies the settings.
    pub fn copy(&self) -> (r: Self)
        ensures
            r@ == self@,
    {
        ConnectOptionsData {
            will: match &self.will {
                Some(w) => Some(w.clone()),
                None => None,
            },
            ssl: match &self.ssl {
                Some(s) => Some(s.clone()),
                None => None,
            },
            user_name: copy_opt_string(&self.user_name),
            password: copy_opt_string(&self.password),
            server_uris: self.server_uris.clone(),
            props: copy_opt_props(&self.props),
            will_props: copy_opt_props(&self.will_props),
            http_headers: match &self.http_headers {
                Some(h) => Some(h.clone()),
                None => None,
            },
            http_proxy: copy_opt_string(&self.http_proxy),
            https_proxy: copy_opt_string(&self.https_proxy),
        }
    }
}

/// The C struct that goes with the settings: each pointer is set when its
/// setting is, the properties only for MQTT v5 or later, and the number of
/// server URIs is recorded.
pub open spec fn linked_copts(c: CConnectOptions, d: ConnectDataView) -> CConnectOptions {
    CConnectOptions {
        has_will: d.will is Some,
        has_ssl: d.ssl is Some,
        has_username: d.user_name is Some,
        has_password: d.password is Some,
        serverURIcount: d.server_uris.len() as i32,
        has_connect_properties: c.MQTTVersion >= 5 && d.props is Some,
        has_will_properties: c.MQTTVersion >= 5 && d.will_props is Some,
        has_http_headers: d.http_headers is Some,
        has_http_proxy: d.http_proxy is Some,
        has_https_proxy: d.https_proxy is Some,
        ..c
    }
}

/// The options for connecting to the broker.
#[derive(Debug)]
pub struct ConnectOptions {
    /// The underlying C options structure.
    pub copts: CConnectOptions,
    /// The settings that the C struct points to.
    pub data: ConnectOptionsData,
}

/// The C struct for the MQTT version: the v5 defaults from v5 on, else the
/// v3 defaults, with the version set.
pub open spec fn copts_for_version(ver: MqttVersion) -> CConnectOptions {
    let base = if mqtt_version_number(ver) < 5 {
        default_connect_copts()
    } else {
        v5_connect_copts()
    };
    CConnectOptions { MQTTVersion: mqtt_version_number(ver) as i32, ..base }
}

/// Creates the C struct for the MQTT version.
fn c_options_for_version(ver: MqttVersion) -> (r: CConnectOptions)
    ensures
        r == copts_for_version(ver),
{
    let mut copts = if ver.is_before(MqttVersion::V5) {
        CConnectOptions::default()
    } else {
        CConnectOptions::new_v5()
    };
    copts.MQTTVersion = ver.value() as i32;
    copts
}

impl ConnectOptions {
    /// Combines the C struct with the settings, linking each setting.
    fn from_data(copts: CConnectOptions, data: ConnectOptionsData) -> (r: Self)
        ensures
            r.copts == linked_copts(copts, data@),
            r.data@ == data@,
    {
        let mut copts = copts;
        copts.has_will = data.will.is_some();
        copts.has_ssl = data.ssl.is_some();
        copts.has_username = data.user_name.is_some();
        copts.has_password = data.password.is_some();
        copts.serverURIcount = data.server_uris.len() as i32;
        copts.has_connect_properties = copts.MQTTVersion >= 5 && data.props.is_some();
        copts.has_will_properties = copts.MQTTVersion >= 5 && data.will_props.is_some();
        copts.has_http_headers = data.http_headers.is_some();
        copts.has_http_proxy = data.http_proxy.is_some();
        copts.has_https_proxy = data.https_proxy.is_some();
        ConnectOptions { copts, data }
    }

    /// Creates a new, default set of connect options for MQTT v3.x
    pub fn new() -> (r: Self)
        ensures
            r.copts == linked_copts(default_connect_copts(), empty_connect_data()),
            r.data@ == empty_connect_data(),
    {
        Self::from_data(CConnectOptions::default(), ConnectOptionsData::new())
    }

    /// Creates a new, default set of connect options for MQTT v5
    pub fn new_v5() -> (r: Self)
        ensures
            r.copts == linked_copts(v5_connect_copts(), empty_connect_data()),
            r.data@ == empty_connect_data(),
    {
        Self::from_data(CConnectOptions::new_v5(), ConnectOptionsData::new())
    }

    /// Creates a new, default set of connect options for connecting over
    /// websockets.
    pub fn new_ws() -> (r: Self)
        ensures
            r.copts == linked_copts(ws_connect_copts(), empty_connect_data()),
            r.data@ == empty_connect_data(),
    {
        Self::from_data(CConnectOptions::new_ws(), ConnectOptionsData::new())
    }

    /// Creates a new, default set of connect options for connecting MQTT v5
    /// over websockets.
    pub fn new_ws_v5() -> (r: Self)
        ensures
            r.copts == linked_copts(ws_v5_connect_copts(), empty_connect_data()),
            r.data@ == empty_connect_data(),
    {
        Self::from_data(CConnectOptions::new_ws_v5(), ConnectOptionsData::new())
    }

    /// Creates a new set of connect options for the specified MQTT
    /// protocol version.
    pub fn with_mqtt_version<V: IntoMqttVersion>(ver: V) -> (r: Self)
        ensures
            r.copts == linked_copts(copts_for_version(ver.version_view()), empty_connect_data()),
            r.data@ == empty_connect_data(),
    {
        let ver = ver.into_mqtt_version();
        Self::from_data(c_options_for_version(ver), ConnectOptionsData::new())
    }

    /// Gets the MQTT protocol version that should be used for the
    /// connection.
    pub fn mqtt_version(&self) -> (r: MqttVersion)
        ensures
            r == crate::types::mqtt_version_of(self.copts.MQTTVersion as u32),
    {
        MqttVersion::from_i32(self.copts.MQTTVersion)
    }

    /// Gets the MQTT protocol version as a raw integer.
    pub fn mqtt_version_raw(&self) -> (r: u32)
        ensures
            r == self.copts.MQTTVersion as u32,
    {
        self.copts.MQTTVersion as u32
    }

    /// Gets the "clean session" setting in the options.
    ///
    /// This is only used in MQTT v3 connections.
    pub fn clean_session(&self) -> (r: bool)
        ensures
            r == (self.copts.cleansession != 0),
    {
        crate::from_c_bool(self.copts.cleansession)
    }

    /// This sets the "clean session" behavior for connecting to the server.
    /// A clean session also turns off clean start.
    ///
    /// This is only used in MQTT v3 connections.
    pub fn set_clean_session(&mut self, clean: bool)
        ensures
            final(self).copts == (CConnectOptions {
                cleansession: if clean { 1i32 } else { 0i32 },
                cleanstart: if clean { 0i32 } else { old(self).copts.cleanstart },
                ..old(self).copts
            }),
            final(self).data@ == old(self).data@,
    {
        self.copts.cleansession = crate::to_c_bool(clean);
        if clean {
            self.copts.cleanstart = 0;
        }
    }

    /// Gets the "clean start" setting in the options.
    ///
    /// This is only used in MQTT v5 connections.
    pub fn clean_start(&self) -> (r: bool)
        ensures
            r == (self.copts.cleanstart != 0),
    {
        crate::from_c_bool(self.copts.cleanstart)
    }

    /// This sets the "clean start" behavior for connecting to the server.
    /// A clean start also turns off clean session.
    ///
    /// This is only used in MQTT v5 connections.
    pub fn set_clean_start(&mut self, clean: bool)
        ensures
            final(self).copts == (CConnectOptions {
                cleanstart: if clean { 1i32 } else { 0i32 },
                cleansession: if clean { 0i32 } else { old(self).copts.cleansession },
                ..old(self).copts
            }),
            final(self).data@ == old(self).data@,
    {
        self.copts.cleanstart = crate::to_c_bool(clean);
        if clean {
            self.copts.cleansession = 0;
        }
    }
}

impl Default for ConnectOptions {
    /// The default connect options, for MQTT v3.x.
    fn default() -> (r: Self)
        ensures
            r.copts == linked_copts(default_connect_copts(), empty_connect_data()),
            r.data@ == empty_connect_data(),
    {
        Self::new()
    }
}

impl Clone for ConnectOptions {
    /// Copies the options, with a copy of each setting.
    fn clone(&self) -> (r: Self)
        ensures
            r.copts == linked_copts(self.copts, self.data@),
            r.data@ == self.data@,
    {
        Self::from_data(self.copts, self.data.copy())
    }
}

/// The setting of an interval in seconds: zero becomes one second, and the
/// count is kept as a C `int`.
pub open spec fn secs_setting(secs: u64) -> i32 {
    if secs == 0 {
        1
    } else {
        secs as i32
    }
}

/// Computes the setting of an interval in seconds.
fn secs_to_setting(secs: u64) -> (r: i32)
    ensures
        r == secs_setting(secs),
{
    if secs == 0 {
        1
    } else {
        secs as i32
    }
}

/// The number of whole seconds in a duration, as `Duration::as_secs`
/// counts them.
pub uninterp spec fn duration_secs(d: Duration) -> u64;

/// Calls `Duration::as_secs`, the number of whole seconds in the duration;
/// the contract names that count.
#[verifier::external_body]
fn duration_as_secs(d: Duration) -> (r: u64)
    ensures
        r == duration_secs(d),
{
    d.as_secs()
}

/// The C options after the builder's clean-session setting: clean start
/// goes off and a v5 version becomes the default one.
pub open spec fn after_clean_session(c: CConnectOptions, clean: bool) -> CConnectOptions {
    CConnectOptions {
        cleansession: if clean { 1i32 } else { 0i32 },
        cleanstart: 0,
        MQTTVersion: if c.MQTTVersion >= 5 {
            0i32
        } else {
            c.MQTTVersion
        },
        ..c
    }
}

/// The C options after the builder's clean-start setting: clean session
/// goes off and a version before v5 becomes v5.
pub open spec fn after_clean_start(c: CConnectOptions, clean: bool) -> CConnectOptions {
    CConnectOptions {
        cleanstart: if clean { 1i32 } else { 0i32 },
        cleansession: 0,
        MQTTVersion: if c.MQTTVersion < 5 {
            5i32
        } else {
            c.MQTTVersion
        },
        ..c
    }
}

/// The version after setting properties: at least v5.
pub open spec fn version_for_properties(ver: i32) -> i32 {
    if ver < 5 {
        5
    } else {
        ver
    }
}

/// What a connect options builder holds.
pub struct ConnectOptionsBuilderView {
    /// The C options.
    pub copts: CConnectOptions,
    /// The settings.
    pub data: ConnectDataView,
}

/// Builder to create the options to connect to the MQTT server.
#[derive(Debug)]
pub struct ConnectOptionsBuilder {
    copts: CConnectOptions,
    data: ConnectOptionsData,
}

impl View for ConnectOptionsBuilder {
    type V = ConnectOptionsBuilderView;

    closed spec fn view(&self) -> ConnectOptionsBuilderView {
        ConnectOptionsBuilderView { copts: self.copts, data: self.data@ }
    }
}

/// A builder with the C options and nothing set.
pub open spec fn connect_builder_with(copts: CConnectOptions) -> ConnectOptionsBuilderView {
    ConnectOptionsBuilderView { copts, data: empty_connect_data() }
}

impl ConnectOptionsBuilder {
    /// Creates a new `ConnectOptionsBuilder` for MQTT v3.x
    pub fn new() -> (r: Self)
        ensures
            r@ == connect_builder_with(default_connect_copts()),
    {
        ConnectOptionsBuilder { copts: CConnectOptions::default(), data: ConnectOptionsData::new() }
    }

    /// Creates a new `ConnectOptionsBuilder` explicitly for MQTT v3.x
    /// (although this is currently the default).
    pub fn new_v3() -> (r: Self)
        ensures
            r@ == connect_builder_with(default_connect_copts()),
    {
        Self::new()
    }

    /// Creates a new `ConnectOptionsBuilder` for MQTT v5
    pub fn new_v5() -> (r: Self)
        ensures
            r@ == connect_builder_with(v5_connect_copts()),
    {
        ConnectOptionsBuilder { copts: CConnectOptions::new_v5(), data: ConnectOptionsData::new() }
    }

    /// Creates a new `ConnectOptionsBuilder` for connecting to MQTT v3.x
    /// over websockets.
    pub fn new_ws() -> (r: Self)
        ensures
            r@ == connect_builder_with(ws_connect_copts()),
    {
        ConnectOptionsBuilder { copts: CConnectOptions::new_ws(), data: ConnectOptionsData::new() }
    }

    /// Creates a new `ConnectOptionsBuilder` for connecting to MQTT v5
    /// over websockets.
    pub fn new_ws_v5() -> (r: Self)
        ensures
            r@ == connect_builder_with(ws_v5_connect_copts()),
    {
        ConnectOptionsBuilder {
            copts: CConnectOptions::new_ws_v5(),
            data: ConnectOptionsData::new(),
        }
    }

    /// Creates a new `ConnectOptionsBuilder` for the specified MQTT
    /// protocol version, even one that is not known.
    pub fn with_mqtt_version<V: IntoMqttVersion>(ver: V) -> (r: Self)
        ensures
            r@ == connect_builder_with(copts_for_version(ver.version_view())),
    {
        let ver = ver.into_mqtt_version();
        ConnectOptionsBuilder { copts: c_options_for_version(ver), data: ConnectOptionsData::new() }
    }

    /// Sets the keep alive interval for the client session, with a
    /// resolution of seconds.
    pub fn keep_alive_interval(&mut self, keep_alive_interval: Duration) -> (r: &mut Self)
        ensures
            r@ == (ConnectOptionsBuilderView {
                copts: CConnectOptions { keepAliveInterval: secs_setting(duration_secs(keep_alive_interval)), ..old(self)@.copts },
                ..old(self)@
            }),
            final(self)@ == final(r)@,
    {
        self.keep_alive_interval_secs(duration_as_secs(keep_alive_interval))
    }

    /// Sets the keep alive interval for the client session, in seconds.
    pub fn keep_alive_interval_secs(&mut self, secs: u64) -> (r: &mut Self)
        ensures
            r@ == (ConnectOptionsBuilderView {
                copts: CConnectOptions { keepAliveInterval: secs_setting(secs), ..old(self)@.copts },
                ..old(self)@
            }),
            final(self)@ == final(r)@,
    {
        self.copts.keepAliveInterval = secs_to_setting(secs);
        self
    }

    /// Sets the 'clean session' flag to send to the broker.
    ///
    /// This is for MQTT v3.x connections only, and sets the other options
    /// to be compatible with v3: no clean start, and a v5 version becomes
    /// the default version.
    pub fn clean_session(&mut self, clean: bool) -> (r: &mut Self)
        ensures
            r@ == (ConnectOptionsBuilderView {
                copts: after_clean_session(old(self)@.copts, clean),
                ..old(self)@
            }),
            final(self)@ == final(r)@,
    {
        self.copts.cleansession = crate::to_c_bool(clean);
        self.copts.cleanstart = 0;
        if self.copts.MQTTVersion >= 5 {
            self.copts.MQTTVersion = 0;
        }
        self
    }

    /// Sets the 'clean start' flag to send to the broker.
    ///
    /// This is for MQTT v5 connections only, and sets the other options to
    /// be compatible with v5: no clean session, and a version before v5
    /// becomes v5.
    pub fn clean_start(&mut self, clean: bool) -> (r: &mut Self)
        ensures
            r@ == (ConnectOptionsBuilderView {
                copts: after_clean_start(old(self)@.copts, clean),
                ..old(self)@
            }),
            final(self)@ == final(r)@,
    {
        self.copts.cleanstart = crate::to_c_bool(clean);
        self.copts.cleansession = 0;
        if self.copts.MQTTVersion < 5 {
            self.copts.MQTTVersion = 5;
        }
        self
    }

    /// Sets the maximum number of in-flight messages that can be
    /// simultaneously handled by this client.
    pub fn max_inflight(&mut self, max_inflight: i32) -> (r: &mut Self)
        ensures
            r@ == (ConnectOptionsBuilderView {
                copts: CConnectOptions { maxInflight: max_inflight, ..old(self)@.copts },
                ..old(self)@
            }),
            final(self)@ == final(r)@,
    {
        self.copts.maxInflight = max_inflight;
        self
    }

    /// Sets the LWT options for the connection.
    pub fn will_options(&mut self, will: WillOptions) -> (r: &mut Self)
        ensures
            r@ == (ConnectOptionsBuilderView {
                data: ConnectDataView { will: Some(will@), ..old(self)@.data },
                ..old(self)@
            }),
            final(self)@ == final(r)@,
    {
        self.data.will = Some(will);
        self
    }

    /// Sets the LWT message for the connection: the will options are made
    /// from the message, and its properties become the will properties.
    pub fn will_message(&mut self, will: Message) -> (r: &mut Self)
        ensures
            r@ == (ConnectOptionsBuilderView {
                data: ConnectDataView {
                    will: Some(
                        WillView {
                            copts: crate::will_options::will_copts(
                                will.cmsg.qos,
                                will.cmsg.retained,
                                will.data.payload@.len() as i32,
                            ),
                            topic: will.data.topic@,
                            payload: will.data.payload@,
                            msg_props: will.data.props@,
                            props: Seq::empty(),
                        },
                    ),
                    will_props: Some(will.data.props@),
                    ..old(self)@.data
                },
                ..old(self)@
            }),
            final(self)@ == final(r)@,
    {
        self.data.will_props = Some(will.properties().clone());
        self.data.will = Some(WillOptions::from(will));
        self
    }

    /// Sets the SSL options for the connection.
    pub fn ssl_options(&mut self, ssl: SslOptions) -> (r: &mut Self)
        ensures
            r@ == (ConnectOptionsBuilderView {
                data: ConnectDataView { ssl: Some(ssl@), ..old(self)@.data },
                ..old(self)@
            }),
            final(self)@ == final(r)@,
    {
        self.data.ssl = Some(ssl);
        self
    }

    /// Sets the user name for authentication with the broker.
    /// This works with the password.
    pub fn user_name<S: IntoText>(&mut self, user_name: S) -> (r: &mut Self)
        requires
            c_compatible(user_name.text_view()),
        ensures
            r@ == (ConnectOptionsBuilderView {
                data: ConnectDataView { user_name: Some(user_name.text_view()), ..old(self)@.data },
                ..old(self)@
            }),
            final(self)@ == final(r)@,
    {
        self.data.user_name = Some(user_name.into_text());
        self
    }

    /// Sets the password for authentication with the broker.
    /// This works with the user name.
    pub fn password<S: IntoText>(&mut self, password: S) -> (r: &mut Self)
        requires
            c_compatible(password.text_view()),
        ensures
            r@ == (ConnectOptionsBuilderView {
                data: ConnectDataView { password: Some(password.text_view()), ..old(self)@.data },
                ..old(self)@
            }),
            final(self)@ == final(r)@,
    {
        self.data.password = Some(password.into_text());
        self
    }

    /// Sets the time interval to allow the connect to complete, with a
    /// resolution of seconds.
    pub fn connect_timeout(&mut self, timeout: Duration) -> (r: &mut Self)
        ensures
            r@ == (ConnectOptionsBuilderView {
                copts: CConnectOptions { connectTimeout: secs_setting(duration_secs(timeout)), ..old(self)@.copts },
                ..old(self)@
            }),
            final(self)@ == final(r)@,
    {
        self.connect_timeout_secs(duration_as_secs(timeout))
    }

    /// Sets the time interval to allow the connect to complete, in seconds.
    pub fn connect_timeout_secs(&mut self, secs: u64) -> (r: &mut Self)
        ensures
            r@ == (ConnectOptionsBuilderView {
                copts: CConnectOptions { connectTimeout: secs_setting(secs), ..old(self)@.copts },
                ..old(self)@
            }),
            final(self)@ == final(r)@,
    {
        self.copts.connectTimeout = secs_to_setting(secs);
        self
    }

    /// Sets the retry interval, with a resolution of seconds.
    pub fn retry_interval(&mut self, interval: Duration) -> (r: &mut Self)
        ensures
            r@ == (ConnectOptionsBuilderView {
                copts: CConnectOptions { retryInterval: secs_setting(duration_secs(interval)), ..old(self)@.copts },
                ..old(self)@
            }),
            final(self)@ == final(r)@,
    {
        self.retry_interval_secs(duration_as_secs(interval))
    }

    /// Sets the retry interval, in seconds.
    pub fn retry_interval_secs(&mut self, secs: u64) -> (r: &mut Self)
        ensures
            r@ == (ConnectOptionsBuilderView {
                copts: CConnectOptions { retryInterval: secs_setting(secs), ..old(self)@.copts },
                ..old(self)@
            }),
            final(self)@ == final(r)@,
    {
        self.copts.retryInterval = secs_to_setting(secs);
        self
    }

    /// Specify the servers to which the client will connect.
    pub fn server_uris(&mut self, server_uris: &[&str]) -> (r: &mut Self)
        requires
            forall|i: int|
                0 <= i < server_uris@.len() ==> c_compatible(#[trigger] server_uris@[i]@),
        ensures
            r@ == (ConnectOptionsBuilderView {
                data: ConnectDataView {
                    server_uris: str_list_view(server_uris@),
                    ..old(self)@.data
                },
                ..old(self)@
            }),
            final(self)@ == final(r)@,
    {
        self.data.server_uris = StringCollection::new(server_uris);
        self
    }

    /// Sets the client to automatically reconnect if the connection is lost,
    /// with the minimum retry interval (doubled on each failed retry) and the
    /// maximum, at a resolution of seconds.
    pub fn automatic_reconnect(&mut self, min_retry_interval: Duration, max_retry_interval: Duration) -> (r:
        &mut Self)
        ensures
            r@ == (ConnectOptionsBuilderView {
                copts: CConnectOptions {
                    automaticReconnect: 1,
                    minRetryInterval: secs_setting(duration_secs(min_retry_interval)),
                    maxRetryInterval: secs_setting(duration_secs(max_retry_interval)),
                    ..old(self)@.copts
                },
                ..old(self)@
            }),
            final(self)@ == final(r)@,
    {
        let min_secs = duration_as_secs(min_retry_interval);
        let max_secs = duration_as_secs(max_retry_interval);
        self.automatic_reconnect_secs(min_secs, max_secs)
    }

    /// Sets the client to automatically reconnect if the connection is lost,
    /// with the retry intervals in seconds.
    pub fn automatic_reconnect_secs(&mut self, min_secs: u64, max_secs: u64) -> (r: &mut Self)
        ensures
            r@ == (ConnectOptionsBuilderView {
                copts: CConnectOptions {
                    automaticReconnect: 1,
                    minRetryInterval: secs_setting(min_secs),
                    maxRetryInterval: secs_setting(max_secs),
                    ..old(self)@.copts
                },
                ..old(self)@
            }),
            final(self)@ == final(r)@,
    {
        self.copts.automaticReconnect = 1;
        self.copts.minRetryInterval = secs_to_setting(min_secs);
        self.copts.maxRetryInterval = secs_to_setting(max_secs);
        self
    }

    /// Sets the collection of properties for the connections; properties
    /// need MQTT v5, so an earlier version becomes v5.
    pub fn properties(&mut self, props: Properties) -> (r: &mut Self)
        ensures
            r@ == (ConnectOptionsBuilderView {
                copts: CConnectOptions {
                    MQTTVersion: version_for_properties(old(self)@.copts.MQTTVersion),
                    ..old(self)@.copts
                },
                data: ConnectDataView { props: Some(props@), ..old(self)@.data },
            }),
            final(self)@ == final(r)@,
    {
        self.data.props = Some(props);
        if self.copts.MQTTVersion < 5 {
            self.copts.MQTTVersion = 5;
        }
        self
    }

    /// Sets the additional HTTP headers that will be sent in the
    /// WebSocket opening handshake.
    pub fn http_headers(&mut self, coll: &[(&str, &str)]) -> (r: &mut Self)
        requires
            forall|i: int|
                0 <= i < coll@.len() ==> c_compatible(#[trigger] coll@[i].0@) && c_compatible(
                    coll@[i].1@,
                ),
        ensures
            r@ == (ConnectOptionsBuilderView {
                data: ConnectDataView {
                    http_headers: Some(str_pairs_view(coll@)),
                    ..old(self)@.data
                },
                ..old(self)@
            }),
            final(self)@ == final(r)@,
    {
        self.data.http_headers = Some(NameValueCollection::new(coll));
        self
    }

    /// Sets an HTTP proxy for websockets.
    pub fn http_proxy<S: IntoText>(&mut self, proxy: S) -> (r: &mut Self)
        requires
            c_compatible(proxy.text_view()),
        ensures
            r@ == (ConnectOptionsBuilderView {
                data: ConnectDataView { http_proxy: Some(proxy.text_view()), ..old(self)@.data },
                ..old(self)@
            }),
            final(self)@ == final(r)@,
    {
        self.data.http_proxy = Some(proxy.into_text());
        self
    }

    /// Sets a secure HTTPS proxy for websockets.
    pub fn https_proxy<S: IntoText>(&mut self, proxy: S) -> (r: &mut Self)
        requires
            c_compatible(proxy.text_view()),
        ensures
            r@ == (ConnectOptionsBuilderView {
                data: ConnectDataView { https_proxy: Some(proxy.text_view()), ..old(self)@.data },
                ..old(self)@
            }),
            final(self)@ == final(r)@,
    {
        self.data.https_proxy = Some(proxy.into_text());
        self
    }

    /// Finalize the builder to create the connect options.
    pub fn finalize(&self) -> (r: ConnectOptions)
        ensures
            r.copts == linked_copts(self@.copts, self@.data),
            r.data@ == self@.data,
    {
        ConnectOptions::from_data(self.copts, self.data.copy())
    }
}

impl Default for ConnectOptionsBuilder {
    /// Creates a new `ConnectOptionsBuilder` for MQTT v3.x
    fn default() -> (r: Self)
        ensures
            r@ == connect_builder_with(default_connect_copts()),
    {
        Self::new()
    }
}

/// After the builder's clean-start setting no clean session is asked for
/// and the version is v5 or later; after its clean-session setting no
/// clean start is asked for and the version is before v5. Connect
/// properties set on a builder are always linked into the final options,
/// as setting them moves the version to v5 or later.
pub proof fn lemma_clean_flags_exclusive(c: CConnectOptions, clean: bool, d: ConnectDataView)
    ensures
        after_clean_start(c, clean).cleansession == 0,
        after_clean_start(c, clean).MQTTVersion >= 5,
        after_clean_session(c, clean).cleanstart == 0,
        after_clean_session(c, clean).MQTTVersion < 5,
        d.props is Some ==> linked_copts(
            CConnectOptions { MQTTVersion: version_for_properties(c.MQTTVersion), ..c },
            d,
        ).has_connect_properties,
{
}


/// Whether C connect options hold the values of the C library's connect
/// options initializer ("MQTC", struct version 8, 65535 messages in
/// flight, a 30 second connect timeout, no retry interval, no automatic
/// reconnect with retries between 1 and 60 seconds, nothing linked), with
/// the given keep alive interval, clean flags and MQTT version.
pub open spec fn holds_initializer_values(
    c: CConnectOptions,
    keep_alive: i32,
    clean_session: i32,
    clean_start: i32,
    version: i32,
) -> bool {
    &&& c.struct_id == [77u8, 81u8, 84u8, 67u8]
    &&& c.struct_version == 8
    &&& c.keepAliveInterval == keep_alive
    &&& c.cleansession == clean_session
    &&& c.maxInflight == 65535
    &&& c.connectTimeout == 30
    &&& c.retryInterval == 0
    &&& c.serverURIcount == 0
    &&& c.MQTTVersion == version
    &&& c.automaticReconnect == 0
    &&& c.minRetryInterval == 1
    &&& c.maxRetryInterval == 60
    &&& c.cleanstart == clean_start
    &&& !c.has_will && !c.has_ssl && !c.has_username && !c.has_password
    &&& !c.has_connect_properties && !c.has_will_properties
    &&& !c.has_http_headers && !c.has_http_proxy && !c.has_https_proxy
}

/// The options that `ConnectOptions::new`, `new_v5`, `new_ws` and
/// `new_ws_v5` give (and that a new builder of each kind finalizes to)
/// carry the C library's initializer values: a 60 second keep alive (45
/// over websockets), a clean session and MQTT version 0 (the default) for
/// v3.x, and a clean start with MQTT version 5 for v5.
pub proof fn lemma_connect_defaults_follow_c_initializer()
    ensures
        holds_initializer_values(linked_copts(default_connect_copts(), empty_connect_data()), 60, 1, 0, 0),
        holds_initializer_values(linked_copts(v5_connect_copts(), empty_connect_data()), 60, 0, 1, 5),
        holds_initializer_values(linked_copts(ws_connect_copts(), empty_connect_data()), 45, 1, 0, 0),
        holds_initializer_values(linked_copts(ws_v5_connect_copts(), empty_connect_data()), 45, 0, 1, 5),
{
}

} // verus!
