//! SSL/TLS settings.

#![allow(non_snake_case)]

use vstd::prelude::*;
use vstd::string::*;
use vstd::utf8::encode_utf8;

use crate::errors::Error;
use crate::strings::{c_string, first_nul, IntoText};

verus! {

/// The engine's default SSL/TLS version.
pub const MQTT_SSL_VERSION_DEFAULT: i32 = 0;

/// TLS version 1.0.
pub const MQTT_SSL_VERSION_TLS_1_0: i32 = 1;

/// TLS version 1.1.
pub const MQTT_SSL_VERSION_TLS_1_1: i32 = 2;

/// TLS version 1.2.
pub const MQTT_SSL_VERSION_TLS_1_2: i32 = 3;

/// The SSL/TLS versions that can be requested.
#[derive(Debug, Clone, Copy, PartialEq, Eq, Structural)]
#[allow(non_camel_case_types)]
pub enum SslVersion {
    /// The default library SSL/TLS version
    Default,
    /// TLS version 1.0
    Tls_1_0,
    /// TLS version 1.1
    Tls_1_1,
    /// TLS version 1.2
    Tls_1_2,
}

/// The number the engine uses for an SSL/TLS version.
pub open spec fn ssl_version_number(ver: SslVersion) -> i32 {
    match ver {
        SslVersion::Default => MQTT_SSL_VERSION_DEFAULT,
        SslVersion::Tls_1_0 => MQTT_SSL_VERSION_TLS_1_0,
        SslVersion::Tls_1_1 => MQTT_SSL_VERSION_TLS_1_1,
        SslVersion::Tls_1_2 => MQTT_SSL_VERSION_TLS_1_2,
    }
}

impl SslVersion {
    /// Gets the number the engine uses for the version.
    pub fn value(self) -> (r: i32)
        ensures
            r == ssl_version_number(self),
    {
        match self {
            SslVersion::Default => MQTT_SSL_VERSION_DEFAULT,
            SslVersion::Tls_1_0 => MQTT_SSL_VERSION_TLS_1_0,
            SslVersion::Tls_1_1 => MQTT_SSL_VERSION_TLS_1_1,
            SslVersion::Tls_1_2 => MQTT_SSL_VERSION_TLS_1_2,
        }
    }
}



/// The version of the C SSL options struct that this library fills.
pub const SSL_OPTIONS_STRUCT_VERSION: i32 = 5;

/// The plain fields of the C library's SSL options struct.
#[derive(Debug, Clone, Copy)]
pub struct CSslOptions {
    /// The struct identifier, "MQTS".
    pub struct_id: [u8; 4],
    /// The version of the struct.
    pub struct_version: i32,
    /// Whether the server certificate is verified (non-zero).
    pub enableServerCertAuth: i32,
    /// The SSL/TLS version to use.
    pub sslVersion: i32,
    /// Whether post-connect checks are made (non-zero).
    pub verify: i32,
    /// Whether the default trust store is not loaded (non-zero).
    pub disableDefaultTrustStore: i32,
    /// The length of the ALPN protocol list in wire format.
    pub protos_len: u32,
}

/// The C library's SSL options initializer.
pub open spec fn default_ssl_copts() -> CSslOptions {
    CSslOptions {
        struct_id: [77u8, 81u8, 84u8, 83u8],
        struct_version: SSL_OPTIONS_STRUCT_VERSION,
        enableServerCertAuth: 1,
        sslVersion: MQTT_SSL_VERSION_DEFAULT,
        verify: 0,
        disableDefaultTrustStore: 0,
        protos_len: 0,
    }
}

impl Default for CSslOptions {
    /// The C library's SSL options initializer.
    fn default() -> (r: Self)
        ensures
            r == default_ssl_copts(),
    {
        CSslOptions {
            struct_id: [77u8, 81u8, 84u8, 83u8],
            struct_version: SSL_OPTIONS_STRUCT_VERSION,
            enableServerCertAuth: 1,
            sslVersion: MQTT_SSL_VERSION_DEFAULT,
            verify: 0,
            disableDefaultTrustStore: 0,
            protos_len: 0,
        }
    }
}

/// The strings and protocol list of a set of SSL options; an empty string
/// means the setting is not used.
#[derive(Debug)]
pub struct SslOptionsData {
    /// The PEM file with the certificates trusted by the client.
    pub trust_store: String,
    /// The PEM file with the certificate chain of the client.
    pub key_store: String,
    /// The PEM file with the client's private key.
    pub private_key: String,
    /// The password of the private key.
    pub private_key_password: String,
    /// The cipher suites offered in the handshake.
    pub enabled_cipher_suites: String,
    /// The directory with CA certificates.
    pub ca_path: String,
    /// The ALPN protocols, in wire format.
    pub protos: Vec<u8>,
}

/// The SSL option data, as characters and bytes.
pub struct SslDataView {
    /// The trust store file.
    pub trust_store: Seq<char>,
    /// The key store file.
    pub key_store: Seq<char>,
    /// The private key file.
    pub private_key: Seq<char>,
    /// The private key password.
    pub private_key_password: Seq<char>,
    /// The cipher suites.
    pub enabled_cipher_suites: Seq<char>,
    /// The CA directory.
    pub ca_path: Seq<char>,
    /// The ALPN protocols in wire format.
    pub protos: Seq<u8>,
}

impl View for SslOptionsData {
    type V = SslDataView;

    open spec fn view(&self) -> SslDataView {
        SslDataView {
            trust_store: self.trust_store@,
            key_store: self.key_store@,
            private_key: self.private_key@,
            private_key_password: self.private_key_password@,
            enabled_cipher_suites: self.enabled_cipher_suites@,
            ca_path: self.ca_path@,
            protos: self.protos@,
        }
    }
}

/// Data with no setting made.
pub open spec fn empty_ssl_data() -> SslDataView {
    SslDataView {
        trust_store: Seq::empty(),
        key_store: Seq::empty(),
        private_key: Seq::empty(),
        private_key_password: Seq::empty(),
        enabled_cipher_suites: Seq::empty(),
        ca_path: Seq::empty(),
        protos: Seq::empty(),
    }
}

impl SslOptionsData {
    /// Data with no setting made.
    pub fn new() -> (r: Self)
        ensures
            r@ == empty_ssl_data(),
    {
        let r = SslOptionsData {
            trust_store: String::new(),
            key_store: String::new(),
            private_key: String::new(),
            private_key_password: String::new(),
            enabled_cipher_suites: String::new(),
            ca_path: String::new(),
            protos: Vec::new(),
        };
        assert(r@.protos =~= Seq::<u8>::empty());
        r
    }

    /// Copies the data.
    pub fn copy(&self) -> (r: Self)
        ensures
            r@ == self@,
    {
        SslOptionsData {
            trust_store: self.trust_store.clone(),
            key_store: self.key_store.clone(),
            private_key: self.private_key.clone(),
            private_key_password: self.private_key_password.clone(),
            enabled_cipher_suites: self.enabled_cipher_suites.clone(),
            ca_path: self.ca_path.clone(),
            protos: vstd::slice::slice_to_vec(self.protos.as_slice()),
        }
    }
}

/// The ALPN wire format of a list of protocols: each protocol's bytes with
/// its length, as a byte, in front.
pub open spec fn alpn_wire(protos: Seq<Seq<u8>>) -> Seq<u8>
    decreases protos.len(),
{
    if protos.len() == 0 {
        Seq::empty()
    } else {
        alpn_wire(protos.drop_last()) + seq![protos.last().len() as u8] + protos.last()
    }
}

/// The UTF-8 bytes of each string of a list.
pub open spec fn strs_bytes(protos: Seq<&str>) -> Seq<Seq<u8>> {
    protos.map_values(|p: &str| encode_utf8(p@))
}

/// The SSL options for the connection.
#[derive(Debug)]
pub struct SslOptions {
    /// The underlying C options struct.
    pub copts: CSslOptions,
    /// The strings and protocol list.
    pub data: SslOptionsData,
}

impl SslOptions {
    /// Creates a new set of default SSL options
    pub fn new() -> (r: Self)
        ensures
            r.copts == default_ssl_copts(),
            r.data@ == empty_ssl_data(),
    {
        SslOptions { copts: CSslOptions::default(), data: SslOptionsData::new() }
    }

    /// Converts a list of ALPN protocol strings into the wire format: each
    /// protocol's bytes with a length byte in front.
    fn proto_vec(protos: &[&str]) -> (r: Vec<u8>)
        ensures
            r@ == alpn_wire(strs_bytes(protos@)),
    {
        let mut out: Vec<u8> = Vec::new();
        let mut i: usize = 0;
        assert(strs_bytes(protos@).take(0) =~= Seq::<Seq<u8>>::empty());
        while i < protos.len()
            invariant
                i <= protos@.len(),
                out@ == alpn_wire(strs_bytes(protos@).take(i as int)),
            decreases protos@.len() - i,
        {
            let bytes = protos[i].as_bytes();
            out.push(bytes.len() as u8);
            let mut j: usize = 0;
            let ghost before = out@;
            while j < bytes.len()
                invariant
                    j <= bytes@.len(),
                    out@ == before + bytes@.take(j as int),
                decreases bytes@.len() - j,
            {
                out.push(bytes[j]);
                j = j + 1;
                assert(out@ =~= before + bytes@.take(j as int));
            }
            proof {
                let ps = strs_bytes(protos@);
                assert(ps.take(i + 1).drop_last() =~= ps.take(i as int));
                assert(bytes@.take(j as int) =~= bytes@);
                assert(ps[i as int] == bytes@);
            }
            i = i + 1;
            assert(out@ =~= alpn_wire(strs_bytes(protos@).take(i as int)));
        }
        assert(strs_bytes(protos@).take(i as int) =~= strs_bytes(protos@));
        out
    }

    /// Gets the name of the PEM file containing the public digital
    /// certificates trusted by the client.
    pub fn trust_store(&self) -> (r: String)
        ensures
            r@ == self.data.trust_store@,
    {
        self.data.trust_store.clone()
    }

    /// Gets the name of the PEM file containing the public certificate
    /// chain of the client.
    pub fn key_store(&self) -> (r: String)
        ensures
            r@ == self.data.key_store@,
    {
        self.data.key_store.clone()
    }

    /// The PEM file containing the client's private key, if not included
    /// in the Key Store.
    pub fn private_key(&self) -> (r: String)
        ensures
            r@ == self.data.private_key@,
    {
        self.data.private_key.clone()
    }

    /// Gets the list of cipher suites that the client will present to
    /// the server during the SSL handshake.
    pub fn enabled_cipher_suites(&self) -> (r: String)
        ensures
            r@ == self.data.enabled_cipher_suites@,
    {
        self.data.enabled_cipher_suites.clone()
    }

    /// Determine if the client will verify the server certificate.
    pub fn enable_server_cert_auth(&self) -> (r: bool)
        ensures
            r == (self.copts.enableServerCertAuth != 0),
    {
        crate::from_c_bool(self.copts.enableServerCertAuth)
    }

    /// Gets the directory containing CA certificates in PEM format,
    /// if set.
    pub fn ca_path(&self) -> (r: String)
        ensures
            r@ == self.data.ca_path@,
    {
        self.data.ca_path.clone()
    }

    /// Determines if the default trust store should not be loaded.
    pub fn is_default_trust_store_disabled(&self) -> (r: bool)
        ensures
            r == (self.copts.disableDefaultTrustStore != 0),
    {
        self.copts.disableDefaultTrustStore != 0
    }

    /// Gets the list of ALPN protocols available to be negotiated.
    /// This is in the wire format of the data.
    pub fn alpn_proto_vec(&self) -> (r: &[u8])
        ensures
            r@ == self.data.protos@,
    {
        self.data.protos.as_slice()
    }
}

impl Default for SslOptions {
    /// The default SSL options.
    fn default() -> (r: Self)
        ensures
            r.copts == default_ssl_copts(),
            r.data@ == empty_ssl_data(),
    {
        Self::new()
    }
}

impl Clone for SslOptions {
    /// Copies the options.
    fn clone(&self) -> (r: Self)
        ensures
            r.copts == self.copts,
            r.data@ == self.data@,
    {
        SslOptions { copts: self.copts, data: self.data.copy() }
    }
}

/// A set of SSL options, or what a builder holds, by its parts.
pub struct SslOptionsView {
    /// The C options.
    pub copts: CSslOptions,
    /// The strings and protocols.
    pub data: SslDataView,
}

impl View for SslOptions {
    type V = SslOptionsView;

    open spec fn view(&self) -> SslOptionsView {
        SslOptionsView { copts: self.copts, data: self.data@ }
    }
}

/// Builder to create SSL Options.
#[derive(Debug)]
pub struct SslOptionsBuilder {
    copts: CSslOptions,
    data: SslOptionsData,
}

impl View for SslOptionsBuilder {
    type V = SslOptionsView;

    closed spec fn view(&self) -> SslOptionsView {
        SslOptionsView { copts: self.copts, data: self.data@ }
    }
}

impl SslOptionsBuilder {
    /// Creates a new builder with default options.
    pub fn new() -> (r: Self)
        ensures
            r@ == (SslOptionsView { copts: default_ssl_copts(), data: empty_ssl_data() }),
    {
        SslOptionsBuilder { copts: CSslOptions::default(), data: SslOptionsData::new() }
    }

    /// Set the name of the file in PEM format containing the public
    /// digital certificates trusted by the client. A path with a NUL byte
    /// is refused.
    pub fn trust_store(&mut self, trust_store: &str) -> (r: Result<&mut Self, Error>)
        ensures
            match first_nul(trust_store.spec_bytes()) {
                Some(i) => (r matches Err(Error::Nul(p)) && p == i) && final(self)@ == old(self)@,
                None => r matches Ok(b) && b@ == (SslOptionsView {
                    data: SslDataView { trust_store: trust_store@, ..old(self)@.data },
                    ..old(self)@
                }) && final(self)@ == final(b)@,
            },
    {
        match c_string(trust_store) {
            Ok(s) => {
                self.data.trust_store = s;
                Ok(self)
            },
            Err(e) => Err(e),
        }
    }

    /// Set the name of the file in PEM format containing the public
    /// certificate chain of the client. A path with a NUL byte is refused.
    pub fn key_store(&mut self, key_store: &str) -> (r: Result<&mut Self, Error>)
        ensures
            match first_nul(key_store.spec_bytes()) {
                Some(i) => (r matches Err(Error::Nul(p)) && p == i) && final(self)@ == old(self)@,
                None => r matches Ok(b) && b@ == (SslOptionsView {
                    data: SslDataView { key_store: key_store@, ..old(self)@.data },
                    ..old(self)@
                }) && final(self)@ == final(b)@,
            },
    {
        match c_string(key_store) {
            Ok(s) => {
                self.data.key_store = s;
                Ok(self)
            },
            Err(e) => Err(e),
        }
    }

    /// If not included in the Key Store, this setting points to the file
    /// in PEM format containing the client's private key. A path with a NUL
    /// byte is refused.
    pub fn private_key(&mut self, private_key: &str) -> (r: Result<&mut Self, Error>)
        ensures
            match first_nul(private_key.spec_bytes()) {
                Some(i) => (r matches Err(Error::Nul(p)) && p == i) && final(self)@ == old(self)@,
                None => r matches Ok(b) && b@ == (SslOptionsView {
                    data: SslDataView { private_key: private_key@, ..old(self)@.data },
                    ..old(self)@
                }) && final(self)@ == final(b)@,
            },
    {
        match c_string(private_key) {
            Ok(s) => {
                self.data.private_key = s;
                Ok(self)
            },
            Err(e) => Err(e),
        }
    }

    /// The password to load the client's private key if it's encrypted.
    pub fn private_key_password<S: IntoText>(&mut self, private_key_password: S) -> (r: &mut Self)
        requires
            first_nul(encode_utf8(private_key_password.text_view())) is None,
        ensures
            r@ == (SslOptionsView {
                data: SslDataView {
                    private_key_password: private_key_password.text_view(),
                    ..old(self)@.data
                },
                ..old(self)@
            }),
            final(self)@ == final(r)@,
    {
        self.data.private_key_password = private_key_password.into_text();
        self
    }

    /// The list of cipher suites that the client will present to the server
    /// during the SSL handshake, in OpenSSL's cipher list format. Without
    /// it, all the cipher suites that offer encryption are considered.
    pub fn enabled_cipher_suites<S: IntoText>(&mut self, enabled_cipher_suites: S) -> (r: &mut Self)
        requires
            first_nul(encode_utf8(enabled_cipher_suites.text_view())) is None,
        ensures
            r@ == (SslOptionsView {
                data: SslDataView {
                    enabled_cipher_suites: enabled_cipher_suites.text_view(),
                    ..old(self)@.data
                },
                ..old(self)@
            }),
            final(self)@ == final(r)@,
    {
        self.data.enabled_cipher_suites = enabled_cipher_suites.into_text();
        self
    }

    /// Enable or disable verification of the server certificate
    pub fn enable_server_cert_auth(&mut self, on: bool) -> (r: &mut Self)
        ensures
            r@ == (SslOptionsView {
                copts: CSslOptions {
                    enableServerCertAuth: if on { 1i32 } else { 0i32 },
                    ..old(self)@.copts
                },
                ..old(self)@
            }),
            final(self)@ == final(r)@,
    {
        self.copts.enableServerCertAuth = crate::to_c_bool(on);
        self
    }

    /// The SSL/TLS version to use.
    pub fn ssl_version(&mut self, ver: SslVersion) -> (r: &mut Self)
        ensures
            r@ == (SslOptionsView {
                copts: CSslOptions { sslVersion: ssl_version_number(ver), ..old(self)@.copts },
                ..old(self)@
            }),
            final(self)@ == final(r)@,
    {
        self.copts.sslVersion = ver.value();
        self
    }

    /// Whether to carry out post-connect checks, including that a
    /// certificate matches the given host name.
    pub fn verify(&mut self, on: bool) -> (r: &mut Self)
        ensures
            r@ == (SslOptionsView {
                copts: CSslOptions { verify: if on { 1i32 } else { 0i32 }, ..old(self)@.copts },
                ..old(self)@
            }),
            final(self)@ == final(r)@,
    {
        self.copts.verify = crate::to_c_bool(on);
        self
    }

    /// If set, this points to a directory containing CA certificates
    /// in PEM format. A path with a NUL byte is refused.
    pub fn ca_path(&mut self, ca_path: &str) -> (r: Result<&mut Self, Error>)
        ensures
            match first_nul(ca_path.spec_bytes()) {
                Some(i) => (r matches Err(Error::Nul(p)) && p == i) && final(self)@ == old(self)@,
                None => r matches Ok(b) && b@ == (SslOptionsView {
                    data: SslDataView { ca_path: ca_path@, ..old(self)@.data },
                    ..old(self)@
                }) && final(self)@ == final(b)@,
            },
    {
        match c_string(ca_path) {
            Ok(s) => {
                self.data.ca_path = s;
                Ok(self)
            },
            Err(e) => Err(e),
        }
    }

    /// Don't load the default SSL CA.
    ///
    /// This should be used together with PSK to make sure
    /// regular servers with certificate in place is not accepted.
    pub fn disable_default_trust_store(&mut self, disable: bool) -> (r: &mut Self)
        ensures
            r@ == (SslOptionsView {
                copts: CSslOptions {
                    disableDefaultTrustStore: if disable { 1i32 } else { 0i32 },
                    ..old(self)@.copts
                },
                ..old(self)@
            }),
            final(self)@ == final(r)@,
    {
        self.copts.disableDefaultTrustStore = crate::to_c_bool(disable);
        self
    }

    /// If set, only these protocols are used during negotiation.
    pub fn alpn_protos(&mut self, protos: &[&str]) -> (r: &mut Self)
        ensures
            r@ == (SslOptionsView {
                data: SslDataView { protos: alpn_wire(strs_bytes(protos@)), ..old(self)@.data },
                ..old(self)@
            }),
            final(self)@ == final(r)@,
    {
        self.data.protos = SslOptions::proto_vec(protos);
        self
    }

    /// Create the SSL options from the builder; the C struct records the
    /// length of the protocol list.
    pub fn finalize(&self) -> (r: SslOptions)
        ensures
            r.copts == (CSslOptions {
                protos_len: self@.data.protos.len() as u32,
                ..self@.copts
            }),
            r.data@ == self@.data,
    {
        let mut copts = self.copts;
        copts.protos_len = self.data.protos.len() as u32;
        SslOptions { copts, data: self.data.copy() }
    }
}

impl Default for SslOptionsBuilder {
    /// Creates a new builder with default options.
    fn default() -> (r: Self)
        ensures
            r@ == (SslOptionsView { copts: default_ssl_copts(), data: empty_ssl_data() }),
    {
        Self::new()
    }
}


/// The SSL options initializer holds the C library's values: "MQTS",
/// struct version 5, the server certificate checked, the default TLS
/// version (0), no post-connect verification, the default trust store in
/// use and no ALPN protocols.
pub proof fn lemma_ssl_defaults_follow_c_initializer()
    ensures
        ({
            let c = default_ssl_copts();
            &&& c.struct_id == [77u8, 81u8, 84u8, 83u8]
            &&& c.struct_version == 5
            &&& c.enableServerCertAuth == 1
            &&& c.sslVersion == 0
            &&& c.verify == 0
            &&& c.disableDefaultTrustStore == 0
            &&& c.protos_len == 0
        }),
{
}

} // verus!
