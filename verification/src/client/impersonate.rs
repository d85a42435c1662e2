//! The fingerprint domain model: what a browser's TLS ClientHello and
//! HTTP/2 preface look like, as values that a caller puts together.
//!
//! Nothing here fails. A profile that the engine cannot build (an unknown
//! extension number, say) is accepted and refused by the engine later.

use http::header::{HeaderMap, HeaderValue};
use vstd::prelude::*;

use crate::client::codec::encode_extension;
use crate::client::shuffle::{is_chrome_shuffle, shuffle_chrome_tls_extensions};
use crate::ffi::{
    ClientHelloIdFfi, ClientHelloIdModel, ClientHelloSpecFfi, ClientHelloSpecModel,
    ImpersonationConfigFfi, ImpersonationConfigModel, TlsExtensionFfi, UTlsConfigFfi,
    UTlsConfigModel,
};
use crate::headers::{flatten_entries, flatten_headers, header_entries, ValueText};

pub use crate::ffi::{
    Http2PriorityParamFfi as Http2PriorityParam, Http2SettingFfi as Http2Setting,
};

verus! {

/// The value that stands for a GREASE entry in a list of cipher suites,
/// groups or versions. The engine may replace it by another GREASE value.
pub const GREASE_PLACEHOLDER: u16 = 0x0a0a;

// TLS 1.0 - 1.2 cipher suites.
pub const TLS_RSA_WITH_RC4_128_SHA: u16 = 0x0005;
pub const TLS_RSA_WITH_3DES_EDE_CBC_SHA: u16 = 0x000a;
pub const TLS_RSA_WITH_AES_128_CBC_SHA: u16 = 0x002f;
pub const TLS_RSA_WITH_AES_256_CBC_SHA: u16 = 0x0035;
pub const TLS_RSA_WITH_AES_128_CBC_SHA256: u16 = 0x003c;
pub const TLS_RSA_WITH_AES_128_GCM_SHA256: u16 = 0x009c;
pub const TLS_RSA_WITH_AES_256_GCM_SHA384: u16 = 0x009d;
pub const TLS_ECDHE_ECDSA_WITH_RC4_128_SHA: u16 = 0xc007;
pub const TLS_ECDHE_ECDSA_WITH_AES_128_CBC_SHA: u16 = 0xc009;
pub const TLS_ECDHE_ECDSA_WITH_AES_256_CBC_SHA: u16 = 0xc00a;
pub const TLS_ECDHE_RSA_WITH_RC4_128_SHA: u16 = 0xc011;
pub const TLS_ECDHE_RSA_WITH_3DES_EDE_CBC_SHA: u16 = 0xc012;
pub const TLS_ECDHE_RSA_WITH_AES_128_CBC_SHA: u16 = 0xc013;
pub const TLS_ECDHE_RSA_WITH_AES_256_CBC_SHA: u16 = 0xc014;
pub const TLS_ECDHE_ECDSA_WITH_AES_128_CBC_SHA256: u16 = 0xc023;
pub const TLS_ECDHE_RSA_WITH_AES_128_CBC_SHA256: u16 = 0xc027;
pub const TLS_ECDHE_RSA_WITH_AES_128_GCM_SHA256: u16 = 0xc02f;
pub const TLS_ECDHE_ECDSA_WITH_AES_128_GCM_SHA256: u16 = 0xc02b;
pub const TLS_ECDHE_RSA_WITH_AES_256_GCM_SHA384: u16 = 0xc030;
pub const TLS_ECDHE_ECDSA_WITH_AES_256_GCM_SHA384: u16 = 0xc02c;
pub const TLS_ECDHE_RSA_WITH_CHACHA20_POLY1305_SHA256: u16 = 0xcca8;
pub const TLS_ECDHE_ECDSA_WITH_CHACHA20_POLY1305_SHA256: u16 = 0xcca9;

// TLS 1.3 cipher suites.
pub const TLS_AES_128_GCM_SHA256: u16 = 0x1301;
pub const TLS_AES_256_GCM_SHA384: u16 = 0x1302;
pub const TLS_CHACHA20_POLY1305_SHA256: u16 = 0x1303;

/// Not a cipher suite: tells the server that the client falls back to an
/// older version (RFC 7507).
pub const TLS_FALLBACK_SCSV: u16 = 0x5600;

// Older names of the two ChaCha20 suites.
pub const TLS_ECDHE_RSA_WITH_CHACHA20_POLY1305: u16 = TLS_ECDHE_RSA_WITH_CHACHA20_POLY1305_SHA256;
pub const TLS_ECDHE_ECDSA_WITH_CHACHA20_POLY1305: u16 =
    TLS_ECDHE_ECDSA_WITH_CHACHA20_POLY1305_SHA256;

/// Names the browser that a profile imitates, with its version. It tells
/// the engine what the profile is meant to be; no rule of this library
/// depends on it.
#[derive(Debug, Clone, Copy, PartialEq, Eq)]
pub enum ClientHelloId {
    Firefox(&'static str),
    Chrome(&'static str),
    IOS(&'static str),
    Android11Okhttp(&'static str),
    Edge(&'static str),
    Safari(&'static str),
    Custom,
}

impl ClientHelloId {
    /// The browser's name as the engine knows it.
    pub open spec fn spec_client(&self) -> Seq<char> {
        match *self {
            ClientHelloId::Firefox(_) => "Firefox"@,
            ClientHelloId::Chrome(_) => "Chrome"@,
            ClientHelloId::IOS(_) => "iOS"@,
            ClientHelloId::Android11Okhttp(_) => "Android"@,
            ClientHelloId::Edge(_) => "Edge"@,
            ClientHelloId::Safari(_) => "Safari"@,
            ClientHelloId::Custom => "Custom"@,
        }
    }

    /// The version tag; `"0"` for a custom profile.
    pub open spec fn spec_version(&self) -> Seq<char> {
        match *self {
            ClientHelloId::Firefox(v) => v@,
            ClientHelloId::Chrome(v) => v@,
            ClientHelloId::IOS(v) => v@,
            ClientHelloId::Android11Okhttp(v) => v@,
            ClientHelloId::Edge(v) => v@,
            ClientHelloId::Safari(v) => v@,
            ClientHelloId::Custom => "0"@,
        }
    }

    /// The browser's name as the engine knows it.
    #[inline]
    pub fn client(&self) -> (name: &'static str)
        ensures
            name@ == self.spec_client(),
    {
        match self {
            Self::Firefox(_) => "Firefox",
            Self::Chrome(_) => "Chrome",
            Self::IOS(_) => "iOS",
            Self::Android11Okhttp(_) => "Android",
            Self::Edge(_) => "Edge",
            Self::Safari(_) => "Safari",
            Self::Custom => "Custom",
        }
    }

    /// The version tag; `"0"` for a custom profile.
    #[inline]
    pub fn version(&self) -> (tag: &'static str)
        ensures
            tag@ == self.spec_version(),
    {
        match self {
            Self::Firefox(v) => v,
            Self::Chrome(v) => v,
            Self::IOS(v) => v,
            Self::Android11Okhttp(v) => v,
            Self::Edge(v) => v,
            Self::Safari(v) => v,
            Self::Custom => "0",
        }
    }
}

/// An elliptic curve or another key-exchange group.
#[derive(Debug, Clone, Copy, PartialEq, Eq)]
pub enum CurveID {
    CurveP256,
    CurveP384,
    CurveP521,
    X25519,
    /// A group by its registry number.
    Custom(u16),
}

impl CurveID {
    /// The group's number in the TLS registry.
    pub open spec fn spec_code(&self) -> u16 {
        match *self {
            CurveID::CurveP256 => 23,
            CurveID::CurveP384 => 24,
            CurveID::CurveP521 => 25,
            CurveID::X25519 => 29,
            CurveID::Custom(id) => id,
        }
    }

    /// The group that a registry number names: one of the four named
    /// groups where there is one, else `Custom`.
    pub open spec fn spec_from_code(code: u16) -> CurveID {
        if code == 23 {
            CurveID::CurveP256
        } else if code == 24 {
            CurveID::CurveP384
        } else if code == 25 {
            CurveID::CurveP521
        } else if code == 29 {
            CurveID::X25519
        } else {
            CurveID::Custom(code)
        }
    }

    /// Whether the value is the one that its own number names. Only a
    /// `Custom` that carries the number of a named group is not.
    pub open spec fn is_canonical(&self) -> bool {
        match *self {
            CurveID::Custom(id) => id != 23 && id != 24 && id != 25 && id != 29,
            _ => true,
        }
    }

    /// The group's number in the TLS registry.
    #[verifier::when_used_as_spec(spec_code)]
    pub fn code(&self) -> (c: u16)
        ensures
            c == self.spec_code(),
    {
        match self {
            CurveID::CurveP256 => 23,
            CurveID::CurveP384 => 24,
            CurveID::CurveP521 => 25,
            CurveID::X25519 => 29,
            CurveID::Custom(id) => *id,
        }
    }

    /// The group that a registry number names.
    pub fn from_code(code: u16) -> (g: CurveID)
        ensures
            g == CurveID::spec_from_code(code),
            g.spec_code() == code,
            g.is_canonical(),
    {
        if code == 23 {
            CurveID::CurveP256
        } else if code == 24 {
            CurveID::CurveP384
        } else if code == 25 {
            CurveID::CurveP521
        } else if code == 29 {
            CurveID::X25519
        } else {
            CurveID::Custom(code)
        }
    }
}

/// A signature algorithm of TLS.
#[derive(Debug, Copy, Clone, PartialEq, Eq)]
pub enum SignatureScheme {
    // RSASSA-PKCS1-v1_5 algorithms.
    PKCS1WithSHA256,
    PKCS1WithSHA384,
    PKCS1WithSHA512,
    // RSASSA-PSS algorithms with public key OID rsaEncryption.
    PSSWithSHA256,
    PSSWithSHA384,
    PSSWithSHA512,
    // ECDSA algorithms. Only constrained to a specific curve in TLS 1.3.
    ECDSAWithP256AndSHA256,
    ECDSAWithP384AndSHA384,
    ECDSAWithP521AndSHA512,
    // EdDSA algorithms.
    Ed25519,
    // Legacy signature and hash algorithms for TLS 1.2.
    PKCS1WithSHA1,
    ECDSAWithSHA1,
}

impl SignatureScheme {
    /// The algorithm's number in the TLS registry.
    pub open spec fn spec_code(&self) -> u16 {
        match *self {
            SignatureScheme::PKCS1WithSHA256 => 0x0401,
            SignatureScheme::PKCS1WithSHA384 => 0x0501,
            SignatureScheme::PKCS1WithSHA512 => 0x0601,
            SignatureScheme::PSSWithSHA256 => 0x0804,
            SignatureScheme::PSSWithSHA384 => 0x0805,
            SignatureScheme::PSSWithSHA512 => 0x0806,
            SignatureScheme::ECDSAWithP256AndSHA256 => 0x0403,
            SignatureScheme::ECDSAWithP384AndSHA384 => 0x0503,
            SignatureScheme::ECDSAWithP521AndSHA512 => 0x0603,
            SignatureScheme::Ed25519 => 0x0807,
            SignatureScheme::PKCS1WithSHA1 => 0x0201,
            SignatureScheme::ECDSAWithSHA1 => 0x0203,
        }
    }

    /// The algorithm's number in the TLS registry.
    #[verifier::when_used_as_spec(spec_code)]
    pub fn code(&self) -> (c: u16)
        ensures
            c == self.spec_code(),
    {
        match self {
            SignatureScheme::PKCS1WithSHA256 => 0x0401,
            SignatureScheme::PKCS1WithSHA384 => 0x0501,
            SignatureScheme::PKCS1WithSHA512 => 0x0601,
            SignatureScheme::PSSWithSHA256 => 0x0804,
            SignatureScheme::PSSWithSHA384 => 0x0805,
            SignatureScheme::PSSWithSHA512 => 0x0806,
            SignatureScheme::ECDSAWithP256AndSHA256 => 0x0403,
            SignatureScheme::ECDSAWithP384AndSHA384 => 0x0503,
            SignatureScheme::ECDSAWithP521AndSHA512 => 0x0603,
            SignatureScheme::Ed25519 => 0x0807,
            SignatureScheme::PKCS1WithSHA1 => 0x0201,
            SignatureScheme::ECDSAWithSHA1 => 0x0203,
        }
    }
}

/// A version of the TLS protocol.
#[derive(Debug, Clone, Copy, PartialEq, Eq)]
pub enum TlsVersion {
    VersionTLS10,
    VersionTLS11,
    VersionTLS12,
    VersionTLS13,
    /// SSL 3.0 is broken; the number is kept for lists that still name it.
    VersionSSL30,
}

impl TlsVersion {
    /// The version's number on the wire.
    pub open spec fn spec_code(&self) -> u16 {
        match *self {
            TlsVersion::VersionTLS10 => 0x0301,
            TlsVersion::VersionTLS11 => 0x0302,
            TlsVersion::VersionTLS12 => 0x0303,
            TlsVersion::VersionTLS13 => 0x0304,
            TlsVersion::VersionSSL30 => 0x0300,
        }
    }

    /// The version's number on the wire.
    #[verifier::when_used_as_spec(spec_code)]
    pub fn code(&self) -> (c: u16)
        ensures
            c == self.spec_code(),
    {
        match self {
            TlsVersion::VersionTLS10 => 0x0301,
            TlsVersion::VersionTLS11 => 0x0302,
            TlsVersion::VersionTLS12 => 0x0303,
            TlsVersion::VersionTLS13 => 0x0304,
            TlsVersion::VersionSSL30 => 0x0300,
        }
    }
}

/// One extension of the ClientHello. Each case stands for one number of
/// the TLS extension registry (or of a vendor) and carries what the caller
/// may choose of its content.
#[derive(Debug, Clone, PartialEq, Eq)]
pub enum TlsExtension {
    /// server_name; the engine fills in the host.
    ServerName,
    StatusRequest,
    /// supported_groups, in order of preference.
    SupportedCurves(Vec<CurveID>),
    /// ec_point_formats.
    SupportedPoints(Vec<u8>),
    SignatureAlgorithms(Vec<SignatureScheme>),
    /// application_layer_protocol_negotiation: the protocol names.
    ALPN(Vec<&'static str>),
    StatusRequestV2,
    SCT,
    ExtendedMasterSecret,
    /// session_ticket; its content is the engine's.
    SessionTicket,
    /// supported_versions, as TLS version codes.
    SupportedVersions(Vec<u16>),
    /// psk_key_exchange_modes.
    PSKModes(Vec<u8>),
    SignatureAlgorithmsCert(Vec<SignatureScheme>),
    /// key_share: each group with its key bytes; empty bytes let the engine
    /// make the key.
    KeyShare(Vec<(CurveID, Vec<u8>)>),
    /// quic_transport_parameters; its content is the engine's.
    QUICTransportParameters,
    /// renegotiation_info: the renegotiation mode and the data.
    RenegotiationInfo(isize, Vec<u8>),
    /// padding; its content is the engine's. Keeps its place in a shuffle.
    UtlsExtensionPadding,
    /// compress_certificate: the algorithms.
    UtlsExtensionCompressCertificate(Vec<u16>),
    /// application_settings (not assigned by IANA): the protocols.
    UtlsExtensionApplicationSettings(Vec<String>),
    /// encrypted_client_hello; its content is the engine's.
    UtlsExtensionECH,
    /// ech_outer_extensions; its content is the engine's.
    UtlsExtensionECHOuterExtensions,
    /// token_binding: major version, minor version, key parameters.
    FakeExtensionTokenBinding(u8, u8, Vec<u8>),
    /// delegated_credentials: the signature schemes.
    FakeExtensionDelegatedCredentials(Vec<SignatureScheme>),
    /// pre_shared_key; its content is the engine's. Keeps its place in a
    /// shuffle.
    FakeExtensionPreSharedKey,
    /// channel_id, old number (not assigned by IANA).
    FakeOldExtensionChannelID(bool),
    /// channel_id (not assigned by IANA).
    FakeExtensionChannelID(bool),
    /// A GREASE placeholder. Keeps its place in a shuffle.
    TLSGrease,
    /// An extension without payload under a number of the caller's choice.
    Custom(u16),
}

impl TlsExtension {
    /// The extension's number in the registry. `Custom` carries its own.
    pub open spec fn spec_ext_type(&self) -> u16 {
        match *self {
            TlsExtension::ServerName => 0,
            TlsExtension::StatusRequest => 5,
            TlsExtension::SupportedCurves(_) => 10,
            TlsExtension::SupportedPoints(_) => 11,
            TlsExtension::SignatureAlgorithms(_) => 13,
            TlsExtension::ALPN(_) => 16,
            TlsExtension::StatusRequestV2 => 17,
            TlsExtension::SCT => 18,
            TlsExtension::ExtendedMasterSecret => 23,
            TlsExtension::SessionTicket => 35,
            TlsExtension::SupportedVersions(_) => 43,
            TlsExtension::PSKModes(_) => 45,
            TlsExtension::SignatureAlgorithmsCert(_) => 50,
            TlsExtension::KeyShare(_) => 51,
            TlsExtension::QUICTransportParameters => 57,
            TlsExtension::RenegotiationInfo(_, _) => 0xff01,
            TlsExtension::UtlsExtensionPadding => 21,
            TlsExtension::UtlsExtensionCompressCertificate(_) => 27,
            TlsExtension::UtlsExtensionApplicationSettings(_) => 17513,
            TlsExtension::UtlsExtensionECH => 0xfe0d,
            TlsExtension::UtlsExtensionECHOuterExtensions => 0xfd00,
            TlsExtension::FakeExtensionTokenBinding(_, _, _) => 24,
            TlsExtension::FakeExtensionDelegatedCredentials(_) => 34,
            TlsExtension::FakeExtensionPreSharedKey => 41,
            TlsExtension::FakeOldExtensionChannelID(_) => 30031,
            TlsExtension::FakeExtensionChannelID(_) => 30032,
            TlsExtension::TLSGrease => GREASE_PLACEHOLDER,
            TlsExtension::Custom(ext_type) => ext_type,
        }
    }

    /// Whether a shuffle leaves the extension where it is: GREASE,
    /// padding and pre_shared_key.
    pub open spec fn spec_is_pinned(&self) -> bool {
        *self is TLSGrease || *self is UtlsExtensionPadding || *self is FakeExtensionPreSharedKey
    }

    /// The extension's number in the registry. `Custom` carries its own.
    #[verifier::when_used_as_spec(spec_ext_type)]
    pub fn ext_type(&self) -> (n: u16)
        ensures
            n == self.spec_ext_type(),
    {
        match self {
            TlsExtension::ServerName => 0,
            TlsExtension::StatusRequest => 5,
            TlsExtension::SupportedCurves(_) => 10,
            TlsExtension::SupportedPoints(_) => 11,
            TlsExtension::SignatureAlgorithms(_) => 13,
            TlsExtension::ALPN(_) => 16,
            TlsExtension::StatusRequestV2 => 17,
            TlsExtension::SCT => 18,
            TlsExtension::ExtendedMasterSecret => 23,
            TlsExtension::SessionTicket => 35,
            TlsExtension::SupportedVersions(_) => 43,
            TlsExtension::PSKModes(_) => 45,
            TlsExtension::SignatureAlgorithmsCert(_) => 50,
            TlsExtension::KeyShare(_) => 51,
            TlsExtension::QUICTransportParameters => 57,
            TlsExtension::RenegotiationInfo(_, _) => 0xff01,
            TlsExtension::UtlsExtensionPadding => 21,
            TlsExtension::UtlsExtensionCompressCertificate(_) => 27,
            TlsExtension::UtlsExtensionApplicationSettings(_) => 17513,
            TlsExtension::UtlsExtensionECH => 0xfe0d,
            TlsExtension::UtlsExtensionECHOuterExtensions => 0xfd00,
            TlsExtension::FakeExtensionTokenBinding(_, _, _) => 24,
            TlsExtension::FakeExtensionDelegatedCredentials(_) => 34,
            TlsExtension::FakeExtensionPreSharedKey => 41,
            TlsExtension::FakeOldExtensionChannelID(_) => 30031,
            TlsExtension::FakeExtensionChannelID(_) => 30032,
            TlsExtension::TLSGrease => GREASE_PLACEHOLDER,
            TlsExtension::Custom(ext_type) => *ext_type,
        }
    }

    /// Whether a shuffle leaves the extension where it is: GREASE,
    /// padding and pre_shared_key.
    #[verifier::when_used_as_spec(spec_is_pinned)]
    pub fn is_pinned(&self) -> (pinned: bool)
        ensures
            pinned == self.spec_is_pinned(),
    {
        match self {
            TlsExtension::TLSGrease => true,
            TlsExtension::UtlsExtensionPadding => true,
            TlsExtension::FakeExtensionPreSharedKey => true,
            _ => false,
        }
    }
}

/// What a ClientHello is made of: the cipher suites, the compression
/// methods and the extensions, each in the order in which they are sent,
/// and the range of TLS versions on offer.
///
/// A value is put together by chaining the `set_` and `add_` functions,
/// each of which hands the changed value back. The lists go to the engine
/// in the order given here, unless a shuffle is asked for.
#[derive(Debug)]
pub struct ClientHelloSpec {
    cipher_suites: Vec<u16>,
    compression_methods: Vec<u8>,
    extensions: Vec<TlsExtension>,
    tls_version_min: TlsVersion,
    tls_version_max: TlsVersion,
}

/// The view of a [`ClientHelloSpec`].
pub ghost struct ClientHelloSpecView {
    pub cipher_suites: Seq<u16>,
    pub compression_methods: Seq<u8>,
    pub extensions: Seq<TlsExtension>,
    pub tls_version_min: TlsVersion,
    pub tls_version_max: TlsVersion,
}

impl ClientHelloSpecView {
    /// What a new `ClientHelloSpec` holds: no cipher suite, the one
    /// compression method 0 ("none"), no extension, TLS 1.2 to 1.3.
    pub open spec fn initial() -> ClientHelloSpecView {
        ClientHelloSpecView {
            cipher_suites: Seq::empty(),
            compression_methods: seq![0u8],
            extensions: Seq::empty(),
            tls_version_min: TlsVersion::VersionTLS12,
            tls_version_max: TlsVersion::VersionTLS13,
        }
    }
}

impl View for ClientHelloSpec {
    type V = ClientHelloSpecView;

    closed spec fn view(&self) -> ClientHelloSpecView {
        ClientHelloSpecView {
            cipher_suites: self.cipher_suites@,
            compression_methods: self.compression_methods@,
            extensions: self.extensions@,
            tls_version_min: self.tls_version_min,
            tls_version_max: self.tls_version_max,
        }
    }
}

impl Default for ClientHelloSpec {
    fn default() -> (spec: Self)
        ensures
            spec@ == ClientHelloSpecView::initial(),
    {
        let mut compression_methods: Vec<u8> = Vec::with_capacity(1);
        compression_methods.push(0);
        assert(compression_methods@ =~= seq![0u8]);
        Self {
            cipher_suites: Vec::with_capacity(32),
            compression_methods,
            extensions: Vec::with_capacity(32),
            tls_version_min: TlsVersion::VersionTLS12,
            tls_version_max: TlsVersion::VersionTLS13,
        }
    }
}

impl ClientHelloSpec {
    /// A ClientHello with no cipher suite and no extension, compression
    /// "none", and TLS 1.2 to 1.3.
    #[inline]
    pub fn new() -> (spec: Self)
        ensures
            spec@ == ClientHelloSpecView::initial(),
    {
        Self::default()
    }

    /// Adds one cipher suite behind those that are there.
    #[inline]
    pub fn add_cipher_suite(self, cipher_suite: u16) -> (spec: Self)
        ensures
            spec@ == (ClientHelloSpecView {
                cipher_suites: self@.cipher_suites.push(cipher_suite),
                ..self@
            }),
    {
        let mut spec = self;
        spec.cipher_suites.push(cipher_suite);
        spec
    }

    /// Adds cipher suites, in their order, behind those that are there.
    #[inline]
    pub fn add_cipher_suites(self, cipher_suites: Vec<u16>) -> (spec: Self)
        ensures
            spec@ == (ClientHelloSpecView {
                cipher_suites: self@.cipher_suites + cipher_suites@,
                ..self@
            }),
    {
        let mut spec = self;
        let mut cipher_suites = cipher_suites;
        spec.cipher_suites.append(&mut cipher_suites);
        spec
    }

    /// Replaces the cipher suites.
    #[inline]
    pub fn set_cipher_suites(self, cipher_suites: Vec<u16>) -> (spec: Self)
        ensures
            spec@ == (ClientHelloSpecView { cipher_suites: cipher_suites@, ..self@ }),
    {
        let mut spec = self;
        spec.cipher_suites = cipher_suites;
        spec
    }

    /// Replaces the compression methods.
    #[inline]
    pub fn set_compression_method(self, compression_methods: Vec<u8>) -> (spec: Self)
        ensures
            spec@ == (ClientHelloSpecView { compression_methods: compression_methods@, ..self@ }),
    {
        let mut spec = self;
        spec.compression_methods = compression_methods;
        spec
    }

    /// Adds one extension behind those that are there.
    #[inline]
    pub fn add_extension(self, extension: TlsExtension) -> (spec: Self)
        ensures
            spec@ == (ClientHelloSpecView {
                extensions: self@.extensions.push(extension),
                ..self@
            }),
    {
        let mut spec = self;
        spec.extensions.push(extension);
        spec
    }

    /// Adds extensions, in their order, behind those that are there.
    #[inline]
    pub fn add_extensions(self, extensions: Vec<TlsExtension>) -> (spec: Self)
        ensures
            spec@ == (ClientHelloSpecView {
                extensions: self@.extensions + extensions@,
                ..self@
            }),
    {
        let mut spec = self;
        let mut extensions = extensions;
        spec.extensions.append(&mut extensions);
        spec
    }

    /// Replaces the extensions.
    ///
    /// Without `enable_shuffle` the list is taken as it is. With it the
    /// list is shuffled first, as Chrome has done since version 106:
    /// every extension may move but GREASE, padding and pre_shared_key.
    #[inline]
    pub fn set_extensions(self, enable_shuffle: bool, extensions: Vec<TlsExtension>) -> (spec:
        Self)
        ensures
            spec@.cipher_suites == self@.cipher_suites,
            spec@.compression_methods == self@.compression_methods,
            spec@.tls_version_min == self@.tls_version_min,
            spec@.tls_version_max == self@.tls_version_max,
            !enable_shuffle ==> spec@.extensions == extensions@,
            enable_shuffle ==> is_chrome_shuffle(extensions@, spec@.extensions),
    {
        let mut spec = self;
        spec.extensions = if enable_shuffle {
            shuffle_chrome_tls_extensions(extensions)
        } else {
            extensions
        };
        spec
    }

    /// Sets the lowest TLS version on offer.
    #[inline]
    pub fn set_tls_version_min(self, tls_version_min: TlsVersion) -> (spec: Self)
        ensures
            spec@ == (ClientHelloSpecView { tls_version_min, ..self@ }),
    {
        let mut spec = self;
        spec.tls_version_min = tls_version_min;
        spec
    }

    /// Sets the highest TLS version on offer.
    #[inline]
    pub fn set_tls_version_max(self, tls_version_max: TlsVersion) -> (spec: Self)
        ensures
            spec@ == (ClientHelloSpecView { tls_version_max, ..self@ }),
    {
        let mut spec = self;
        spec.tls_version_max = tls_version_max;
        spec
    }
}

/// The flat form of a ClientHello: the lists as they are, each extension
/// flattened, the versions as their numbers.
pub open spec fn encode_client_hello(spec: ClientHelloSpecView) -> ClientHelloSpecModel {
    ClientHelloSpecModel {
        cipher_suites: spec.cipher_suites,
        compression_methods: spec.compression_methods,
        extensions: spec.extensions.map_values(|ext: TlsExtension| encode_extension(ext)),
        tls_version_min: spec.tls_version_min.spec_code(),
        tls_version_max: spec.tls_version_max.spec_code(),
    }
}

impl From<ClientHelloSpec> for ClientHelloSpecFfi {
    /// Flattens a ClientHello. The lists keep their order.
    fn from(value: ClientHelloSpec) -> (r: Self)
        ensures
            r.deep_view() == encode_client_hello(value@),
    {
        let mut extensions: Vec<TlsExtensionFfi> = Vec::with_capacity(value.extensions.len());
        let ghost given = value.extensions@;
        for ext in it: value.extensions
            invariant
                it.seq() == given,
                extensions.len() == it.index(),
                forall|j: int|
                    0 <= j < it.index() ==> (#[trigger] extensions@[j])@ == encode_extension(
                        given[j],
                    ),
        {
            extensions.push(TlsExtensionFfi::from(ext));
        }
        let r = ClientHelloSpecFfi {
            cipher_suites: value.cipher_suites,
            compression_methods: value.compression_methods,
            extensions,
            tls_version_min: value.tls_version_min.code(),
            tls_version_max: value.tls_version_max.code(),
        };
        assert(r.extensions.deep_view() =~= encode_client_hello(value@).extensions);
        r
    }
}

impl vstd::std_specs::convert::FromSpecImpl<ClientHelloSpec> for ClientHelloSpecFfi {
    /// A record is told by its view; `from` states it in its own clause.
    open spec fn obeys_from_spec() -> bool {
        false
    }

    open spec fn from_spec(value: ClientHelloSpec) -> Self {
        choose|r: ClientHelloSpecFfi| r.deep_view() == encode_client_hello(value@)
    }
}

/// The TLS part of a profile: which browser it imitates and, for a profile
/// of the caller's, the ClientHello. Without one the engine gets a new
/// [`ClientHelloSpec`].
#[derive(Debug)]
pub struct UTlsConfig {
    pub id: ClientHelloId,
    pub spec: Option<ClientHelloSpec>,
}

/// The flat form of the TLS part of a profile.
pub open spec fn encode_utls_config(
    id: ClientHelloId,
    spec: Option<ClientHelloSpecView>,
) -> UTlsConfigModel {
    UTlsConfigModel {
        id: ClientHelloIdModel { client: id.spec_client(), version: id.spec_version() },
        spec: encode_client_hello(
            match spec {
                Some(s) => s,
                None => ClientHelloSpecView::initial(),
            },
        ),
    }
}

impl UTlsConfig {
    /// The ClientHello as a plain value, where there is one.
    pub open spec fn spec_view(&self) -> Option<ClientHelloSpecView> {
        match self.spec {
            Some(s) => Some(s@),
            None => None,
        }
    }
}

impl From<UTlsConfig> for UTlsConfigFfi {
    /// Flattens the TLS part of a profile.
    fn from(value: UTlsConfig) -> (r: Self)
        ensures
            r.deep_view() == encode_utls_config(value.id, value.spec_view()),
    {
        let spec = match value.spec {
            Some(s) => s,
            None => ClientHelloSpec::default(),
        };
        Self {
            id: ClientHelloIdFfi {
                client: value.id.client().to_owned(),
                version: value.id.version().to_owned(),
            },
            spec: ClientHelloSpecFfi::from(spec),
        }
    }
}

impl vstd::std_specs::convert::FromSpecImpl<UTlsConfig> for UTlsConfigFfi {
    /// A record is told by its view; `from` states it in its own clause.
    open spec fn obeys_from_spec() -> bool {
        false
    }

    open spec fn from_spec(value: UTlsConfig) -> Self {
        choose|r: UTlsConfigFfi| r.deep_view() == encode_utls_config(value.id, value.spec_view())
    }
}

/// An impersonation profile: the TLS part, and what makes the HTTP/2
/// connection look like the browser's.
#[derive(Debug)]
pub struct ImpersonationConfig {
    /// TLS fingerprint
    pub utls_config: UTlsConfig,
    /// The entries of the HTTP/2 SETTINGS frame, in the order in which
    /// they are sent
    pub http2_settings_frame: Vec<Http2Setting>,
    /// The increment of the connection's flow-control window
    pub http2_connection_flow: u32,
    /// The order of the pseudo headers `:method`, `:authority`, `:scheme`
    /// and `:path`
    pub common_pseudo_header_order: Vec<String>,
    /// The order of the other headers
    pub common_header_order: Vec<String>,
    /// The headers that the browser sends with every request
    pub common_headers: HeaderMap<HeaderValue>,
    /// The priority of the headers frame
    pub http2_header_priority: Http2PriorityParam,
}

impl ImpersonationConfig {
    /// The flat form of the profile. The lists keep their order; the
    /// common headers are flattened name by name, and a value that is not
    /// all visible ASCII becomes the empty string.
    pub open spec fn encoded(&self) -> ImpersonationConfigModel {
        ImpersonationConfigModel {
            utls_config: encode_utls_config(self.utls_config.id, self.utls_config.spec_view()),
            http2_settings_frame: self.http2_settings_frame@,
            http2_connection_flow: self.http2_connection_flow,
            common_pseudo_header_order: self.common_pseudo_header_order.deep_view(),
            common_header_order: self.common_header_order.deep_view(),
            common_headers: flatten_entries(
                header_entries(self.common_headers),
                ValueText::VisibleAscii,
            ),
            http2_header_priority: self.http2_header_priority,
        }
    }
}

impl From<ImpersonationConfig> for ImpersonationConfigFfi {
    /// Flattens a profile.
    fn from(value: ImpersonationConfig) -> (r: Self)
        ensures
            r.deep_view() == value.encoded(),
    {
        let common_headers = flatten_headers(&value.common_headers, ValueText::VisibleAscii);
        Self {
            utls_config: UTlsConfigFfi::from(value.utls_config),
            http2_settings_frame: value.http2_settings_frame,
            http2_connection_flow: value.http2_connection_flow,
            common_pseudo_header_order: value.common_pseudo_header_order,
            common_header_order: value.common_header_order,
            common_headers,
            http2_header_priority: value.http2_header_priority,
        }
    }
}

impl vstd::std_specs::convert::FromSpecImpl<ImpersonationConfig> for ImpersonationConfigFfi {
    /// A record is told by its view; `from` states it in its own clause.
    open spec fn obeys_from_spec() -> bool {
        false
    }

    open spec fn from_spec(value: ImpersonationConfig) -> Self {
        choose|r: ImpersonationConfigFfi| r.deep_view() == value.encoded()
    }
}

} // verus!
