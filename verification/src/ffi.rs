//! The flat records that cross the boundary to the transport engine.
//!
//! Each record is a struct of integers, booleans, strings and lists of
//! them, so that any call mechanism can carry it. The view of a record is
//! the same record over mathematical sequences; the contracts of the
//! encoders and decoders speak of those views.

use vstd::prelude::*;

use crate::error::go_error::{go_error_of, GoError};
use crate::error::{ErrorModel, ErrorType};

verus! {

// === Results ===

/// The engine's answer to a call without a payload.
#[derive(Debug, Clone, PartialEq, Eq)]
pub struct GoResultFfi {
    /// Zero on success.
    pub code: i32,
    pub message: String,
}

/// What a status code and message become for the caller: nothing on code
/// zero, else the error of the table in [`go_error_of`].
pub open spec fn outcome_of(code: i32, message: Seq<char>) -> Option<ErrorModel> {
    if code == 0 {
        None
    } else {
        Some(ErrorModel::Engine(go_error_of(code, message)))
    }
}

impl GoResultFfi {
    /// Success on code zero; any other code becomes the error that the
    /// code and message stand for.
    pub fn into_result(self) -> (r: Result<(), ErrorType>)
        ensures
            r is Ok <==> self.code == 0,
            r matches Err(e) ==> Some(e@) == outcome_of(self.code, self.message@),
    {
        if self.code == 0 {
            Ok(())
        } else {
            Err(ErrorType::from(GoError::from((self.code, self.message))))
        }
    }
}

// === Client configuration ===

/// What the engine is initialised with.
#[derive(Debug, Clone, PartialEq, Eq)]
pub struct ClientConfigFfi {
    /// Proxy address: an `http`, `https` or `socks5` URL. Empty or
    /// `"direct"` means no proxy; `"auto"` or `"env"` lets the engine read
    /// the environment.
    pub proxy: String,
    /// Selects one of the engine's own profiles: 0 Chrome, 1 Firefox,
    /// 2 Safari; 255 announces a profile of the caller's.
    pub impersonation_template: u8,
}

// === Impersonation profile ===

/// An impersonation profile in flat form.
#[derive(Debug, Clone, PartialEq, Eq)]
pub struct ImpersonationConfigFfi {
    pub utls_config: UTlsConfigFfi,
    pub http2_settings_frame: Vec<Http2SettingFfi>,
    pub http2_connection_flow: u32,
    pub common_pseudo_header_order: Vec<String>,
    pub common_header_order: Vec<String>,
    pub common_headers: Vec<HttpHeaderFfi>,
    pub http2_header_priority: Http2PriorityParamFfi,
}

/// The view of an [`ImpersonationConfigFfi`].
pub ghost struct ImpersonationConfigModel {
    pub utls_config: UTlsConfigModel,
    pub http2_settings_frame: Seq<Http2SettingFfi>,
    pub http2_connection_flow: u32,
    pub common_pseudo_header_order: Seq<Seq<char>>,
    pub common_header_order: Seq<Seq<char>>,
    pub common_headers: Seq<HttpHeaderModel>,
    pub http2_header_priority: Http2PriorityParamFfi,
}

impl DeepView for ImpersonationConfigFfi {
    type V = ImpersonationConfigModel;

    open spec fn deep_view(&self) -> ImpersonationConfigModel {
        ImpersonationConfigModel {
            utls_config: self.utls_config.deep_view(),
            http2_settings_frame: self.http2_settings_frame@,
            http2_connection_flow: self.http2_connection_flow,
            common_pseudo_header_order: self.common_pseudo_header_order.deep_view(),
            common_header_order: self.common_header_order.deep_view(),
            common_headers: self.common_headers.deep_view(),
            http2_header_priority: self.http2_header_priority,
        }
    }
}

/// The TLS part of a profile in flat form.
#[derive(Debug, Clone, PartialEq, Eq)]
pub struct UTlsConfigFfi {
    pub id: ClientHelloIdFfi,
    pub spec: ClientHelloSpecFfi,
}

/// The view of a [`UTlsConfigFfi`].
pub ghost struct UTlsConfigModel {
    pub id: ClientHelloIdModel,
    pub spec: ClientHelloSpecModel,
}

impl DeepView for UTlsConfigFfi {
    type V = UTlsConfigModel;

    open spec fn deep_view(&self) -> UTlsConfigModel {
        UTlsConfigModel { id: self.id.deep_view(), spec: self.spec.deep_view() }
    }
}

/// Names the browser that a profile imitates.
#[derive(Debug, Clone, PartialEq, Eq)]
pub struct ClientHelloIdFfi {
    pub client: String,
    pub version: String,
}

/// The view of a [`ClientHelloIdFfi`].
pub ghost struct ClientHelloIdModel {
    pub client: Seq<char>,
    pub version: Seq<char>,
}

impl DeepView for ClientHelloIdFfi {
    type V = ClientHelloIdModel;

    open spec fn deep_view(&self) -> ClientHelloIdModel {
        ClientHelloIdModel { client: self.client@, version: self.version@ }
    }
}

/// A ClientHello in flat form.
#[derive(Debug, Clone, PartialEq, Eq)]
pub struct ClientHelloSpecFfi {
    pub cipher_suites: Vec<u16>,
    pub compression_methods: Vec<u8>,
    pub extensions: Vec<TlsExtensionFfi>,
    pub tls_version_min: u16,
    pub tls_version_max: u16,
}

/// The view of a [`ClientHelloSpecFfi`].
pub ghost struct ClientHelloSpecModel {
    pub cipher_suites: Seq<u16>,
    pub compression_methods: Seq<u8>,
    pub extensions: Seq<TlsExtensionModel>,
    pub tls_version_min: u16,
    pub tls_version_max: u16,
}

impl DeepView for ClientHelloSpecFfi {
    type V = ClientHelloSpecModel;

    open spec fn deep_view(&self) -> ClientHelloSpecModel {
        ClientHelloSpecModel {
            cipher_suites: self.cipher_suites@,
            compression_methods: self.compression_methods@,
            extensions: self.extensions.deep_view(),
            tls_version_min: self.tls_version_min,
            tls_version_max: self.tls_version_max,
        }
    }
}

/// One TLS extension in flat form: its registry number and a fixed set of
/// slots. Which slots carry meaning follows from the number alone; the
/// others hold their type's default.
#[derive(Debug, Clone, PartialEq, Eq)]
pub struct TlsExtensionFfi {
    pub ext_type: u16,
    pub vec_u32: Vec<u32>,
    pub vec_u16: Vec<u16>,
    pub vec_u8: Vec<u8>,
    pub vec_usize: Vec<usize>,
    pub vec_string: Vec<String>,
    pub data_isize: isize,
    pub data_bool: bool,
}

/// The view of a [`TlsExtensionFfi`].
pub ghost struct TlsExtensionModel {
    pub ext_type: u16,
    pub vec_u32: Seq<u32>,
    pub vec_u16: Seq<u16>,
    pub vec_u8: Seq<u8>,
    pub vec_usize: Seq<usize>,
    pub vec_string: Seq<Seq<char>>,
    pub data_isize: isize,
    pub data_bool: bool,
}

impl TlsExtensionModel {
    /// The record of an extension without a payload: every slot at its
    /// default.
    pub open spec fn bare(ext_type: u16) -> TlsExtensionModel {
        TlsExtensionModel {
            ext_type,
            vec_u32: Seq::empty(),
            vec_u16: Seq::empty(),
            vec_u8: Seq::empty(),
            vec_usize: Seq::empty(),
            vec_string: Seq::empty(),
            data_isize: 0,
            data_bool: false,
        }
    }
}

impl DeepView for TlsExtensionFfi {
    type V = TlsExtensionModel;

    open spec fn deep_view(&self) -> TlsExtensionModel {
        TlsExtensionModel {
            ext_type: self.ext_type,
            vec_u32: self.vec_u32@,
            vec_u16: self.vec_u16@,
            vec_u8: self.vec_u8@,
            vec_usize: self.vec_usize@,
            vec_string: self.vec_string.deep_view(),
            data_isize: self.data_isize,
            data_bool: self.data_bool,
        }
    }
}

impl View for TlsExtensionFfi {
    type V = TlsExtensionModel;

    open spec fn view(&self) -> TlsExtensionModel {
        self.deep_view()
    }
}

impl TlsExtensionFfi {
    /// The record of an extension without a payload.
    pub fn bare(ext_type: u16) -> (r: Self)
        ensures
            r@ == TlsExtensionModel::bare(ext_type),
    {
        let r = TlsExtensionFfi {
            ext_type,
            vec_u32: Vec::new(),
            vec_u16: Vec::new(),
            vec_u8: Vec::new(),
            vec_usize: Vec::new(),
            vec_string: Vec::new(),
            data_isize: 0,
            data_bool: false,
        };
        assert(r.vec_string.deep_view() =~= Seq::<Seq<char>>::empty());
        r
    }
}

impl Default for TlsExtensionFfi {
    fn default() -> (r: Self)
        ensures
            r@ == TlsExtensionModel::bare(0),
    {
        TlsExtensionFfi::bare(0)
    }
}

// === HTTP/2 fingerprint ===

/// One entry of the HTTP/2 SETTINGS frame.
#[derive(Debug, Clone, Copy, PartialEq, Eq)]
pub struct Http2SettingFfi {
    pub setting_id: u16,
    pub setting_val: u32,
}

/// The priority that the engine gives to the headers frame.
#[derive(Debug, Clone, Copy, PartialEq, Eq)]
pub struct Http2PriorityParamFfi {
    pub stream_dep: u32,
    pub exclusive: bool,
    pub weight: u8,
}

// === Requests and responses ===

/// A request in flat form.
#[derive(Debug, Clone, PartialEq, Eq)]
pub struct HttpRequestFfi {
    pub url: String,
    /// 0 GET, 1 POST, 2 PATCH, 3 DELETE, 4 PUT, 5 HEAD, 6 OPTIONS.
    pub method: u8,
    pub body: Vec<u8>,
    pub headers: Vec<HttpHeaderFfi>,
}

/// The view of an [`HttpRequestFfi`].
pub ghost struct HttpRequestModel {
    pub url: Seq<char>,
    pub method: u8,
    pub body: Seq<u8>,
    pub headers: Seq<HttpHeaderModel>,
}

impl DeepView for HttpRequestFfi {
    type V = HttpRequestModel;

    open spec fn deep_view(&self) -> HttpRequestModel {
        HttpRequestModel {
            url: self.url@,
            method: self.method,
            body: self.body@,
            headers: self.headers.deep_view(),
        }
    }
}

impl View for HttpRequestFfi {
    type V = HttpRequestModel;

    open spec fn view(&self) -> HttpRequestModel {
        self.deep_view()
    }
}

/// One header name with all its values, in their order.
#[derive(Debug, Clone, PartialEq, Eq)]
pub struct HttpHeaderFfi {
    pub k: String,
    pub v: Vec<String>,
}

/// The view of an [`HttpHeaderFfi`].
pub ghost struct HttpHeaderModel {
    pub k: Seq<char>,
    pub v: Seq<Seq<char>>,
}

impl DeepView for HttpHeaderFfi {
    type V = HttpHeaderModel;

    open spec fn deep_view(&self) -> HttpHeaderModel {
        HttpHeaderModel { k: self.k@, v: self.v.deep_view() }
    }
}

impl View for HttpHeaderFfi {
    type V = HttpHeaderModel;

    open spec fn view(&self) -> HttpHeaderModel {
        self.deep_view()
    }
}

/// A response in flat form.
#[derive(Debug, Clone, PartialEq, Eq)]
pub struct HttpResponseFfi {
    /// The status code.
    pub code: isize,
    pub proto_major: isize,
    pub proto_minor: isize,
    pub headers: Vec<HttpHeaderFfi>,
    /// The body.
    pub data: Vec<u8>,
}

/// The view of an [`HttpResponseFfi`].
pub ghost struct HttpResponseModel {
    pub code: isize,
    pub proto_major: isize,
    pub proto_minor: isize,
    pub headers: Seq<HttpHeaderModel>,
    pub data: Seq<u8>,
}

impl DeepView for HttpResponseFfi {
    type V = HttpResponseModel;

    open spec fn deep_view(&self) -> HttpResponseModel {
        HttpResponseModel {
            code: self.code,
            proto_major: self.proto_major,
            proto_minor: self.proto_minor,
            headers: self.headers.deep_view(),
            data: self.data@,
        }
    }
}

impl View for HttpResponseFfi {
    type V = HttpResponseModel;

    open spec fn view(&self) -> HttpResponseModel {
        self.deep_view()
    }
}

/// The engine's answer to `send`: status, message and the response, which
/// counts only on code zero.
#[derive(Debug, Clone, PartialEq, Eq)]
pub struct GoResultHttpResponseFfi {
    pub code: i32,
    pub message: String,
    pub data: HttpResponseFfi,
}

impl GoResultHttpResponseFfi {
    /// On code zero the flat response as it came; on any other code the
    /// error that the code and message stand for. The response is decoded
    /// in a step of its own, [`crate::response::Response::decode`].
    pub fn into_result(self) -> (r: Result<HttpResponseFfi, ErrorType>)
        ensures
            r is Ok <==> self.code == 0,
            r matches Ok(data) ==> data == self.data,
            r matches Err(e) ==> Some(e@) == outcome_of(self.code, self.message@),
    {
        if self.code == 0 {
            Ok(self.data)
        } else {
            Err(ErrorType::from(GoError::from((self.code, self.message))))
        }
    }
}

} // verus!
