//! Requests and their flat form.

use http::header::{HeaderMap, HeaderValue};
use http::Extensions;
use vstd::prelude::*;

use crate::error::{ErrorModel, ErrorType};
use crate::ffi::{HttpRequestFfi, HttpRequestModel};
use crate::headers::{
    flatten_entries, flatten_headers, header_entries, header_map_with_capacity, same_text,
    HeaderEntries, ValueText,
};

verus! {

// === What the http crate does for a request ===

/// `http::Extensions`, of which nothing is known.
#[verifier::external_type_specification]
#[verifier::external_body]
pub struct ExExtensions(Extensions);

/// `Extensions::new`: an empty bag. Nothing is claimed of it.
pub assume_specification[ Extensions::new ]() -> Extensions;

/// What the `http` crate makes of a text that is read as a URI and
/// written out again: the URI in the crate's own writing, or nothing where
/// the text is no URI.
pub uninterp spec fn uri_normal_form(text: Seq<char>) -> Option<Seq<char>>;

/// `str::parse` to an `http::Uri`, written out by its `Display`: the URI
/// that the text stands for, as text again, or nothing.
#[verifier::external_body]
fn normalize_uri(text: &str) -> (normal: Option<String>)
    ensures
        match normal {
            Some(written) => uri_normal_form(text@) == Some(written@),
            None => uri_normal_form(text@) is None,
        },
{
    match text.parse::<http::Uri>() {
        Ok(uri) => Some(uri.to_string()),
        Err(_) => None,
    }
}

// === Targets ===

/// Whether a text is a URI as the `http` crate writes one.
pub open spec fn is_uri_text(text: Seq<char>) -> bool {
    exists|from: Seq<char>| #[trigger] uri_normal_form(from) == Some(text)
}

/// The target of a request: a URI, held as the `http` crate writes it.
#[derive(Debug, PartialEq, Eq)]
pub struct Uri {
    text: String,
}

impl Clone for Uri {
    fn clone(&self) -> (uri: Self)
        ensures
            uri@ == self@,
    {
        proof {
            use_type_invariant(self);
        }
        Uri { text: self.text.clone() }
    }
}

impl View for Uri {
    type V = Seq<char>;

    closed spec fn view(&self) -> Seq<char> {
        self.text@
    }
}

impl Uri {
    #[verifier::type_invariant]
    closed spec fn well_formed(&self) -> bool {
        is_uri_text(self.text@)
    }

    /// The URI that a text stands for; none where the text is no URI.
    pub fn parse(text: &str) -> (uri: Option<Uri>)
        ensures
            match uri {
                Some(u) => uri_normal_form(text@) == Some(u@),
                None => uri_normal_form(text@) is None,
            },
    {
        match normalize_uri(text) {
            Some(text) => Some(Uri { text }),
            None => None,
        }
    }

    /// The URI as text.
    pub fn as_str(&self) -> (text: &str)
        ensures
            text@ == self@,
            is_uri_text(text@),
    {
        proof {
            use_type_invariant(self);
        }
        self.text.as_str()
    }

    /// The URI as text, leaving the value behind.
    pub fn into_string(self) -> (text: String)
        ensures
            text@ == self@,
            is_uri_text(text@),
    {
        proof {
            use_type_invariant(&self);
        }
        self.text
    }
}

// === Methods ===

/// The seven verbs that the engine knows have the codes 0 to 6.
pub const METHOD_GET: u8 = 0;

pub const METHOD_POST: u8 = 1;

pub const METHOD_PATCH: u8 = 2;

pub const METHOD_DELETE: u8 = 3;

pub const METHOD_PUT: u8 = 4;

pub const METHOD_HEAD: u8 = 5;

pub const METHOD_OPTIONS: u8 = 6;

/// The verb of a request.
#[derive(Debug, Clone, PartialEq, Eq)]
pub enum Method {
    Get,
    Post,
    Patch,
    Delete,
    Put,
    Head,
    Options,
    /// Any other verb, by its name.
    Extension(String),
}

/// The code of the verb of that name; none unless the name is one of the
/// seven, in capitals.
pub open spec fn method_code_of(name: Seq<char>) -> Option<u8> {
    if name == "GET"@ {
        Some(METHOD_GET)
    } else if name == "POST"@ {
        Some(METHOD_POST)
    } else if name == "PATCH"@ {
        Some(METHOD_PATCH)
    } else if name == "DELETE"@ {
        Some(METHOD_DELETE)
    } else if name == "PUT"@ {
        Some(METHOD_PUT)
    } else if name == "HEAD"@ {
        Some(METHOD_HEAD)
    } else if name == "OPTIONS"@ {
        Some(METHOD_OPTIONS)
    } else {
        None
    }
}

/// The name of the verb with that code.
pub open spec fn method_name_of(code: u8) -> Seq<char> {
    if code == METHOD_GET {
        "GET"@
    } else if code == METHOD_POST {
        "POST"@
    } else if code == METHOD_PATCH {
        "PATCH"@
    } else if code == METHOD_DELETE {
        "DELETE"@
    } else if code == METHOD_PUT {
        "PUT"@
    } else if code == METHOD_HEAD {
        "HEAD"@
    } else {
        "OPTIONS"@
    }
}

/// The seven names differ from each other.
proof fn lemma_method_names_differ()
    ensures
        method_code_of("GET"@) == Some(METHOD_GET),
        method_code_of("POST"@) == Some(METHOD_POST),
        method_code_of("PATCH"@) == Some(METHOD_PATCH),
        method_code_of("DELETE"@) == Some(METHOD_DELETE),
        method_code_of("PUT"@) == Some(METHOD_PUT),
        method_code_of("HEAD"@) == Some(METHOD_HEAD),
        method_code_of("OPTIONS"@) == Some(METHOD_OPTIONS),
{
    reveal_strlit("GET");
    reveal_strlit("POST");
    reveal_strlit("PATCH");
    reveal_strlit("DELETE");
    reveal_strlit("PUT");
    reveal_strlit("HEAD");
    reveal_strlit("OPTIONS");
    assert("GET"@.len() == 3 && "PUT"@.len() == 3 && "GET"@[0] != "PUT"@[0]);
    assert("POST"@.len() == 4 && "HEAD"@.len() == 4 && "POST"@[0] != "HEAD"@[0]);
    assert("PATCH"@.len() == 5);
    assert("DELETE"@.len() == 6);
    assert("OPTIONS"@.len() == 7);
}

/// The codes of the seven verbs and their names match one to one: two
/// names with the same code are the same name, every code is one of 0 to
/// 6, and each of these is the code of its own name. A name that is none
/// of the seven has no code.
pub proof fn lemma_method_codes_one_to_one(a: Seq<char>, b: Seq<char>, code: u8)
    ensures
        method_code_of(a) is Some && method_code_of(a) == method_code_of(b) ==> a == b,
        method_code_of(a) matches Some(c) ==> c <= METHOD_OPTIONS && method_name_of(c) == a,
        code <= METHOD_OPTIONS ==> method_code_of(method_name_of(code)) == Some(code),
        method_code_of(a) is None <==> a != "GET"@ && a != "POST"@ && a != "PATCH"@ && a
            != "DELETE"@ && a != "PUT"@ && a != "HEAD"@ && a != "OPTIONS"@,
{
    lemma_method_names_differ();
}

/// The code of the verb of that name. A name that is none of the seven,
/// in capitals, is refused.
pub fn method_code(name: &str) -> (r: Result<u8, ErrorType>)
    ensures
        match r {
            Ok(code) => method_code_of(name@) == Some(code),
            Err(e) => method_code_of(name@) is None && e@ == ErrorModel::UnsupportedHttpMethod,
        },
{
    if same_text(name, "GET") {
        Ok(METHOD_GET)
    } else if same_text(name, "POST") {
        Ok(METHOD_POST)
    } else if same_text(name, "PATCH") {
        Ok(METHOD_PATCH)
    } else if same_text(name, "DELETE") {
        Ok(METHOD_DELETE)
    } else if same_text(name, "PUT") {
        Ok(METHOD_PUT)
    } else if same_text(name, "HEAD") {
        Ok(METHOD_HEAD)
    } else if same_text(name, "OPTIONS") {
        Ok(METHOD_OPTIONS)
    } else {
        Err(ErrorType::UnsupportedHttpMethod)
    }
}

impl Method {
    /// The verb's name.
    pub open spec fn spec_name(&self) -> Seq<char> {
        match *self {
            Method::Get => "GET"@,
            Method::Post => "POST"@,
            Method::Patch => "PATCH"@,
            Method::Delete => "DELETE"@,
            Method::Put => "PUT"@,
            Method::Head => "HEAD"@,
            Method::Options => "OPTIONS"@,
            Method::Extension(name) => name@,
        }
    }

    /// The verb of that name: one of the seven where the name is theirs.
    pub fn from_name(name: &str) -> (method: Method)
        ensures
            method.spec_name() == name@,
            method is Extension <==> method_code_of(name@) is None,
    {
        proof {
            lemma_method_names_differ();
        }
        match method_code(name) {
            Ok(0) => Method::Get,
            Ok(1) => Method::Post,
            Ok(2) => Method::Patch,
            Ok(3) => Method::Delete,
            Ok(4) => Method::Put,
            Ok(5) => Method::Head,
            Ok(6) => Method::Options,
            _ => Method::Extension(name.to_owned()),
        }
    }

    /// The verb's name.
    pub fn as_str(&self) -> (name: &str)
        ensures
            name@ == self.spec_name(),
    {
        match self {
            Method::Get => "GET",
            Method::Post => "POST",
            Method::Patch => "PATCH",
            Method::Delete => "DELETE",
            Method::Put => "PUT",
            Method::Head => "HEAD",
            Method::Options => "OPTIONS",
            Method::Extension(name) => name.as_str(),
        }
    }

    /// The verb's code, which goes by its name. A verb that is none of the
    /// seven is refused.
    pub fn code(&self) -> (r: Result<u8, ErrorType>)
        ensures
            match r {
                Ok(code) => method_code_of(self.spec_name()) == Some(code),
                Err(e) => method_code_of(self.spec_name()) is None && e@
                    == ErrorModel::UnsupportedHttpMethod,
            },
    {
        method_code(self.as_str())
    }
}

// === Requests ===

/// A request: the verb, the target, the headers, a bag of extensions that
/// stays on this side, and the body where there is one.
pub struct Request {
    /// The request's method
    pub method: Method,
    /// The request's URI
    pub uri: Uri,
    /// The request's headers
    pub headers: HeaderMap<HeaderValue>,
    /// The request's extensions
    pub extensions: Extensions,
    /// The body, as the bytes that the engine sends
    pub body: Option<Vec<u8>>,
}

/// The bytes of a body; none where there is no body.
pub open spec fn body_bytes(body: Option<Vec<u8>>) -> Seq<u8> {
    match body {
        Some(bytes) => bytes@,
        None => Seq::empty(),
    }
}

impl Request {
    /// A request without headers and without body.
    #[inline]
    pub fn new(uri: Uri, method: Method) -> (request: Self)
        ensures
            request.method == method,
            request.uri == uri,
            header_entries(request.headers) == HeaderEntries::empty(),
            request.body is None,
    {
        Self {
            method,
            uri,
            headers: header_map_with_capacity(32),
            extensions: Extensions::new(),
            body: None,
        }
    }

    /// A GET request without headers and without body.
    #[inline]
    pub fn get(url: Uri) -> (request: Self)
        ensures
            request.method == Method::Get,
            request.uri == url,
            header_entries(request.headers) == HeaderEntries::empty(),
            request.body is None,
    {
        Self::new(url, Method::Get)
    }

    /// A POST request without headers and without body.
    #[inline]
    pub fn post(url: Uri) -> (request: Self)
        ensures
            request.method == Method::Post,
            request.uri == url,
            header_entries(request.headers) == HeaderEntries::empty(),
            request.body is None,
    {
        Self::new(url, Method::Post)
    }

    /// A PATCH request without headers and without body.
    #[inline]
    pub fn patch(url: Uri) -> (request: Self)
        ensures
            request.method == Method::Patch,
            request.uri == url,
            header_entries(request.headers) == HeaderEntries::empty(),
            request.body is None,
    {
        Self::new(url, Method::Patch)
    }

    /// A DELETE request without headers and without body.
    #[inline]
    pub fn delete(url: Uri) -> (request: Self)
        ensures
            request.method == Method::Delete,
            request.uri == url,
            header_entries(request.headers) == HeaderEntries::empty(),
            request.body is None,
    {
        Self::new(url, Method::Delete)
    }

    /// A PUT request without headers and without body.
    #[inline]
    pub fn put(url: Uri) -> (request: Self)
        ensures
            request.method == Method::Put,
            request.uri == url,
            header_entries(request.headers) == HeaderEntries::empty(),
            request.body is None,
    {
        Self::new(url, Method::Put)
    }

    /// A HEAD request without headers and without body.
    #[inline]
    pub fn head(url: Uri) -> (request: Self)
        ensures
            request.method == Method::Head,
            request.uri == url,
            header_entries(request.headers) == HeaderEntries::empty(),
            request.body is None,
    {
        Self::new(url, Method::Head)
    }

    /// An OPTIONS request without headers and without body.
    #[inline]
    pub fn options(url: Uri) -> (request: Self)
        ensures
            request.method == Method::Options,
            request.uri == url,
            header_entries(request.headers) == HeaderEntries::empty(),
            request.body is None,
    {
        Self::new(url, Method::Options)
    }

    /// The request with another verb.
    #[inline]
    pub fn set_method(self, method: Method) -> (request: Self)
        ensures
            request.method == method,
            request.uri == self.uri,
            request.headers == self.headers,
            request.extensions == self.extensions,
            request.body == self.body,
    {
        let mut request = self;
        request.method = method;
        request
    }

    /// The request with another body, or with none.
    #[inline]
    pub fn set_body(self, body: Option<Vec<u8>>) -> (request: Self)
        ensures
            request.method == self.method,
            request.uri == self.uri,
            request.headers == self.headers,
            request.extensions == self.extensions,
            request.body == body,
    {
        let mut request = self;
        request.body = body;
        request
    }

    /// The flat form of the request, as the engine takes it: the URI as
    /// text, the code of the verb, the header map flattened, and the body,
    /// empty where there is none. The extensions stay behind.
    ///
    /// A verb that is none of the seven is refused here, before anything
    /// is sent.
    pub fn into_ffi(self) -> (r: Result<HttpRequestFfi, ErrorType>)
        ensures
            match r {
                Ok(flat) => flat@ == (HttpRequestModel {
                    url: self.uri@,
                    method: method_code_of(self.method.spec_name())->0,
                    body: body_bytes(self.body),
                    headers: flatten_entries(header_entries(self.headers), ValueText::Utf8),
                }) && method_code_of(self.method.spec_name()) is Some && is_uri_text(flat.url@),
                Err(e) => method_code_of(self.method.spec_name()) is None && e@
                    == ErrorModel::UnsupportedHttpMethod,
            },
    {
        let method = match self.method.code() {
            Ok(code) => code,
            Err(e) => {
                return Err(e);
            },
        };
        let headers = flatten_headers(&self.headers, ValueText::Utf8);
        let body = match self.body {
            Some(bytes) => bytes,
            None => Vec::new(),
        };
        Ok(HttpRequestFfi { url: self.uri.into_string(), method, body, headers })
    }
}

} // verus!
