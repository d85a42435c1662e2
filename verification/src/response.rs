//! Responses, made from the engine's flat reply.

use http::header::{HeaderMap, HeaderValue};
use vstd::prelude::*;

use crate::ffi::{HttpResponseFfi, HttpResponseModel};
use crate::headers::{
    expand_headers, expand_records, header_entries, HeaderEntries, MAX_HEADER_CAPACITY,
    MIN_FULL_HEADER_NAMES,
};

verus! {

/// The version of HTTP that a response came in.
#[derive(Debug, Clone, Copy, PartialEq, Eq)]
pub enum HttpVersion {
    /// HTTP/1.0
    Http10,
    /// HTTP/1.1
    Http11,
    /// HTTP/2.0
    Http2,
    /// HTTP/3.0
    Http3,
}

impl HttpVersion {
    /// The version that a pair of major and minor number names: (1, 0),
    /// (1, 1), (2, 0) and (3, 0) name one, no other pair does.
    pub open spec fn spec_from_proto(major: isize, minor: isize) -> Option<HttpVersion> {
        if major == 1 && minor == 0 {
            Some(HttpVersion::Http10)
        } else if major == 1 && minor == 1 {
            Some(HttpVersion::Http11)
        } else if major == 2 && minor == 0 {
            Some(HttpVersion::Http2)
        } else if major == 3 && minor == 0 {
            Some(HttpVersion::Http3)
        } else {
            None
        }
    }

    /// The version that a pair of major and minor number names. Any pair
    /// but (1, 0), (1, 1), (2, 0) and (3, 0) is refused.
    #[verifier::when_used_as_spec(spec_from_proto)]
    pub fn from_proto(major: isize, minor: isize) -> (version: Option<HttpVersion>)
        ensures
            version == HttpVersion::spec_from_proto(major, minor),
    {
        if major == 1 && minor == 0 {
            Some(HttpVersion::Http10)
        } else if major == 1 && minor == 1 {
            Some(HttpVersion::Http11)
        } else if major == 2 && minor == 0 {
            Some(HttpVersion::Http2)
        } else if major == 3 && minor == 0 {
            Some(HttpVersion::Http3)
        } else {
            None
        }
    }

    /// The major and minor number of the version.
    pub open spec fn spec_proto(&self) -> (isize, isize) {
        match *self {
            HttpVersion::Http10 => (1, 0),
            HttpVersion::Http11 => (1, 1),
            HttpVersion::Http2 => (2, 0),
            HttpVersion::Http3 => (3, 0),
        }
    }

    /// The major and minor number of the version.
    #[verifier::when_used_as_spec(spec_proto)]
    pub fn proto(&self) -> (pair: (isize, isize))
        ensures
            pair == self.spec_proto(),
    {
        match self {
            HttpVersion::Http10 => (1, 0),
            HttpVersion::Http11 => (1, 1),
            HttpVersion::Http2 => (2, 0),
            HttpVersion::Http3 => (3, 0),
        }
    }
}

/// The four pairs and the four versions match one to one: a version is
/// named by its own pair and by no other.
pub proof fn lemma_version_pairs_one_to_one(version: HttpVersion, major: isize, minor: isize)
    ensures
        HttpVersion::spec_from_proto(version.spec_proto().0, version.spec_proto().1) == Some(
            version,
        ),
        HttpVersion::spec_from_proto(major, minor) == Some(version) <==> (major, minor)
            == version.spec_proto(),
{
}

/// The status that a reply's code stands for: the code itself, where it
/// is a status code, 100 to 999.
pub open spec fn status_of(code: isize) -> Option<u16> {
    if 100 <= code <= 999 {
        Some(code as u16)
    } else {
        None
    }
}

/// Whether a number is an HTTP status code: 100 to 999.
pub open spec fn is_status(status: u16) -> bool {
    100 <= status <= 999
}

/// A response: the status, the version of HTTP, the headers and the body.
/// There is no way to make one but from a reply of the engine.
#[derive(Debug)]
pub struct Response {
    status: u16,
    version: HttpVersion,
    headers: HeaderMap<HeaderValue>,
    body: Vec<u8>,
}

/// The view of a [`Response`]; the headers as the entries of their map.
pub ghost struct ResponseView {
    pub status: u16,
    pub version: HttpVersion,
    pub headers: HeaderEntries,
    pub body: Seq<u8>,
}

impl View for Response {
    type V = ResponseView;

    closed spec fn view(&self) -> ResponseView {
        ResponseView {
            status: self.status,
            version: self.version,
            headers: header_entries(self.headers),
            body: self.body@,
        }
    }
}

/// The response that a flat reply stands for: the version that its pair
/// names, its code as status, its headers appended value after value, and
/// its body. Nothing where the pair names no version, where the code is no
/// status, or where the headers stand for no header map.
pub open spec fn decode_reply(flat: HttpResponseModel) -> Option<ResponseView> {
    match (
        HttpVersion::spec_from_proto(flat.proto_major, flat.proto_minor),
        status_of(flat.code),
        expand_records(flat.headers),
    ) {
        (Some(version), Some(status), Some(headers)) => Some(
            ResponseView { status, version, headers, body: flat.data },
        ),
        _ => None,
    }
}

/// The version of a response goes by the pair of the reply and by nothing
/// else, and any pair but (1, 0), (1, 1), (2, 0) and (3, 0) leaves no
/// response. The status of a response is the reply's code, a number from
/// 100 to 999, and its body is the reply's.
pub proof fn lemma_reply_and_response(flat: HttpResponseModel, other: HttpResponseModel)
    ensures
        decode_reply(flat) matches Some(response) ==> {
            &&& HttpVersion::spec_from_proto(flat.proto_major, flat.proto_minor) == Some(
                response.version,
            )
            &&& (flat.proto_major, flat.proto_minor) == response.version.spec_proto()
            &&& response.status == flat.code
            &&& is_status(response.status)
            &&& response.body == flat.data
        },
        !((flat.proto_major == 1 && (flat.proto_minor == 0 || flat.proto_minor == 1)) || ((
        flat.proto_major == 2 || flat.proto_major == 3) && flat.proto_minor == 0)) ==> decode_reply(
            flat,
        ) is None,
        flat.proto_major == other.proto_major && flat.proto_minor == other.proto_minor
            && decode_reply(flat) is Some && decode_reply(other) is Some ==> decode_reply(
            flat,
        )->0.version == decode_reply(other)->0.version,
{
}

impl Response {
    /// A response is well formed when its status is a status code.
    #[verifier::type_invariant]
    closed spec fn well_formed(&self) -> bool {
        is_status(self.status)
    }

    /// Makes the response that a flat reply stands for.
    ///
    /// The reply is refused where its major and minor number name no
    /// version, where its code is no status, and where its headers stand
    /// for no header map or for one that cannot be made (see
    /// [`expand_headers`]). A response that comes back holds the version
    /// that the pair names, the code as status, the body as it came, and
    /// the headers appended value after value. A response comes back
    /// whenever version and status stand and the headers stand for a map
    /// with fewer than [`MIN_FULL_HEADER_NAMES`] names, and so for every
    /// reply with fewer header records whose names and values are in
    /// order.
    pub fn decode(flat: HttpResponseFfi) -> (r: Option<Response>)
        ensures
            r matches Some(response) ==> decode_reply(flat@) == Some(response@) && is_status(
                response@.status,
            ),
            decode_reply(flat@) is None ==> r is None,
            flat.headers.len() > MAX_HEADER_CAPACITY ==> r is None,
            flat.headers.len() <= MAX_HEADER_CAPACITY && decode_reply(flat@) is Some
                && decode_reply(flat@)->0.headers.len() < MIN_FULL_HEADER_NAMES ==> r is Some,
            flat.headers.len() < MIN_FULL_HEADER_NAMES && decode_reply(flat@) is Some ==> r is Some,
    {
        let version = match HttpVersion::from_proto(flat.proto_major, flat.proto_minor) {
            Some(version) => version,
            None => {
                return None;
            },
        };
        if flat.code < 100 || flat.code > 999 {
            return None;
        }
        let status = flat.code as u16;
        let headers = match expand_headers(flat.headers) {
            Some(headers) => headers,
            None => {
                return None;
            },
        };
        Some(Response { status, version, headers, body: flat.data })
    }

    /// The status code, between 100 and 999.
    pub fn status(&self) -> (status: u16)
        ensures
            status == self@.status,
            is_status(status),
    {
        proof {
            use_type_invariant(self);
        }
        self.status
    }

    /// The version of HTTP that the response came in.
    pub fn version(&self) -> (version: HttpVersion)
        ensures
            version == self@.version,
    {
        self.version
    }

    /// The headers.
    pub fn headers(&self) -> (headers: &HeaderMap<HeaderValue>)
        ensures
            header_entries(*headers) == self@.headers,
    {
        &self.headers
    }

    /// The body.
    pub fn body(&self) -> (body: &Vec<u8>)
        ensures
            body@ == self@.body,
    {
        &self.body
    }

    /// The body, leaving the rest behind.
    pub fn into_body(self) -> (body: Vec<u8>)
        ensures
            body@ == self@.body,
    {
        self.body
    }

    /// The four parts of the response: status, version, headers, body.
    pub fn into_parts(self) -> (parts: (u16, HttpVersion, HeaderMap<HeaderValue>, Vec<u8>))
        ensures
            parts.0 == self@.status,
            is_status(parts.0),
            parts.1 == self@.version,
            header_entries(parts.2) == self@.headers,
            parts.3@ == self@.body,
    {
        proof {
            use_type_invariant(&self);
        }
        (self.status, self.version, self.headers, self.body)
    }
}

} // verus!
