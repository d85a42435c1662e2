//! Errors that the transport engine reports through its status codes.

use vstd::prelude::*;

verus! {

/// Status code of a call made before the client was initialised.
pub const CODE_CLIENT_NOT_INITIALIZED: i32 = -1_000_000;

/// Status code of a request whose method the engine refused.
pub const CODE_INVALID_REQUEST_METHOD: i32 = -1_000_010;

/// Status code of an impersonation profile with an extension that the
/// engine cannot build.
pub const CODE_INVALID_TLS_EXTENSION: i32 = -1_001_001;

/// A failure reported by the transport engine.
#[derive(Debug, Clone, PartialEq, Eq)]
pub enum GoError {
    ClientNotInitialized,
    InvalidRequestMethod,
    /// Carries the engine's description of the extension.
    InvalidTlsExtension(String),
    /// Any other nonzero code, with the engine's message.
    Unknown(String),
}

/// What a [`GoError`] stands for: the variant, with its message as text.
pub ghost enum GoErrorModel {
    ClientNotInitialized,
    InvalidRequestMethod,
    InvalidTlsExtension(Seq<char>),
    Unknown(Seq<char>),
}

/// The error that a nonzero status code and its message stand for.
pub open spec fn go_error_of(code: i32, message: Seq<char>) -> GoErrorModel {
    if code == CODE_CLIENT_NOT_INITIALIZED {
        GoErrorModel::ClientNotInitialized
    } else if code == CODE_INVALID_REQUEST_METHOD {
        GoErrorModel::InvalidRequestMethod
    } else if code == CODE_INVALID_TLS_EXTENSION {
        GoErrorModel::InvalidTlsExtension(message)
    } else {
        GoErrorModel::Unknown(message)
    }
}

impl View for GoError {
    type V = GoErrorModel;

    open spec fn view(&self) -> GoErrorModel {
        match *self {
            GoError::ClientNotInitialized => GoErrorModel::ClientNotInitialized,
            GoError::InvalidRequestMethod => GoErrorModel::InvalidRequestMethod,
            GoError::InvalidTlsExtension(m) => GoErrorModel::InvalidTlsExtension(m@),
            GoError::Unknown(m) => GoErrorModel::Unknown(m@),
        }
    }
}

impl From<(i32, String)> for GoError {
    /// Maps a status code and its message to the error they stand for.
    /// The mapping is total: a code outside the table becomes `Unknown`
    /// and keeps the message.
    fn from(pair: (i32, String)) -> (r: Self)
        ensures
            r@ == go_error_of(pair.0, pair.1@),
    {
        let (code, message) = pair;
        if code == CODE_CLIENT_NOT_INITIALIZED {
            GoError::ClientNotInitialized
        } else if code == CODE_INVALID_REQUEST_METHOD {
            GoError::InvalidRequestMethod
        } else if code == CODE_INVALID_TLS_EXTENSION {
            GoError::InvalidTlsExtension(message)
        } else {
            GoError::Unknown(message)
        }
    }
}

impl vstd::std_specs::convert::FromSpecImpl<(i32, String)> for GoError {
    open spec fn obeys_from_spec() -> bool {
        true
    }

    open spec fn from_spec(pair: (i32, String)) -> Self {
        if pair.0 == CODE_CLIENT_NOT_INITIALIZED {
            GoError::ClientNotInitialized
        } else if pair.0 == CODE_INVALID_REQUEST_METHOD {
            GoError::InvalidRequestMethod
        } else if pair.0 == CODE_INVALID_TLS_EXTENSION {
            GoError::InvalidTlsExtension(pair.1)
        } else {
            GoError::Unknown(pair.1)
        }
    }
}

} // verus!
