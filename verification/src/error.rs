//! Errors that the library hands to its callers.

use vstd::prelude::*;

pub mod go_error;

verus! {

/// Everything that can go wrong with a call of the library.
#[derive(Debug, Clone, PartialEq, Eq)]
pub enum ErrorType {
    /// The request's verb is not one of the seven that the engine knows.
    /// Found before anything is sent.
    UnsupportedHttpMethod,
    /// The engine answered with a nonzero status code.
    GoError(go_error::GoError),
}

/// What an [`ErrorType`] stands for.
pub ghost enum ErrorModel {
    UnsupportedHttpMethod,
    Engine(go_error::GoErrorModel),
}

impl View for ErrorType {
    type V = ErrorModel;

    open spec fn view(&self) -> ErrorModel {
        match *self {
            ErrorType::UnsupportedHttpMethod => ErrorModel::UnsupportedHttpMethod,
            ErrorType::GoError(e) => ErrorModel::Engine(e@),
        }
    }
}

impl From<go_error::GoError> for ErrorType {
    fn from(e: go_error::GoError) -> (r: Self)
        ensures
            r == ErrorType::GoError(e),
    {
        ErrorType::GoError(e)
    }
}

impl vstd::std_specs::convert::FromSpecImpl<go_error::GoError> for ErrorType {
    open spec fn obeys_from_spec() -> bool {
        true
    }

    open spec fn from_spec(e: go_error::GoError) -> Self {
        ErrorType::GoError(e)
    }
}

} // verus!
