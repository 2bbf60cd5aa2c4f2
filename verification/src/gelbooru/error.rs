use crate::http::client::TransportError;
use crate::json::JsonError;
use vstd::prelude::*;

verus! {

/// Enum of possible errors of an image-board fetch: the transport failed, or
/// the body did not deserialize.
#[derive(Debug, Clone, PartialEq, Eq)]
pub enum GelbooruError {
    HttpError(TransportError),
    SerdeError(JsonError),
}

impl From<TransportError> for GelbooruError {
    fn from(value: TransportError) -> Self {
        GelbooruError::HttpError(value)
    }
}

impl vstd::std_specs::convert::FromSpecImpl<TransportError> for GelbooruError {
    open spec fn obeys_from_spec() -> bool {
        true
    }

    open spec fn from_spec(v: TransportError) -> GelbooruError {
        GelbooruError::HttpError(v)
    }
}

impl From<JsonError> for GelbooruError {
    fn from(value: JsonError) -> Self {
        GelbooruError::SerdeError(value)
    }
}

impl vstd::std_specs::convert::FromSpecImpl<JsonError> for GelbooruError {
    open spec fn obeys_from_spec() -> bool {
        true
    }

    open spec fn from_spec(v: JsonError) -> GelbooruError {
        GelbooruError::SerdeError(v)
    }
}

} // verus!
