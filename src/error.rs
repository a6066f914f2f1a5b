//! The ways a request to the cluster can fail.
use vstd::prelude::*;

verus! {

/// The error payload that etcd returns with a status outside the success range.
#[derive(Clone, Debug, PartialEq, Eq, Hash)]
pub struct ApiError {
    /// The key or other subject the error is about, if any.
    pub cause: Option<String>,
    /// etcd's code for the kind of error.
    pub error_code: u64,
    /// The store's index when the error occurred.
    pub index: u64,
    /// A description of the error.
    pub message: String,
}

/// A failed request. Exactly one kind is given for each failure.
#[derive(Debug)]
pub enum Error {
    /// The member could not be reached: no HTTP response was received.
    Transport(String),
    /// The member answered with a failure status and a structured error.
    Api(ApiError),
    /// The response body did not match the expected schema.
    Decode(String),
    /// The endpoint and path did not form a valid URI; no request was sent.
    InvalidUri(http::uri::InvalidUri),
}

impl Error {
    /// Whether the failure says only that the member was unreachable, so that another
    /// member may be tried.
    pub open spec fn is_transport_spec(&self) -> bool {
        self is Transport
    }

    /// Whether the failure says only that the member was unreachable, so that another
    /// member may be tried.
    #[verifier::when_used_as_spec(is_transport_spec)]
    pub fn is_transport(&self) -> (r: bool)
        ensures
            r == self.is_transport_spec(),
    {
        match self {
            Error::Transport(_) => true,
            _ => false,
        }
    }
}

} // verus!
