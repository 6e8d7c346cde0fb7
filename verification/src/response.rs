//! Typed errors and plain HTTP responses produced by the gateway.
//!
//! Every component signals failure by returning an [`ApiError`]; only the
//! dispatcher turns an error into an HTTP response, as plain text, without
//! echoing secrets or internal state.

use vstd::prelude::*;

verus! {

/// Error kinds of the gateway, each carrying the plain-text message shown to
/// the caller.
#[derive(Clone, Debug, PartialEq, Eq)]
pub enum ApiError {
    /// Malformed query or path, unresolvable domain, disabled feature.
    BadRequest(String),
    /// Authorization failure, in any of its flavors.
    Forbidden(String),
    /// Consistency or serialization fault inside the cluster.
    InternalError(String),
}

/// A response as handed back to the HTTP layer: status code, headers and a
/// plain text body.
#[derive(Clone, Debug, PartialEq, Eq)]
pub struct HttpResponse {
    pub status: u16,
    pub headers: Vec<(String, String)>,
    pub body: String,
}

/// True iff header pair `h` has the given name and value.
pub open spec fn header_is(h: (String, String), name: Seq<char>, value: Seq<char>) -> bool {
    h.0@ == name && h.1@ == value
}

impl ApiError {
    /// The HTTP status code that this error kind maps to.
    pub open spec fn spec_status(&self) -> u16 {
        match self {
            ApiError::BadRequest(_) => 400u16,
            ApiError::Forbidden(_) => 403u16,
            ApiError::InternalError(_) => 500u16,
        }
    }

    /// The plain-text message carried by this error.
    pub open spec fn spec_message(&self) -> Seq<char> {
        match self {
            ApiError::BadRequest(m) => m@,
            ApiError::Forbidden(m) => m@,
            ApiError::InternalError(m) => m@,
        }
    }

    /// Converts the error into the response the dispatcher sends back: the
    /// status code of the kind, no headers, and the message as the body.
    pub fn into_response(self) -> (r: HttpResponse)
        ensures
            r.status == self.spec_status(),
            r.body@ == self.spec_message(),
            r.headers@.len() == 0,
    {
        let (status, body): (u16, String) = match self {
            ApiError::BadRequest(m) => (400, m),
            ApiError::Forbidden(m) => (403, m),
            ApiError::InternalError(m) => (500, m),
        };
        HttpResponse { status, headers: Vec::new(), body }
    }
}

} // verus!
