//! The shared failure taxonomy of the gateway and the proxy, and the
//! content-negotiated not-found reply.
//!
//! Tier-local outcomes (a miss, an absent pointer) drive the fallback
//! chain and are not faults.  Everything here is a genuine fault, each
//! converted to the narrowest correct HTTP status at the boundary — never
//! silently swallowed into a success.

use vstd::prelude::*;

verus! {

/// The failure taxonomy.
#[derive(Clone, Copy, Debug, PartialEq, Eq, Structural)]
pub enum Fault {
    /// An upstream explicitly reports absence.  Always recoverable: the
    /// fallback chain advances, or the caller gets a plain 404.
    NotFound,
    /// Transport failure or an unexpected status from an external HTTP
    /// dependency.
    UpstreamUnavailable,
    /// The pointer store cannot be reached.  Fatal for the
    /// content-addressed tier only, never for the whole request.
    StorageUnavailable,
    /// Malformed metadata from the CMS.  In a listing the offending entry
    /// is dropped; for a single item it is surfaced like an unavailable
    /// upstream.
    DecodeFailure,
    /// Internal response construction failed; never expected in normal
    /// operation.
    ResponseBuildFailure,
}

impl Fault {
    /// The narrowest HTTP status for this fault at the boundary.
    pub fn http_status(&self) -> (r: u16)
        ensures
            *self == Fault::NotFound ==> r == 404,
            *self == Fault::UpstreamUnavailable ==> r == 502,
            *self == Fault::DecodeFailure ==> r == 502,
            *self == Fault::StorageUnavailable ==> r == 500,
            *self == Fault::ResponseBuildFailure ==> r == 500,
    {
        match self {
            Fault::NotFound => 404,
            Fault::UpstreamUnavailable => 502,
            Fault::DecodeFailure => 502,
            Fault::StorageUnavailable => 500,
            Fault::ResponseBuildFailure => 500,
        }
    }
}

/// Errors raised while assembling the shared application state.
pub enum StateSetupError {
    /// The database could not be set up; carries the cause's rendering.
    DatabaseSetup(String),
}

fn str_eq(a: &str, b: &str) -> (r: bool)
    ensures
        r == (a@ == b@),
{
    let owned_a = a.to_owned();
    let owned_b = b.to_owned();
    owned_a == owned_b
}

/// A not-found reply, negotiated on the request's stated content type.
pub struct NotFoundReply {
    pub status: u16,
    pub content_type: String,
    pub body: String,
}

/// The reply for a request nothing can serve: always status 404, with a
/// JSON message for JSON callers, a small page for HTML callers, and plain
/// text for everyone else.
pub fn not_found_reply(accept: &str) -> (r: NotFoundReply)
    ensures
        r.status == 404,
        accept@ == "application/json"@ ==> r.content_type@ == "application/json"@ && r.body@
            == "{\"msg\":\"not found\"}"@,
        accept@ == "text/html"@ ==> r.content_type@ == "text/html"@ && r.body@
            == "<h1>Not Found</h1>"@,
        accept@ != "application/json"@ && accept@ != "text/html"@ ==> r.content_type@
            == "text/plain"@ && r.body@ == "not found"@,
{
    proof {
        reveal_strlit("application/json");
        reveal_strlit("text/html");
        assert("application/json"@.len() == 16);
        assert("text/html"@.len() == 9);
    }
    if str_eq(accept, "application/json") {
        NotFoundReply {
            status: 404,
            content_type: String::from_str("application/json"),
            body: String::from_str("{\"msg\":\"not found\"}"),
        }
    } else if str_eq(accept, "text/html") {
        NotFoundReply {
            status: 404,
            content_type: String::from_str("text/html"),
            body: String::from_str("<h1>Not Found</h1>"),
        }
    } else {
        NotFoundReply {
            status: 404,
            content_type: String::from_str("text/plain"),
            body: String::from_str("not found"),
        }
    }
}

} // verus!
