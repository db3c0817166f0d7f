//! Fetching one visual from the upstream.
//!
//! The route fetches `/visual/<name>` upstream and serves the raw image
//! bytes.  An upstream 404 is the distinct not-found outcome; any other
//! non-success status is an upstream failure.

use vstd::prelude::*;

verus! {

/// What can go wrong serving one visual.
#[derive(Clone, Copy, Debug, PartialEq, Eq, Structural)]
pub enum GetItemsError {
    /// The upstream request URL could not be constructed.
    UrlJoinError,
    /// The upstream request could not be sent, or answered with an
    /// unexpected status.
    RequestFailed,
    /// The upstream does not know the name.
    WritingNotFound,
    /// The upstream body could not be read.
    ResponseReadError,
    /// The reply to the caller could not be built.
    ResponseBuildError,
}

impl GetItemsError {
    /// The HTTP status the route answers with: absence is 404, every
    /// other failure an internal error.
    pub fn http_status(&self) -> (r: u16)
        ensures
            *self == GetItemsError::WritingNotFound ==> r == 404,
            *self != GetItemsError::WritingNotFound ==> r == 500,
    {
        match self {
            GetItemsError::WritingNotFound => 404,
            _ => 500,
        }
    }

    /// The message served with the status.
    pub fn message(&self) -> (r: &'static str)
        ensures
            *self == GetItemsError::UrlJoinError ==> r@ == "Internal server error"@,
            *self == GetItemsError::RequestFailed ==> r@ == "Failed to fetch writing"@,
            *self == GetItemsError::WritingNotFound ==> r@ == "Writing not found"@,
            *self == GetItemsError::ResponseReadError ==> r@ == "Failed to read response"@,
            *self == GetItemsError::ResponseBuildError ==> r@ == "Failed to build response"@,
    {
        match self {
            GetItemsError::UrlJoinError => "Internal server error",
            GetItemsError::RequestFailed => "Failed to fetch writing",
            GetItemsError::WritingNotFound => "Writing not found",
            GetItemsError::ResponseReadError => "Failed to read response",
            GetItemsError::ResponseBuildError => "Failed to build response",
        }
    }
}

/// The upstream path for the visual named `name`.
pub fn visual_request_path(name: &str) -> (r: String)
    ensures
        r@ == "/visual/"@ + name@,
{
    let mut s = String::from_str("/visual/");
    s.append(name);
    s
}

/// The media type a visual is served with.
pub fn visual_content_type() -> (r: &'static str)
    ensures
        r@ == "image/jpeg"@,
{
    "image/jpeg"
}

/// Reads the upstream's reply for one visual: a 404 is the distinct
/// not-found outcome, a success hands the bytes through verbatim, and
/// every other status is an upstream failure.
pub fn classify_visual_response(status: u16, body: Vec<u8>) -> (r: Result<Vec<u8>, GetItemsError>)
    ensures
        r is Ok <==> 200 <= status < 300,
        r matches Ok(b) ==> b@ == body@,
        status == 404 ==> r == Err::<Vec<u8>, GetItemsError>(GetItemsError::WritingNotFound),
        !(200 <= status < 300) && status != 404 ==> r == Err::<Vec<u8>, GetItemsError>(
            GetItemsError::RequestFailed,
        ),
{
    if status == 404 {
        Err(GetItemsError::WritingNotFound)
    } else if 200 <= status && status < 300 {
        Ok(body)
    } else {
        Err(GetItemsError::RequestFailed)
    }
}

} // verus!
