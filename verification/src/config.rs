//! Resolution of deployment settings.
//!
//! The surrounding binary reads the environment; this module owns the one
//! decision involved: a setting that the environment does not supply falls
//! back to its documented default.

use vstd::prelude::*;

verus! {

/// Default address the HTTP server listens on.
pub const DEFAULT_LISTEN_ADDR: &'static str = "127.0.0.1:3001";

/// Default base URL of the upstream CMS.
pub const DEFAULT_UPSTREAM_URL: &'static str = "http://localhost:3001";

/// Default connection string of the pointer database.
pub const DEFAULT_DATABASE_URL: &'static str = "sqlite://./data/server.db";

/// Default base URL of the content-addressed gateway.
pub const DEFAULT_CONTENT_GATEWAY_URL: &'static str = "http://localhost:8080";

/// Default logging level.
pub const DEFAULT_LOG_LEVEL: &'static str = "info";

/// The value a setting resolves to: the environment's, when it supplies
/// one, and the documented default otherwise.
pub fn resolve_setting(supplied: Option<String>, default: &str) -> (r: String)
    ensures
        supplied matches Some(v) ==> r@ == v@,
        supplied is None ==> r@ == default@,
{
    match supplied {
        Some(v) => v,
        None => default.to_owned(),
    }
}

} // verus!
