//! Content resolution gateway and CMS proxy for a server-rendered personal
//! site.
//!
//! The crate covers the two subsystems with real decision logic: the
//! three-tier request resolution chain (static assets, then a
//! content-addressed snapshot, then dynamic rendering) and the proxy that
//! normalizes listing data coming from an upstream writing/visual content
//! service.  All I/O (filesystem probes, database reads, HTTP fetches)
//! happens outside this crate; the functions here take the plain outcomes of
//! those probes and make every decision about them.

pub mod assets;
pub mod config;
pub mod dates;
pub mod errors;
pub mod gateway;
pub mod health;
pub mod json;
pub mod media;
pub mod pointer;
pub mod proxy;
