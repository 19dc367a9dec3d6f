//! Verified core of a small image-hosting service.
//!
//! Clients upload an image over a multipart form post; the service stores the
//! bytes and their MIME type under a short random identifier and serves them
//! back on request. This crate holds the decisions of that service — the
//! identifier scheme, the authorization rule, the upload planning and receipt,
//! and the read-path resolution — each with a proved contract. The HTTP
//! front end and the database live outside and hand plain values in and out.
use vstd::prelude::*;

pub mod auth;
pub mod ident;
pub mod mime;
pub mod retrieve;
pub mod upload;

verus! {

/// Body of the landing page.
pub fn index() -> (r: &'static str)
    ensures
        r@ == "Hello, World!"@,
{
    "Hello, World!"
}

/// Process-wide configuration, fixed at startup and passed explicitly:
/// the shared upload secret and the base URL that receipts point at.
pub struct Config {
    pub secret: String,
    pub base_url: String,
}

} // verus!
