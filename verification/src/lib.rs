//! Verified core of a small static-site server.
//!
//! The crate holds the request-routing logic: extracting a leaf subdomain
//! from a Host header, resolving the serving mode to a filesystem root,
//! building the redirect target from plaintext to TLS, decorating responses
//! with the marker header, and the remote-registry address arithmetic.
//! All I/O (listeners, file serving, process spawning) lives outside.

pub mod host;
pub mod mode;
pub mod redirect;
pub mod registry;
pub mod respond;
pub mod text;
