//! The connection layer of an HTTP client: a scheme-aware connector that
//! plans plain or TLS-secured connections, and redirect-following policies
//! that decide whether a redirect chain may continue.
//!
//! The connector itself performs no I/O: it produces and consumes plain
//! decision values, so that the caller can drive the transport connect and
//! the TLS handshake with whatever collaborators it owns.

pub mod connector;
pub mod error;
pub mod redirect;
pub mod target;
