//! Network front door of a directory-and-identity server, as a verified
//! library: the per-connection protocol session loop (framing decisions,
//! response correlation, termination), the endpoint plan of the listener
//! orchestrator, the TLS-acceptor construction, the HTTP routing and
//! error-to-status mapping, and the shared revocation set.
//!
//! The unverifiable rim — sockets, TLS handshakes, the HTTP runtime — lives
//! outside this crate and hands plain values in and out.

pub mod config;
pub mod faults;
pub mod http_error;
pub mod loader;
pub mod protocol;
pub mod routes;
pub mod session;
pub mod state;
pub mod tls;
