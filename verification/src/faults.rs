//! The front door's fault taxonomy: which failures abort startup, which are
//! fatal to a single connection only, and which are recoverable per request.
//! A failure on one connection must never escalate to other connections or
//! to the process.

use vstd::prelude::*;

verus! {

/// The kinds of failure the front door distinguishes.
#[derive(Clone, Copy, Debug, PartialEq, Eq, Structural)]
pub enum FaultKind {
    /// A configuration file (certificate, key) could not be read.
    ConfigFileRead,
    /// The certificate/key material is malformed or mismatched.
    CertificateMaterial,
    /// A listener's port could not be bound.
    PortBind,
    /// The TLS handshake on one accepted connection failed.
    TlsHandshake,
    /// Reading or decoding a framed message failed.
    TransportReceive,
    /// Writing a response failed.
    TransportSend,
    /// Flushing written responses failed.
    TransportFlush,
    /// A backend (domain) error while answering one request.
    Domain,
}

/// How far a fault reaches.
#[derive(Clone, Copy, Debug, PartialEq, Eq, Structural)]
pub enum FaultScope {
    /// Fatal: aborts process startup, with full causal context.
    Startup,
    /// Fatal to the one connection it occurred on, and to nothing else.
    Connection,
    /// Recoverable: translated into an error response for the one request.
    Request,
}

/// The scope of each fault kind.
pub open spec fn spec_scope_of(kind: FaultKind) -> FaultScope {
    match kind {
        FaultKind::ConfigFileRead => FaultScope::Startup,
        FaultKind::CertificateMaterial => FaultScope::Startup,
        FaultKind::PortBind => FaultScope::Startup,
        FaultKind::TlsHandshake => FaultScope::Connection,
        FaultKind::TransportReceive => FaultScope::Connection,
        FaultKind::TransportSend => FaultScope::Connection,
        FaultKind::TransportFlush => FaultScope::Connection,
        FaultKind::Domain => FaultScope::Request,
    }
}

/// Classify a fault: startup faults abort the process, connection faults
/// close their one connection, request faults become error responses.
pub fn scope_of(kind: FaultKind) -> (scope: FaultScope)
    ensures
        scope == spec_scope_of(kind),
{
    match kind {
        FaultKind::ConfigFileRead => FaultScope::Startup,
        FaultKind::CertificateMaterial => FaultScope::Startup,
        FaultKind::PortBind => FaultScope::Startup,
        FaultKind::TlsHandshake => FaultScope::Connection,
        FaultKind::TransportReceive => FaultScope::Connection,
        FaultKind::TransportSend => FaultScope::Connection,
        FaultKind::TransportFlush => FaultScope::Connection,
        FaultKind::Domain => FaultScope::Request,
    }
}

/// Law (the part of listener isolation the classification carries): a failed
/// TLS handshake is scoped to its own connection — it is never a startup
/// fault, so it cannot take the listeners down. That the runtime actually
/// keeps the other accept loops running is a property of the unverified rim.
pub proof fn lemma_handshake_scoped_to_connection()
    ensures
        spec_scope_of(FaultKind::TlsHandshake) == FaultScope::Connection,
        spec_scope_of(FaultKind::TlsHandshake) != FaultScope::Startup,
{
}

} // verus!
