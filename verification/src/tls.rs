//! Construction of the TLS termination context: a reusable acceptor built
//! once per process from certificate and private-key bytes. The cryptography
//! is the outside TLS library's; this module holds the calls behind trusted
//! declarations and the verified error handling around them. Performing the
//! handshake on an accepted stream is socket work and stays in the
//! unverified rim, which reuses the acceptor built here.

use vstd::prelude::*;
use vstd::string::StringExecFns;

verus! {

#[verifier::external_type_specification]
#[verifier::external_body]
pub struct ExIdentity(native_tls::Identity);

#[verifier::external_type_specification]
#[verifier::external_body]
pub struct ExTlsAcceptor(native_tls::TlsAcceptor);

#[verifier::external_type_specification]
#[verifier::external_body]
pub struct ExTlsError(native_tls::Error);

/// Relies on native_tls::Identity::from_pkcs8: builds a server identity from
/// a PEM certificate chain and a PEM PKCS#8 private key, refusing malformed
/// or mismatched material with an error.
#[verifier::external_body]
fn identity_from_pkcs8(cert: &Vec<u8>, key: &Vec<u8>) -> Result<
    native_tls::Identity,
    native_tls::Error,
> {
    native_tls::Identity::from_pkcs8(cert.as_slice(), key.as_slice())
}

/// Relies on native_tls::TlsAcceptor::new: builds the reusable, cloneable
/// acceptor for the given server identity.
#[verifier::external_body]
fn acceptor_new(identity: native_tls::Identity) -> Result<
    native_tls::TlsAcceptor,
    native_tls::Error,
> {
    native_tls::TlsAcceptor::new(identity)
}

/// Relies on native_tls::Error's Display implementation for the
/// human-readable diagnostic text.
#[verifier::external_body]
fn error_text(e: &native_tls::Error) -> String {
    format!("{}", e)
}

/// Why the TLS context could not be built: the certificate/key material was
/// malformed or mismatched, with the TLS library's diagnostic.
#[derive(Clone, Debug, PartialEq, Eq)]
pub enum TlsSetupError {
    InvalidIdentity(String),
}

/// The diagnostic carried by a TLS setup failure.
pub open spec fn spec_tls_detail(e: TlsSetupError) -> Seq<char> {
    match e {
        TlsSetupError::InvalidIdentity(s) => s@,
    }
}

impl TlsSetupError {
    /// The full diagnostic for a failed TLS setup.
    pub fn describe(&self) -> (text: String)
        ensures
            text@ == "invalid certificate or key: "@ + spec_tls_detail(*self),
    {
        match self {
            TlsSetupError::InvalidIdentity(s) => String::from_str(
                "invalid certificate or key: ",
            ).concat(s.as_str()),
        }
    }
}

/// Build the reusable TLS acceptor from certificate and key bytes. The
/// acceptor is built once per process and cloned for every incoming TLS
/// connection. Whether the material is acceptable is the TLS library's
/// decision; every failure it reports surfaces as `InvalidIdentity`, a fatal
/// startup condition.
pub fn build_tls_acceptor(cert: &Vec<u8>, key: &Vec<u8>) -> (acceptor: Result<
    native_tls::TlsAcceptor,
    TlsSetupError,
>)
    ensures
        acceptor matches Err(e) ==> e is InvalidIdentity,
{
    let identity = match identity_from_pkcs8(cert, key) {
        Ok(identity) => identity,
        Err(e) => {
            return Err(TlsSetupError::InvalidIdentity(error_text(&e)));
        },
    };
    match acceptor_new(identity) {
        Ok(acceptor) => Ok(acceptor),
        Err(e) => Err(TlsSetupError::InvalidIdentity(error_text(&e))),
    }
}

/// The context under which every TLS setup failure — a missing certificate
/// file as well as refused material — is reported at startup.
pub fn tls_startup_context(detail: &str) -> (text: String)
    ensures
        text@ == "while setting up the SSL certificate: "@ + detail@,
{
    String::from_str("while setting up the SSL certificate: ").concat(detail)
}

} // verus!
