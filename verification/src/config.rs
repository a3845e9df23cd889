//! The configuration snapshot read once at startup, and the listener
//! orchestrator's plan: which endpoints to bind, in which order, under which
//! names and ports, and the diagnostics a failed bind is reported with.

use vstd::prelude::*;
use vstd::string::StringExecFns;

verus! {

/// The TLS endpoint's options: whether it is enabled, its port, and where
/// the certificate and private-key files stand.
#[derive(Clone, Debug, PartialEq, Eq)]
pub struct LdapsOptions {
    pub enabled: bool,
    pub port: u16,
    pub cert_file: String,
    pub key_file: String,
}

/// Mail-delivery options, carried through to the HTTP application state.
#[derive(Clone, Debug, PartialEq, Eq)]
pub struct MailOptions {
    pub server: String,
    pub port: u16,
    pub user: String,
    pub from: String,
}

/// The immutable configuration snapshot: constructed before server start,
/// cloned into each closure that needs it, never mutated afterwards.
#[derive(Clone, Debug, PartialEq, Eq)]
pub struct Configuration {
    pub ldap_port: u16,
    pub ldaps_options: LdapsOptions,
    pub http_port: u16,
    pub http_url: String,
    pub jwt_secret: String,
    pub ldap_base_dn: String,
    pub ldap_user_dn: String,
    pub smtp_options: MailOptions,
}

/// One logical endpoint of the front door.
#[derive(Clone, Copy, Debug, PartialEq, Eq, Structural)]
pub enum EndpointKind {
    LdapPlain,
    LdapTls,
    Http,
}

/// One endpoint to bind: its kind and its configured port.
#[derive(Clone, Copy, Debug, PartialEq, Eq, Structural)]
pub struct Endpoint {
    pub kind: EndpointKind,
    pub port: u16,
}

/// The name each endpoint is bound — and reported — under.
pub open spec fn spec_endpoint_name(kind: EndpointKind) -> Seq<char> {
    match kind {
        EndpointKind::LdapPlain => "ldap"@,
        EndpointKind::LdapTls => "ldaps"@,
        EndpointKind::Http => "http"@,
    }
}

/// The name an endpoint is bound under.
pub fn endpoint_name(kind: EndpointKind) -> (name: &'static str)
    ensures
        name@ == spec_endpoint_name(kind),
{
    match kind {
        EndpointKind::LdapPlain => "ldap",
        EndpointKind::LdapTls => "ldaps",
        EndpointKind::Http => "http",
    }
}

/// The orchestrator's plan: the plaintext protocol endpoint, then — exactly
/// when TLS is enabled — the TLS protocol endpoint, then the HTTP endpoint.
/// Every configured endpoint is bound; none is silently skipped.
pub fn endpoint_plan(config: &Configuration) -> (plan: Vec<Endpoint>)
    ensures
        plan@.len() == if config.ldaps_options.enabled {
            3int
        } else {
            2int
        },
        plan@[0] == (Endpoint { kind: EndpointKind::LdapPlain, port: config.ldap_port }),
        config.ldaps_options.enabled ==> plan@[1] == (Endpoint {
            kind: EndpointKind::LdapTls,
            port: config.ldaps_options.port,
        }) && plan@[2] == (Endpoint { kind: EndpointKind::Http, port: config.http_port }),
        !config.ldaps_options.enabled ==> plan@[1] == (Endpoint {
            kind: EndpointKind::Http,
            port: config.http_port,
        }),
{
    let mut plan: Vec<Endpoint> = Vec::new();
    plan.push(Endpoint { kind: EndpointKind::LdapPlain, port: config.ldap_port });
    if config.ldaps_options.enabled {
        plan.push(Endpoint { kind: EndpointKind::LdapTls, port: config.ldaps_options.port });
    }
    plan.push(Endpoint { kind: EndpointKind::Http, port: config.http_port });
    plan
}

/// The decimal digit characters.
pub open spec fn spec_digit(d: int) -> char {
    if d == 0 {
        '0'
    } else if d == 1 {
        '1'
    } else if d == 2 {
        '2'
    } else if d == 3 {
        '3'
    } else if d == 4 {
        '4'
    } else if d == 5 {
        '5'
    } else if d == 6 {
        '6'
    } else if d == 7 {
        '7'
    } else if d == 8 {
        '8'
    } else {
        '9'
    }
}

/// The decimal rendering of a non-negative number, most significant digit
/// first.
pub open spec fn spec_decimal(n: int) -> Seq<char>
    decreases n,
{
    if n < 10 {
        seq![spec_digit(n)]
    } else {
        spec_decimal(n / 10) + seq![spec_digit(n % 10)]
    }
}

/// One decimal digit as text.
fn digit_str(d: u16) -> (text: &'static str)
    requires
        d < 10,
    ensures
        text@ == seq![spec_digit(d as int)],
{
    proof {
        reveal_strlit("0");
        reveal_strlit("1");
        reveal_strlit("2");
        reveal_strlit("3");
        reveal_strlit("4");
        reveal_strlit("5");
        reveal_strlit("6");
        reveal_strlit("7");
        reveal_strlit("8");
        reveal_strlit("9");
    }
    match d {
        0 => "0",
        1 => "1",
        2 => "2",
        3 => "3",
        4 => "4",
        5 => "5",
        6 => "6",
        7 => "7",
        8 => "8",
        _ => "9",
    }
}

/// A port number in decimal, for diagnostics that must name the port.
pub fn decimal_string(n: u16) -> (text: String)
    ensures
        text@ == spec_decimal(n as int),
    decreases n as int,
{
    if n < 10 {
        String::from_str(digit_str(n))
    } else {
        let head = decimal_string(n / 10);
        head.concat(digit_str(n % 10))
    }
}

/// The diagnostic a failed protocol-endpoint bind is reported with, naming
/// the port so the operator sees which listener failed.
pub fn bind_error_context(port: u16) -> (text: String)
    ensures
        text@ == "while binding to the port "@ + spec_decimal(port as int),
{
    String::from_str("while binding to the port ").concat(decimal_string(port).as_str())
}

/// The diagnostic a failed HTTP-endpoint bind is reported with.
pub fn http_bind_error_context(port: u16) -> (text: String)
    ensures
        text@ == "While bringing up the TCP server with port "@ + spec_decimal(port as int),
{
    String::from_str("While bringing up the TCP server with port ").concat(
        decimal_string(port).as_str(),
    )
}

} // verus!
