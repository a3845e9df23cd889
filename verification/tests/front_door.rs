use lldap::config::{
    bind_error_context, decimal_string, endpoint_name, endpoint_plan, http_bind_error_context,
    Configuration, Endpoint, EndpointKind, LdapsOptions, MailOptions,
};
use lldap::faults::{scope_of, FaultKind, FaultScope};
use lldap::http_error::{error_to_http_response, DomainError};
use lldap::loader::{classify_read, FileReadError};
use lldap::protocol::{
    process_message, responses_for, HandlerResult, Message, Op, SessionError, StepOutcome,
};
use lldap::routes::{entry_document_path, route_for, RouteTarget};
use lldap::session::{run_session, Session, WireEvent};
use lldap::state::{build_app_state, RevocationSet};
use lldap::tls::{build_tls_acceptor, tls_startup_context, TlsSetupError};

fn msg(msgid: i32, op: Op) -> Message {
    Message { msgid, op, ctrl: vec![] }
}

fn test_configuration(ldaps_enabled: bool) -> Configuration {
    Configuration {
        ldap_port: 389,
        ldaps_options: LdapsOptions {
            enabled: ldaps_enabled,
            port: 636,
            cert_file: String::from("cert.pem"),
            key_file: String::from("key.pem"),
        },
        http_port: 17170,
        http_url: String::from("http://localhost"),
        jwt_secret: String::from("secretjwtsecret"),
        ldap_base_dn: String::from("dc=example,dc=com"),
        ldap_user_dn: String::from("admin"),
        smtp_options: MailOptions {
            server: String::from("smtp.example.com"),
            port: 587,
            user: String::from("mailer"),
            from: String::from("noreply@example.com"),
        },
    }
}

#[test]
fn bind_request_gets_one_correlated_response() {
    // A well-formed bind request with correlation id 7: exactly one response,
    // with correlation id 7 and a bind-result operation.
    let requests = vec![msg(7, Op::BindRequest)];
    let outcomes = vec![HandlerResult::Respond(vec![Op::BindResponse])];
    let trace = run_session(&requests, &outcomes);
    assert_eq!(
        trace,
        vec![
            WireEvent::ReadFrame { msgid: 7, op: Op::BindRequest },
            WireEvent::WriteFrame { msgid: 7, op: Op::BindResponse },
            WireEvent::Flushed,
        ]
    );
}

#[test]
fn unbind_closes_without_response() {
    // An unbind request: the connection closes with no response written.
    let requests = vec![msg(2, Op::UnbindRequest)];
    let outcomes = vec![HandlerResult::Terminate];
    let trace = run_session(&requests, &outcomes);
    assert_eq!(trace, vec![WireEvent::ReadFrame { msgid: 2, op: Op::UnbindRequest }]);
}

#[test]
fn terminate_stops_before_later_requests() {
    let requests = vec![msg(1, Op::BindRequest), msg(2, Op::UnbindRequest), msg(3, Op::SearchRequest)];
    let outcomes = vec![
        HandlerResult::Respond(vec![Op::BindResponse]),
        HandlerResult::Terminate,
        HandlerResult::Respond(vec![Op::SearchResultDone]),
    ];
    let trace = run_session(&requests, &outcomes);
    assert_eq!(
        trace,
        vec![
            WireEvent::ReadFrame { msgid: 1, op: Op::BindRequest },
            WireEvent::WriteFrame { msgid: 1, op: Op::BindResponse },
            WireEvent::Flushed,
            WireEvent::ReadFrame { msgid: 2, op: Op::UnbindRequest },
        ]
    );
}

#[test]
fn empty_reply_continues_without_writing() {
    // An empty response list: no message is written, no error is raised, and
    // the loop goes on to the next request.
    let requests = vec![msg(4, Op::SearchRequest), msg(5, Op::UnbindRequest)];
    let outcomes = vec![HandlerResult::Respond(vec![]), HandlerResult::Terminate];
    let trace = run_session(&requests, &outcomes);
    assert_eq!(
        trace,
        vec![
            WireEvent::ReadFrame { msgid: 4, op: Op::SearchRequest },
            WireEvent::Flushed,
            WireEvent::ReadFrame { msgid: 5, op: Op::UnbindRequest },
        ]
    );
}

#[test]
fn responses_flushed_before_next_read() {
    // Responses for request N are fully written and flushed before request
    // N+1 is read: between any two reads of the trace stands a flush.
    let requests = vec![msg(10, Op::SearchRequest), msg(11, Op::SearchRequest), msg(12, Op::ModifyRequest)];
    let outcomes = vec![
        HandlerResult::Respond(vec![Op::SearchResultEntry, Op::SearchResultEntry, Op::SearchResultDone]),
        HandlerResult::Respond(vec![Op::SearchResultDone]),
        HandlerResult::Respond(vec![Op::ModifyResponse]),
    ];
    let trace = run_session(&requests, &outcomes);
    let read_positions: Vec<usize> = trace
        .iter()
        .enumerate()
        .filter(|(_, e)| matches!(e, WireEvent::ReadFrame { .. }))
        .map(|(i, _)| i)
        .collect();
    assert_eq!(read_positions.len(), 3);
    for pair in read_positions.windows(2) {
        let flushed_between = trace[pair[0] + 1..pair[1]]
            .iter()
            .any(|e| matches!(e, WireEvent::Flushed));
        assert!(flushed_between);
    }
    // And every write carries the correlation id of the most recent read.
    let mut current_msgid = None;
    for event in &trace {
        match event {
            WireEvent::ReadFrame { msgid, .. } => current_msgid = Some(*msgid),
            WireEvent::WriteFrame { msgid, .. } => assert_eq!(Some(*msgid), current_msgid),
            WireEvent::Flushed => {}
        }
    }
}

#[test]
fn responses_copy_correlation_id_and_empty_controls() {
    let request = Message {
        msgid: 99,
        op: Op::SearchRequest,
        ctrl: vec![lldap::protocol::Control { tag: 5 }],
    };
    let ops = vec![Op::SearchResultEntry, Op::SearchResultDone];
    let responses = responses_for(&request, &ops);
    assert_eq!(responses.len(), 2);
    for (response, op) in responses.iter().zip(ops.iter()) {
        assert_eq!(response.msgid, 99);
        assert_eq!(response.op, *op);
        assert!(response.ctrl.is_empty());
    }
}

#[test]
fn process_message_closes_only_on_terminate() {
    let request = msg(3, Op::UnbindRequest);
    assert_eq!(process_message(&request, &HandlerResult::Terminate), StepOutcome::Close);
    let step = process_message(&msg(8, Op::BindRequest), &HandlerResult::Respond(vec![Op::BindResponse]));
    match step {
        StepOutcome::Continue(msgs) => {
            assert_eq!(msgs.len(), 1);
            assert_eq!(msgs[0].msgid, 8);
            assert_eq!(msgs[0].op, Op::BindResponse);
            assert!(msgs[0].ctrl.is_empty());
        }
        StepOutcome::Close => panic!("a handler reply must not close the connection"),
    }
}

#[test]
fn session_records_bound_identity() {
    let mut session = Session::new(String::from("dc=example,dc=com"), None);
    assert_eq!(session.base_dn, "dc=example,dc=com");
    assert!(session.bound_identity.is_none());
    session.record_bind(String::from("cn=admin,dc=example,dc=com"));
    assert_eq!(session.bound_identity.as_deref(), Some("cn=admin,dc=example,dc=com"));
    assert_eq!(session.base_dn, "dc=example,dc=com");
}

#[test]
fn session_error_contexts() {
    assert_eq!(SessionError::Receive.context(), "while receiving protocol message");
    assert_eq!(SessionError::Send.context(), "while sending a response");
    assert_eq!(SessionError::Flush.context(), "while flushing responses");
}

#[test]
fn error_mapping_is_total_over_the_taxonomy() {
    let cases = vec![
        (DomainError::AuthenticationError(String::from("bad password")), 401),
        (DomainError::AuthenticationProtocolError(String::from("bad exchange")), 401),
        (DomainError::DatabaseError(String::from("lost connection")), 500),
        (DomainError::InternalError(String::from("oops")), 500),
        (DomainError::UnknownCryptoError(String::from("bad key")), 500),
        (DomainError::Base64DecodeError(String::from("bad padding")), 400),
        (DomainError::BinarySerializationError(String::from("bad frame")), 400),
    ];
    for (error, expected_status) in cases {
        let description = error.description();
        let response = error_to_http_response(error);
        assert_eq!(response.status, expected_status);
        assert_eq!(response.body, description);
    }
}

#[test]
fn error_body_is_the_description_text() {
    let error = DomainError::AuthenticationError(String::from("unknown user"));
    let response = error_to_http_response(error);
    assert_eq!(response.status, 401);
    assert_eq!(response.body, "Authentication error: unknown user");
}

#[test]
fn routing_serves_entry_document_for_root_and_client_routes() {
    assert_eq!(route_for("/"), RouteTarget::EntryDocument);
    assert_eq!(route_for(""), RouteTarget::EntryDocument);
    assert_eq!(route_for("/some/client/route"), RouteTarget::EntryDocument);
    assert_eq!(entry_document_path(), "app/index.html");
}

#[test]
fn routing_mounts_each_scope() {
    assert_eq!(route_for("/auth"), RouteTarget::AuthRoutes);
    assert_eq!(route_for("/auth/login"), RouteTarget::AuthRoutes);
    assert_eq!(route_for("/api/graphql"), RouteTarget::ApiRoutes);
    assert_eq!(route_for("/pkg/app.wasm"), RouteTarget::PkgFiles);
    assert_eq!(route_for("/static/main.css"), RouteTarget::StaticFiles);
    assert_eq!(route_for("/static/fonts/x.woff"), RouteTarget::FontFiles);
    // Scopes claim whole segments: a mere text prefix is not a match.
    assert_eq!(route_for("/authx"), RouteTarget::EntryDocument);
    assert_eq!(route_for("/apix/y"), RouteTarget::EntryDocument);
}

#[test]
fn file_read_errors_name_the_path() {
    let text = FileReadError::FileNotFound.describe("certs/server.pem");
    assert_eq!(text, "while reading file certs/server.pem: file not found");
    assert!(text.contains("certs/server.pem"));
    assert_eq!(
        FileReadError::MetadataUnavailable.describe("k.pem"),
        "while reading file k.pem: unable to read metadata"
    );
    assert_eq!(
        FileReadError::ReadTruncated.describe("k.pem"),
        "while reading file k.pem: buffer overflow"
    );
}

#[test]
fn classify_read_detects_truncation() {
    assert!(classify_read(10, 10).is_ok());
    assert!(classify_read(0, 0).is_ok());
    assert_eq!(classify_read(10, 9), Err(FileReadError::ReadTruncated));
}

#[test]
fn missing_certificate_fails_startup_naming_the_path() {
    // TLS configured with a missing certificate file: startup fails with an
    // error that names the file path.
    let config = test_configuration(true);
    let inner = FileReadError::FileNotFound.describe(&config.ldaps_options.cert_file);
    let startup = tls_startup_context(&inner);
    assert_eq!(
        startup,
        "while setting up the SSL certificate: while reading file cert.pem: file not found"
    );
    assert!(startup.contains("cert.pem"));
}

#[test]
fn garbage_certificate_material_is_refused() {
    let cert = b"not a certificate".to_vec();
    let key = b"not a key".to_vec();
    match build_tls_acceptor(&cert, &key) {
        Err(TlsSetupError::InvalidIdentity(_)) => {}
        Ok(_) => panic!("garbage material must not build an acceptor"),
    }
    let described = TlsSetupError::InvalidIdentity(String::from("bad pem")).describe();
    assert_eq!(described, "invalid certificate or key: bad pem");
}

#[test]
fn endpoint_plan_binds_every_configured_listener() {
    let with_tls = endpoint_plan(&test_configuration(true));
    assert_eq!(
        with_tls,
        vec![
            Endpoint { kind: EndpointKind::LdapPlain, port: 389 },
            Endpoint { kind: EndpointKind::LdapTls, port: 636 },
            Endpoint { kind: EndpointKind::Http, port: 17170 },
        ]
    );
    let without_tls = endpoint_plan(&test_configuration(false));
    assert_eq!(
        without_tls,
        vec![
            Endpoint { kind: EndpointKind::LdapPlain, port: 389 },
            Endpoint { kind: EndpointKind::Http, port: 17170 },
        ]
    );
    assert_eq!(endpoint_name(EndpointKind::LdapPlain), "ldap");
    assert_eq!(endpoint_name(EndpointKind::LdapTls), "ldaps");
    assert_eq!(endpoint_name(EndpointKind::Http), "http");
}

#[test]
fn bind_failures_name_the_port() {
    assert_eq!(decimal_string(0), "0");
    assert_eq!(decimal_string(7), "7");
    assert_eq!(decimal_string(80), "80");
    assert_eq!(decimal_string(389), "389");
    assert_eq!(decimal_string(65535), "65535");
    assert_eq!(bind_error_context(389), "while binding to the port 389");
    assert_eq!(
        http_bind_error_context(17170),
        "While bringing up the TCP server with port 17170"
    );
}

#[test]
fn fault_scopes_keep_connections_from_killing_listeners() {
    assert_eq!(scope_of(FaultKind::ConfigFileRead), FaultScope::Startup);
    assert_eq!(scope_of(FaultKind::CertificateMaterial), FaultScope::Startup);
    assert_eq!(scope_of(FaultKind::PortBind), FaultScope::Startup);
    assert_eq!(scope_of(FaultKind::TlsHandshake), FaultScope::Connection);
    assert_eq!(scope_of(FaultKind::TransportReceive), FaultScope::Connection);
    assert_eq!(scope_of(FaultKind::TransportSend), FaultScope::Connection);
    assert_eq!(scope_of(FaultKind::TransportFlush), FaultScope::Connection);
    assert_eq!(scope_of(FaultKind::Domain), FaultScope::Request);
}

#[test]
fn revocation_set_reads_see_writes() {
    let mut set = RevocationSet::from_tokens(&vec![1, 2, 3]);
    assert!(set.contains(1));
    assert!(set.contains(2));
    assert!(set.contains(3));
    assert!(!set.contains(4));
    set.insert(4);
    assert!(set.contains(4));
    // Everything already revoked stays revoked.
    assert!(set.contains(1));
    assert!(set.contains(2));
    assert!(set.contains(3));
    let empty = RevocationSet::new();
    assert!(!empty.contains(0));
}

#[test]
fn app_state_snapshots_the_configuration() {
    let config = test_configuration(false);
    let state = build_app_state(&config, &vec![10, 20]);
    assert_eq!(state.jwt_secret, "secretjwtsecret");
    assert_eq!(state.server_url, "http://localhost");
    assert!(state.jwt_blacklist.contains(10));
    assert!(state.jwt_blacklist.contains(20));
    assert!(!state.jwt_blacklist.contains(30));
    assert_eq!(state.mail_options.server, "smtp.example.com");
    assert_eq!(state.mail_options.port, 587);
    assert_eq!(state.mail_options.user, "mailer");
    assert_eq!(state.mail_options.from, "noreply@example.com");
}
