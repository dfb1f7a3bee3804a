use ldap_session::backend::{BackendHandler, BindRequest, SingleUserBackend};
use ldap_session::connection::{handle_incoming_message, LoopAction, MessageOutcome};
use ldap_session::messages::{
    LdapMsg, LdapResultCode, SearchRequest, ServerOps, SimpleBindRequest, UnbindRequest,
    WhoamiRequest,
};
use ldap_session::session::{search_responses, LdapHandler};

fn admin_backend() -> SingleUserBackend {
    SingleUserBackend::new(
        "cn=admin,dc=example,dc=com".to_string(),
        "secret".to_string(),
    )
}

fn bind(msgid: i32, dn: &str, pw: &str) -> ServerOps {
    ServerOps::SimpleBind(SimpleBindRequest {
        msgid,
        dn: dn.to_string(),
        pw: pw.to_string(),
    })
}

fn whoami_info<B: BackendHandler>(session: &mut LdapHandler<B>, msgid: i32) -> String {
    match session.handle_ldap_message(ServerOps::Whoami(WhoamiRequest { msgid })) {
        Some(v) => {
            assert_eq!(v.len(), 1);
            match &v[0] {
                LdapMsg::WhoamiResponse { msgid: m, info } => {
                    assert_eq!(*m, msgid);
                    info.clone()
                }
                _ => panic!("whoami returned a message of the wrong kind"),
            }
        }
        None => panic!("whoami must not close the connection"),
    }
}

#[test]
fn backend_accepts_exactly_its_pair() {
    let b = admin_backend();
    assert!(b
        .bind(&BindRequest {
            name: "cn=admin,dc=example,dc=com".to_string(),
            password: "secret".to_string(),
        })
        .is_ok());
    assert!(b
        .bind(&BindRequest {
            name: "cn=admin,dc=example,dc=com".to_string(),
            password: "wrong".to_string(),
        })
        .is_err());
    assert!(b
        .bind(&BindRequest {
            name: "cn=other,dc=example,dc=com".to_string(),
            password: "secret".to_string(),
        })
        .is_err());
}

#[test]
fn accepted_bind_sets_identity_and_returns_one_success() {
    let mut s = LdapHandler::new(admin_backend());
    let r = s.handle_ldap_message(bind(1, "cn=admin,dc=example,dc=com", "secret"));
    let v = r.expect("bind must not close the connection");
    assert_eq!(v.len(), 1);
    assert!(matches!(
        v[0],
        LdapMsg::BindResponse { msgid: 1, code: LdapResultCode::Success }
    ));
    assert_eq!(whoami_info(&mut s, 2), "dn: cn=admin,dc=example,dc=com");
}

#[test]
fn rejected_bind_keeps_identity_and_returns_one_failure() {
    let mut s = LdapHandler::new(admin_backend());
    let r = s.handle_ldap_message(bind(1, "cn=admin,dc=example,dc=com", "wrong"));
    let v = r.expect("bind must not close the connection");
    assert_eq!(v.len(), 1);
    assert!(matches!(
        v[0],
        LdapMsg::BindResponse { msgid: 1, code: LdapResultCode::InvalidCredentials }
    ));
    assert_eq!(whoami_info(&mut s, 2), "dn: Unauthenticated");
}

#[test]
fn whoami_before_any_bind_reports_unauthenticated() {
    let mut s = LdapHandler::new(admin_backend());
    assert_eq!(whoami_info(&mut s, 1), "dn: Unauthenticated");
}

#[test]
fn unbind_returns_close_sentinel_in_any_state() {
    let mut fresh = LdapHandler::new(admin_backend());
    assert!(fresh
        .handle_ldap_message(ServerOps::Unbind(UnbindRequest { msgid: 1 }))
        .is_none());

    let mut bound = LdapHandler::new(admin_backend());
    bound
        .handle_ldap_message(bind(1, "cn=admin,dc=example,dc=com", "secret"))
        .expect("bind must not close the connection");
    assert!(bound
        .handle_ldap_message(ServerOps::Unbind(UnbindRequest { msgid: 2 }))
        .is_none());
}

#[test]
fn search_returns_fixed_entries_then_done() {
    let mut s = LdapHandler::new(admin_backend());
    let r = s.handle_ldap_message(ServerOps::Search(SearchRequest {
        msgid: 9,
        base: "dc=example,dc=com".to_string(),
        filter: "(objectClass=*)".to_string(),
    }));
    let v = r.expect("search must not close the connection");
    assert_eq!(v.len(), 3);
    match &v[0] {
        LdapMsg::SearchResultEntry { msgid, entry } => {
            assert_eq!(*msgid, 9);
            assert_eq!(entry.dn, "cn=hello,dc=example,dc=com");
            assert_eq!(entry.attributes.len(), 2);
            assert_eq!(entry.attributes[0].atype, "objectClass");
            assert_eq!(entry.attributes[0].vals, vec!["cursed".to_string()]);
            assert_eq!(entry.attributes[1].atype, "cn");
            assert_eq!(entry.attributes[1].vals, vec!["hello".to_string()]);
        }
        _ => panic!("first search response must be an entry"),
    }
    match &v[1] {
        LdapMsg::SearchResultEntry { msgid, entry } => {
            assert_eq!(*msgid, 9);
            assert_eq!(entry.dn, "cn=world,dc=example,dc=com");
            assert_eq!(entry.attributes[1].vals, vec!["world".to_string()]);
        }
        _ => panic!("second search response must be an entry"),
    }
    assert!(matches!(
        v[2],
        LdapMsg::SearchResultDone { msgid: 9, code: LdapResultCode::Success }
    ));
}

#[test]
fn empty_search_yields_only_the_terminal_marker() {
    let r = search_responses(4, Vec::new());
    assert_eq!(r.len(), 1);
    assert!(matches!(
        r[0],
        LdapMsg::SearchResultDone { msgid: 4, code: LdapResultCode::Success }
    ));
}

#[test]
fn full_session_scenario() {
    let mut s = LdapHandler::new(admin_backend());
    let r = s.handle_ldap_message(bind(1, "cn=admin,dc=example,dc=com", "secret"));
    let v = r.expect("bind must not close the connection");
    assert_eq!(v.len(), 1);
    assert!(matches!(
        v[0],
        LdapMsg::BindResponse { msgid: 1, code: LdapResultCode::Success }
    ));
    assert_eq!(whoami_info(&mut s, 2), "dn: cn=admin,dc=example,dc=com");
    assert!(s
        .handle_ldap_message(ServerOps::Unbind(UnbindRequest { msgid: 3 }))
        .is_none());
}

#[test]
fn malformed_message_aborts_with_one_notice() {
    let mut s = LdapHandler::new(admin_backend());
    let action = handle_incoming_message(&mut s, MessageOutcome::Malformed);
    match action {
        LoopAction::Abort(LdapMsg::DisconnectionNotice { code, message }) => {
            assert_eq!(code, LdapResultCode::Other);
            assert_eq!(message, "Internal Server Error");
        }
        _ => panic!("a decode failure must abort with a disconnection notice"),
    }
    // The session survives untouched: a later loop on it would still work.
    assert_eq!(whoami_info(&mut s, 1), "dn: Unauthenticated");
}

#[test]
fn decoded_operations_flow_through_the_loop_step() {
    let mut s = LdapHandler::new(admin_backend());
    match handle_incoming_message(
        &mut s,
        MessageOutcome::Op(bind(1, "cn=admin,dc=example,dc=com", "secret")),
    ) {
        LoopAction::Respond(v) => {
            assert_eq!(v.len(), 1);
            assert!(matches!(
                v[0],
                LdapMsg::BindResponse { msgid: 1, code: LdapResultCode::Success }
            ));
        }
        _ => panic!("a bind must produce responses to send"),
    }
    match handle_incoming_message(
        &mut s,
        MessageOutcome::Op(ServerOps::Unbind(UnbindRequest { msgid: 2 })),
    ) {
        LoopAction::CloseGracefully => {}
        _ => panic!("unbind must close gracefully"),
    }
}

#[test]
fn two_sessions_never_observe_each_other() {
    let mut a = LdapHandler::new(SingleUserBackend::new("x".to_string(), "px".to_string()));
    let mut b = LdapHandler::new(SingleUserBackend::new("y".to_string(), "py".to_string()));
    a.handle_ldap_message(bind(1, "x", "px"))
        .expect("bind must not close the connection");
    b.handle_ldap_message(bind(1, "y", "py"))
        .expect("bind must not close the connection");
    assert_eq!(whoami_info(&mut a, 2), "dn: x");
    assert_eq!(whoami_info(&mut b, 2), "dn: y");
}
