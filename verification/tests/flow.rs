use oauth_loopback::errors::AuthError;
use oauth_loopback::session::FlowAction;
use oauth_loopback::session::FlowConfig;
use oauth_loopback::session::FlowEvent;
use oauth_loopback::session::FlowState;
use oauth_loopback::session::on_load_result;
use oauth_loopback::session::on_refresh_response;
use oauth_loopback::session::on_token_response;
use oauth_loopback::session::prepare_refresh_request;
use oauth_loopback::session::resolve_scope;
use oauth_loopback::session::sign_out_result;
use oauth_loopback::session::step;
use oauth_loopback::store::fault_of;
use oauth_loopback::store::StoreFault;
use oauth_loopback::token::TokenResponse;

fn cfg() -> FlowConfig {
    FlowConfig {
        client_id: String::from("id1"),
        client_secret: String::from("sec1"),
        scope: String::from("scope1"),
    }
}

fn record(refresh: Option<&str>) -> TokenResponse {
    TokenResponse {
        access_token: String::from("at"),
        refresh_token: refresh.map(String::from),
        expires_in: 3599,
        token_type: String::from("Bearer"),
        scope: None,
    }
}

#[test]
fn resolve_scope_defaults_to_tasks() {
    assert_eq!(resolve_scope(None), "https://www.googleapis.com/auth/tasks");
    assert_eq!(resolve_scope(Some(String::from("s"))), "s");
}

#[test]
fn provider_rejection_carries_status_and_body() {
    let r = on_token_response(400, String::from("{\"error\":\"invalid_grant\"}"));
    match r {
        Err(AuthError::ProviderRejected { status, detail }) => {
            assert_eq!(status, Some(400));
            assert_eq!(detail, "{\"error\":\"invalid_grant\"}");
        },
        other => panic!("wrong outcome: {:?}", other),
    }
}

#[test]
fn a_successful_response_decodes() {
    let r = on_token_response(
        200,
        String::from("{\"access_token\":\"at1\",\"token_type\":\"Bearer\",\"expires_in\":10}"),
    );
    match r {
        Ok(t) => {
            assert_eq!(t.access_token, "at1");
            assert_eq!(t.expires_in, 10);
        },
        other => panic!("wrong outcome: {:?}", other),
    }
}

#[test]
fn an_undecodable_success_is_a_decode_error() {
    let r = on_token_response(200, String::from("not json"));
    match r {
        Err(AuthError::DecodeError { detail }) => assert_eq!(detail, "not json"),
        other => panic!("wrong outcome: {:?}", other),
    }
}

#[test]
fn a_refresh_without_refresh_token_keeps_the_sent_one() {
    let r = on_refresh_response(
        200,
        String::from("{\"access_token\":\"a2\",\"token_type\":\"Bearer\",\"expires_in\":5}"),
        String::from("rt-old"),
    );
    match r {
        Ok(t) => {
            assert_eq!(t.access_token, "a2");
            assert_eq!(t.refresh_token.as_deref(), Some("rt-old"));
        },
        other => panic!("wrong outcome: {:?}", other),
    }
}

#[test]
fn a_refresh_with_a_new_refresh_token_keeps_the_new_one() {
    let r = on_refresh_response(
        200,
        String::from(
            "{\"access_token\":\"a2\",\"token_type\":\"B\",\"expires_in\":5,\
             \"refresh_token\":\"rt-new\"}",
        ),
        String::from("rt-old"),
    );
    match r {
        Ok(t) => assert_eq!(t.refresh_token.as_deref(), Some("rt-new")),
        other => panic!("wrong outcome: {:?}", other),
    }
}

#[test]
fn with_refresh_fallback_backfills_only_when_absent() {
    let kept = record(Some("r1")).with_refresh_fallback(String::from("r2"));
    assert_eq!(kept.refresh_token.as_deref(), Some("r1"));
    let filled = record(None).with_refresh_fallback(String::from("r2"));
    assert_eq!(filled.refresh_token.as_deref(), Some("r2"));
}

#[test]
fn a_missing_secret_is_store_not_found() {
    let r = on_load_result(Err(StoreFault::Missing));
    assert!(matches!(r, Err(AuthError::StoreNotFound)));
}

#[test]
fn a_store_fault_is_a_store_error() {
    let r = on_load_result(Err(StoreFault::Other(String::from("locked"))));
    assert!(matches!(r, Err(AuthError::StoreError { detail }) if detail == "locked"));
}

#[test]
fn a_found_secret_is_handed_on() {
    let r = on_load_result(Ok(String::from("rt")));
    assert!(matches!(r, Ok(s) if s == "rt"));
}

#[test]
fn sign_out_is_idempotent() {
    assert!(matches!(sign_out_result(Ok(())), Ok(())));
    assert!(matches!(sign_out_result(Err(StoreFault::Missing)), Ok(())));
    assert!(matches!(
        sign_out_result(Err(StoreFault::Other(String::from("x")))),
        Err(AuthError::StoreError { detail }) if detail == "x"
    ));
}

#[test]
fn prepare_refresh_request_builds_the_body() {
    let c = cfg();
    let b = prepare_refresh_request(&c, "rt/1").expect("ascii");
    assert_eq!(b, "client_id=id1&client_secret=sec1&grant_type=refresh_token&refresh_token=rt%2F1");
    assert!(prepare_refresh_request(&c, "\u{e9}").is_none());
}

#[test]
fn the_flow_walks_to_an_authenticated_session() {
    let c = cfg();
    let (s, a) = step(&c, FlowState::Idle, FlowEvent::Bound { port: 8080 });
    assert!(matches!(&s, FlowState::ListenerBound { port: 8080, redirect_uri }
        if redirect_uri.as_str() == "http://127.0.0.1:8080/callback"));
    match a {
        Some(FlowAction::OpenBrowser { url }) => {
            assert_eq!(
                url,
                "https://accounts.google.com/o/oauth2/v2/auth?response_type=code&client_id=id1\
                 &redirect_uri=http%3A%2F%2F127.0.0.1%3A8080%2Fcallback&scope=scope1\
                 &access_type=offline&prompt=consent"
            );
        },
        other => panic!("wrong action: {:?}", other),
    }
    let (s, a) = step(&c, s, FlowEvent::BrowserOpened);
    assert!(matches!(&s, FlowState::BrowserLaunched { .. }));
    assert!(matches!(a, Some(FlowAction::Accept)));
    let (s, a) = step(&c, s, FlowEvent::AcceptStarted);
    assert!(matches!(&s, FlowState::AwaitingRedirect { .. }));
    assert!(a.is_none());
    let (s, a) = step(
        &c,
        s,
        FlowEvent::Redirect {
            line: Some(String::from("GET /callback?code=a%2Fb HTTP/1.1\r\n")),
        },
    );
    assert!(matches!(&s, FlowState::CodeReceived { code, .. } if code.as_str() == "a/b"));
    assert!(matches!(&a, Some(FlowAction::Respond { page }) if page.starts_with("HTTP/1.1 200 OK")));
    let (s, a) = step(&c, s, FlowEvent::Responded);
    assert!(matches!(&s, FlowState::Exchanging));
    match a {
        Some(FlowAction::ExchangeCode { body }) => {
            assert_eq!(
                body,
                "client_id=id1&client_secret=sec1&code=a%2Fb&grant_type=authorization_code\
                 &redirect_uri=http%3A%2F%2F127.0.0.1%3A8080%2Fcallback"
            );
        },
        other => panic!("wrong action: {:?}", other),
    }
    let (s, a) = step(
        &c,
        s,
        FlowEvent::TokenHttp {
            status: 200,
            body: String::from(
                "{\"access_token\":\"at1\",\"token_type\":\"Bearer\",\"expires_in\":9,\
                 \"refresh_token\":\"rt1\"}",
            ),
        },
    );
    assert!(matches!(&s, FlowState::Authenticated { token } if token.access_token.as_str() == "at1"));
    assert!(matches!(&a, Some(FlowAction::PersistRefresh { secret }) if secret.as_str() == "rt1"));
}

#[test]
fn a_denied_redirect_fails_the_flow_and_answers_the_browser() {
    let c = cfg();
    let s = FlowState::AwaitingRedirect {
        redirect_uri: String::from("http://127.0.0.1:1/callback"),
    };
    let (s, a) = step(
        &c,
        s,
        FlowEvent::Redirect {
            line: Some(String::from("GET /callback?error=access_denied HTTP/1.1\r\n")),
        },
    );
    assert!(matches!(&s, FlowState::Failed {
        error: AuthError::ProviderRejected { status: None, detail }
    } if detail.as_str() == "access_denied"));
    assert!(matches!(&a, Some(FlowAction::Respond { .. })));
}

#[test]
fn a_failed_bind_fails_the_flow() {
    let c = cfg();
    let (s, a) = step(&c, FlowState::Idle, FlowEvent::BindFailed { detail: String::from("b") });
    assert!(matches!(&s, FlowState::Failed { error: AuthError::BindError { detail } } if detail.as_str() == "b"));
    assert!(a.is_none());
}

#[test]
fn a_rejected_exchange_fails_the_flow() {
    let c = cfg();
    let (s, a) = step(
        &c,
        FlowState::Exchanging,
        FlowEvent::TokenHttp { status: 400, body: String::from("{\"error\":\"invalid_grant\"}") },
    );
    assert!(matches!(&s, FlowState::Failed {
        error: AuthError::ProviderRejected { status: Some(400), detail }
    } if detail.as_str() == "{\"error\":\"invalid_grant\"}"));
    assert!(a.is_none());
}

#[test]
fn an_unexpected_event_changes_nothing() {
    let c = cfg();
    let (s, a) = step(&c, FlowState::Idle, FlowEvent::Responded);
    assert!(matches!(s, FlowState::Idle));
    assert!(a.is_none());
}

#[test]
fn a_token_without_refresh_asks_for_no_persistence() {
    let c = cfg();
    let (s, a) = step(
        &c,
        FlowState::Exchanging,
        FlowEvent::TokenHttp {
            status: 200,
            body: String::from(
                "{\"access_token\":\"at\",\"token_type\":\"Bearer\",\"expires_in\":9}",
            ),
        },
    );
    assert!(matches!(&s, FlowState::Authenticated { token } if token.refresh_token.is_none()));
    assert!(a.is_none());
}

#[test]
fn a_no_entry_report_is_the_missing_secret() {
    assert!(matches!(fault_of(None), StoreFault::Missing));
    assert!(matches!(fault_of(Some(String::from("locked"))),
        StoreFault::Other(t) if t == "locked"));
}
