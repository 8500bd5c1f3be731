use vstd::prelude::*;

verus! {

use vstd::string::StringExecFns;
use vstd::string::string_is_ascii;
use vstd::utf8::is_ascii_chars;
use crate::errors::AuthError;
use crate::httpmsg::build_confirmation_response;
use crate::httpmsg::confirm_page_spec;
use crate::httpmsg::ok_response_spec;
use crate::json::parse_token_json;
use crate::request::RedirectOutcome;
use crate::request::extract_auth_result;
use crate::request::outcome_spec;
use crate::store::StoreFault;
use crate::store::delete_refresh_token;
use crate::store::load_of_store;
use crate::store::store_after_delete;
use crate::token::TokenResponse;
use crate::url::auth_url_spec;
use crate::url::build_auth_url;
use crate::url::build_exchange_body;
use crate::url::build_redirect_uri;
use crate::url::exchange_body_spec;
use crate::url::redirect_uri_spec;

/// What one flow is configured with. The identifiers and the scope are
/// ASCII: RFC 6749 confines client identifiers to its VSCHAR set and
/// scope tokens to printable ASCII, so the ASCII domain loses nothing the
/// protocol allows.
pub struct FlowConfig {
    pub client_id: String,
    pub client_secret: String,
    pub scope: String,
}

impl FlowConfig {
    pub open spec fn wf(&self) -> bool {
        &&& is_ascii_chars(self.client_id@)
        &&& is_ascii_chars(self.client_secret@)
        &&& is_ascii_chars(self.scope@)
    }
}

/// The scope a flow runs under: the one asked for, or the default.
pub fn resolve_scope(scopes: Option<String>) -> (r: String)
    ensures
        scopes matches Some(s) ==> r == s,
        scopes is None ==> r@ == "https://www.googleapis.com/auth/tasks"@,
        scopes is None ==> is_ascii_chars(r@),
{
    match scopes {
        Some(s) => s,
        None => {
            let r = String::from_str("https://www.googleapis.com/auth/tasks");
            proof {
                reveal_strlit("https://www.googleapis.com/auth/tasks");
                assert(is_ascii_chars(r@));
            }
            r
        },
    }
}

/// The states one start-new-session flow passes through.
#[derive(Debug)]
pub enum FlowState {
    Idle,
    ListenerBound { port: u16, redirect_uri: String },
    BrowserLaunched { redirect_uri: String },
    AwaitingRedirect { redirect_uri: String },
    CodeReceived { redirect_uri: String, code: String },
    Exchanging,
    Authenticated { token: TokenResponse },
    Failed { error: AuthError },
}

/// What the outside world reports to the flow.
#[derive(Debug)]
pub enum FlowEvent {
    Bound { port: u16 },
    BindFailed { detail: String },
    BrowserOpened,
    BrowserFailed { detail: String },
    AcceptStarted,
    Redirect { line: Option<String> },
    Responded,
    TokenHttp { status: u16, body: String },
    NetworkFailed { detail: String },
}

/// What the flow asks the outside world to do next.
#[derive(Debug)]
pub enum FlowAction {
    OpenBrowser { url: String },
    Accept,
    Respond { page: String },
    ExchangeCode { body: String },
    PersistRefresh { secret: String },
}

/// The strings a state carries are ASCII: they were built from ASCII
/// parts, or extracted from an ASCII redirect line.
pub open spec fn state_wf(s: FlowState) -> bool {
    match s {
        FlowState::ListenerBound { port, redirect_uri } => is_ascii_chars(redirect_uri@),
        FlowState::BrowserLaunched { redirect_uri } => is_ascii_chars(redirect_uri@),
        FlowState::AwaitingRedirect { redirect_uri } => is_ascii_chars(redirect_uri@),
        FlowState::CodeReceived { redirect_uri, code } => is_ascii_chars(redirect_uri@)
            && is_ascii_chars(code@),
        _ => true,
    }
}

/// The state/event pairings the flow acts on; any other pairing leaves the
/// state as it is and asks for nothing.
pub open spec fn step_handled(state: FlowState, event: FlowEvent) -> bool {
    match (state, event) {
        (FlowState::Idle, FlowEvent::Bound { .. }) => true,
        (FlowState::Idle, FlowEvent::BindFailed { .. }) => true,
        (FlowState::ListenerBound { .. }, FlowEvent::BrowserOpened) => true,
        (FlowState::ListenerBound { .. }, FlowEvent::BrowserFailed { .. }) => true,
        (FlowState::BrowserLaunched { .. }, FlowEvent::AcceptStarted) => true,
        (FlowState::AwaitingRedirect { .. }, FlowEvent::Redirect { .. }) => true,
        (FlowState::CodeReceived { .. }, FlowEvent::Responded) => true,
        (FlowState::Exchanging, FlowEvent::TokenHttp { .. }) => true,
        (FlowState::Exchanging, FlowEvent::NetworkFailed { .. }) => true,
        _ => false,
    }
}

/// Advance one start-new-session flow: from the state it was in and what
/// just happened, to the state it is in and what to do next. Binding a
/// port leads to opening the consent page; an opened browser leads to
/// accepting the one redirect; the redirect's outcome decides between the
/// code and a terminal failure, and the browser is answered either way;
/// the token response decides between the finished session and a terminal
/// failure, and a fresh refresh token is handed out for best-effort
/// persistence.
pub fn step(cfg: &FlowConfig, state: FlowState, event: FlowEvent) -> (r: (
    FlowState,
    Option<FlowAction>,
))
    requires
        cfg.wf(),
        state_wf(state),
    ensures
        state_wf(r.0),
        state matches FlowState::Idle ==> (event matches FlowEvent::Bound { port } ==> {
            &&& r.0 matches FlowState::ListenerBound { port: p2, redirect_uri: ru } && p2 == port
                && ru@ == redirect_uri_spec(port as nat)
            &&& r.1 matches Some(a) && a matches FlowAction::OpenBrowser { url } && url@
                == auth_url_spec(cfg.client_id@, redirect_uri_spec(port as nat), cfg.scope@)
        }),
        state matches FlowState::Idle ==> (event matches FlowEvent::BindFailed { detail } ==> r.0
            == (FlowState::Failed { error: AuthError::BindError { detail } }) && r.1 is None),
        state matches FlowState::ListenerBound { port, redirect_uri } ==> (event matches
            FlowEvent::BrowserOpened ==> r.0 == (FlowState::BrowserLaunched { redirect_uri }) && r.1
            == Some(FlowAction::Accept)),
        state matches FlowState::ListenerBound { port, redirect_uri } ==> (event matches
            FlowEvent::BrowserFailed { detail } ==> r.0 == (FlowState::Failed {
            error: AuthError::BrowserLaunchError { detail },
        }) && r.1 is None),
        state matches FlowState::BrowserLaunched { redirect_uri } ==> (event matches
            FlowEvent::AcceptStarted ==> r.0 == (FlowState::AwaitingRedirect { redirect_uri })
            && r.1 is None),
        state matches FlowState::AwaitingRedirect { redirect_uri } ==> (event matches
            FlowEvent::Redirect { line } ==> {
            &&& line is None ==> r.0 == (FlowState::Failed { error: AuthError::CodeMissing })
            &&& line matches Some(l) ==> ({
                let o = outcome_spec(l@);
                &&& (string_is_ascii(&l) && o is Code) ==> (r.0 matches FlowState::CodeReceived {
                    redirect_uri: ru2,
                    code,
                } && ru2 == redirect_uri && code@ == o->Code_0)
                &&& (string_is_ascii(&l) && o is ProviderDenied) ==> (r.0 matches
                    FlowState::Failed { error } && error matches AuthError::ProviderRejected {
                    status,
                    detail,
                } && status is None && detail@ == o->ProviderDenied_0)
                &&& (string_is_ascii(&l) && o is CodeMissing) ==> r.0 == (FlowState::Failed {
                    error: AuthError::CodeMissing,
                })
                &&& !string_is_ascii(&l) ==> r.0 == (FlowState::Failed {
                    error: AuthError::CodeMissing,
                })
            })
            &&& r.1 matches Some(a) && a matches FlowAction::Respond { page } && page@
                == ok_response_spec(confirm_page_spec())
        }),
        state matches FlowState::CodeReceived { redirect_uri, code } ==> (event matches
            FlowEvent::Responded ==> {
            &&& r.0 is Exchanging
            &&& r.1 matches Some(a) && a matches FlowAction::ExchangeCode { body } && body@
                == exchange_body_spec(cfg.client_id@, cfg.client_secret@, code@, redirect_uri@)
        }),
        state matches FlowState::Exchanging ==> (event matches FlowEvent::TokenHttp { status, body }
            ==> {
            &&& !(200 <= status < 300) ==> r.0 == (FlowState::Failed {
                error: AuthError::ProviderRejected { status: Some(status), detail: body },
            }) && r.1 is None
            &&& (200 <= status < 300 && string_is_ascii(&body) && parse_token_json(body@)
                is Some) ==> {
                &&& r.0 matches FlowState::Authenticated { token } && Some(token@)
                    == parse_token_json(body@)
                &&& (r.0 matches FlowState::Authenticated { token } && token.refresh_token matches
                    Some(rt) ==> r.1 == Some(FlowAction::PersistRefresh { secret: rt }))
                &&& (r.0 matches FlowState::Authenticated { token } && token.refresh_token
                    is None ==> r.1 is None)
            }
            &&& (200 <= status < 300 && !(string_is_ascii(&body) && parse_token_json(body@)
                is Some)) ==> r.0 == (FlowState::Failed {
                error: AuthError::DecodeError { detail: body },
            }) && r.1 is None
        }),
        state matches FlowState::Exchanging ==> (event matches FlowEvent::NetworkFailed { detail }
            ==> r.0 == (FlowState::Failed { error: AuthError::NetworkError { detail } }) && r.1
            is None),
        !step_handled(state, event) ==> r.0 == state && r.1 is None,
{
    match (state, event) {
        (FlowState::Idle, FlowEvent::Bound { port }) => {
            let redirect_uri = build_redirect_uri(port);
            let url = build_auth_url(
                cfg.client_id.as_str(),
                redirect_uri.as_str(),
                cfg.scope.as_str(),
            );
            (
                FlowState::ListenerBound { port, redirect_uri },
                Some(FlowAction::OpenBrowser { url }),
            )
        },
        (FlowState::Idle, FlowEvent::BindFailed { detail }) => {
            (FlowState::Failed { error: AuthError::BindError { detail } }, None)
        },
        (FlowState::ListenerBound { port: _, redirect_uri }, FlowEvent::BrowserOpened) => {
            (FlowState::BrowserLaunched { redirect_uri }, Some(FlowAction::Accept))
        },
        (
            FlowState::ListenerBound { port: _, redirect_uri: _ },
            FlowEvent::BrowserFailed { detail },
        ) => {
            (FlowState::Failed { error: AuthError::BrowserLaunchError { detail } }, None)
        },
        (FlowState::BrowserLaunched { redirect_uri }, FlowEvent::AcceptStarted) => {
            (FlowState::AwaitingRedirect { redirect_uri }, None)
        },
        (FlowState::AwaitingRedirect { redirect_uri }, FlowEvent::Redirect { line }) => {
            let page = build_confirmation_response();
            let next = match line {
                None => FlowState::Failed { error: AuthError::CodeMissing },
                Some(l) => {
                    match extract_auth_result(l.as_str()) {
                        RedirectOutcome::Code(code) => FlowState::CodeReceived {
                            redirect_uri,
                            code,
                        },
                        RedirectOutcome::ProviderDenied(reason) => FlowState::Failed {
                            error: AuthError::ProviderRejected { status: None, detail: reason },
                        },
                        RedirectOutcome::CodeMissing => FlowState::Failed {
                            error: AuthError::CodeMissing,
                        },
                    }
                },
            };
            (next, Some(FlowAction::Respond { page }))
        },
        (FlowState::CodeReceived { redirect_uri, code }, FlowEvent::Responded) => {
            let body = build_exchange_body(
                cfg.client_id.as_str(),
                cfg.client_secret.as_str(),
                code.as_str(),
                redirect_uri.as_str(),
            );
            (FlowState::Exchanging, Some(FlowAction::ExchangeCode { body }))
        },
        (FlowState::Exchanging, FlowEvent::TokenHttp { status, body }) => {
            match on_token_response(status, body) {
                Ok(token) => {
                    let action = match &token.refresh_token {
                        Some(rt) => Some(FlowAction::PersistRefresh { secret: rt.clone() }),
                        None => None,
                    };
                    (FlowState::Authenticated { token }, action)
                },
                Err(error) => (FlowState::Failed { error }, None),
            }
        },
        (FlowState::Exchanging, FlowEvent::NetworkFailed { detail }) => {
            (FlowState::Failed { error: AuthError::NetworkError { detail } }, None)
        },
        (s, _) => (s, None),
    }
}

/// The session a token response yields: a rejection outside the 2xx range,
/// with the status and the body verbatim; otherwise the decoded record, or
/// the decode failure with the body.
pub fn on_token_response(status: u16, body: String) -> (r: Result<TokenResponse, AuthError>)
    ensures
        !(200 <= status < 300) ==> r == Err::<TokenResponse, AuthError>(
            AuthError::ProviderRejected { status: Some(status), detail: body },
        ),
        (200 <= status < 300 && string_is_ascii(&body) && parse_token_json(body@) is Some) ==> (
        r matches Ok(t) && Some(t@) == parse_token_json(body@)),
        (200 <= status < 300 && !(string_is_ascii(&body) && parse_token_json(body@) is Some))
            ==> r == Err::<TokenResponse, AuthError>(AuthError::DecodeError { detail: body }),
{
    if !(200 <= status && status < 300) {
        return Err(AuthError::ProviderRejected { status: Some(status), detail: body });
    }
    match crate::json::decode_token_response(body.as_str()) {
        Some(t) => Ok(t),
        None => Err(AuthError::DecodeError { detail: body }),
    }
}

/// The record a refresh exchange yields: as `on_token_response`, except
/// that a successful record missing its `refresh_token` gets the token
/// that was sent, so the caller always keeps a usable refresh token.
pub fn on_refresh_response(status: u16, body: String, used_refresh: String) -> (r: Result<
    TokenResponse,
    AuthError,
>)
    ensures
        !(200 <= status < 300) ==> r == Err::<TokenResponse, AuthError>(
            AuthError::ProviderRejected { status: Some(status), detail: body },
        ),
        (200 <= status < 300 && string_is_ascii(&body) && parse_token_json(body@) is Some) ==> (
        r matches Ok(t) && {
            let p = parse_token_json(body@)->Some_0;
            &&& t@.access_token == p.access_token
            &&& t@.expires_in == p.expires_in
            &&& t@.token_type == p.token_type
            &&& t@.scope == p.scope
            &&& t@.refresh_token == (if p.refresh_token is Some {
                p.refresh_token
            } else {
                Some(used_refresh@)
            })
        }),
        (200 <= status < 300 && !(string_is_ascii(&body) && parse_token_json(body@) is Some))
            ==> r == Err::<TokenResponse, AuthError>(AuthError::DecodeError { detail: body }),
{
    match on_token_response(status, body) {
        Ok(t) => Ok(t.with_refresh_fallback(used_refresh)),
        Err(e) => Err(e),
    }
}

/// The form body of the refresh exchange for a loaded secret, or nothing
/// when the secret is not ASCII and so cannot have come from the provider.
pub fn prepare_refresh_request(cfg: &FlowConfig, refresh: &str) -> (r: Option<String>)
    requires
        cfg.wf(),
    ensures
        r is Some <==> refresh.is_ascii(),
        r matches Some(b) ==> b@ == crate::url::refresh_body_spec(
            cfg.client_id@,
            cfg.client_secret@,
            refresh@,
        ),
{
    if refresh.is_ascii() {
        Some(
            crate::url::build_refresh_body(
                cfg.client_id.as_str(),
                cfg.client_secret.as_str(),
                refresh,
            ),
        )
    } else {
        None
    }
}

/// What a load result means for a restore: a missing secret is the
/// distinct not-found condition, a store fault is a store error, and a
/// found secret is the refresh token to exchange.
pub open spec fn load_step_spec(r: Result<String, StoreFault>) -> Result<String, AuthError> {
    match r {
        Ok(s) => Ok(s),
        Err(StoreFault::Missing) => Err(AuthError::StoreNotFound),
        Err(StoreFault::Other(d)) => Err(AuthError::StoreError { detail: d }),
    }
}

/// Turn a load result into the restore's next step.
pub fn on_load_result(r: Result<String, StoreFault>) -> (out: Result<String, AuthError>)
    ensures
        out == load_step_spec(r),
{
    match r {
        Ok(s) => Ok(s),
        Err(StoreFault::Missing) => Err(AuthError::StoreNotFound),
        Err(StoreFault::Other(d)) => Err(AuthError::StoreError { detail: d }),
    }
}

/// A sign-out empties the store, so the restore that follows finds no
/// secret and reports the distinct not-found condition — never a store
/// error and never a stale token.
pub proof fn lemma_sign_out_then_restore(m: Option<String>)
    ensures
        load_step_spec(load_of_store(store_after_delete(m))) == Err::<String, AuthError>(
            AuthError::StoreNotFound,
        ),
{
}

/// What a delete result means for a sign-out: deleting an absent secret
/// is still success; only a store fault is an error.
pub open spec fn sign_out_step_spec(r: Result<(), StoreFault>) -> Result<(), AuthError> {
    match r {
        Ok(u) => Ok(()),
        Err(StoreFault::Missing) => Ok(()),
        Err(StoreFault::Other(d)) => Err(AuthError::StoreError { detail: d }),
    }
}

/// Turn a delete result into the sign-out's answer.
pub fn sign_out_result(r: Result<(), StoreFault>) -> (out: Result<(), AuthError>)
    ensures
        out == sign_out_step_spec(r),
{
    match r {
        Ok(u) => Ok(()),
        Err(StoreFault::Missing) => Ok(()),
        Err(StoreFault::Other(d)) => Err(AuthError::StoreError { detail: d }),
    }
}

/// Delete the stored secret; idempotent, so signing out twice succeeds
/// twice. Whatever the platform store answers, an absent secret is never
/// an error, and the only error ever returned is a store fault.
pub fn sign_out() -> (r: Result<(), AuthError>)
    ensures
        r matches Err(e) ==> e matches AuthError::StoreError { detail: _ },
{
    sign_out_result(delete_refresh_token())
}

} // verus!
