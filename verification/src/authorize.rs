//! Authorising a client of the installed application.
//!
//! Two administrative calls are made in order: an application interface is
//! attached, then a token is issued for the application. The caller performs
//! each call that `authorize_app` asks for and hands its reply back.

use vstd::prelude::*;
use crate::config::AllowedOrigins;

verus! {

/// Seconds for which an issued token stays valid.
pub const TOKEN_EXPIRY_SECONDS: u64 = 999999999;

/// What a client needs to connect to the application interface.
#[derive(Clone, Debug, PartialEq, Eq)]
pub struct AppWebsocketAuth {
    /// Port of the application interface.
    pub app_websocket_port: u16,
    /// Bearer token for the application.
    pub token: Vec<u8>,
}

/// Request to attach an application interface.
#[derive(Debug)]
pub struct AttachAppInterface {
    /// Port to listen on; 0 lets the runtime choose.
    pub port: u16,
    pub allowed_origins: AllowedOrigins,
    /// Application that the interface is limited to.
    pub installed_app_id: Option<String>,
}

/// Request to issue a token.
#[derive(Debug)]
pub struct IssueAppAuthToken {
    pub installed_app_id: String,
    pub expiry_seconds: u64,
    pub single_use: bool,
}

/// How far the authorisation has come.
#[derive(Clone, Copy, Debug, PartialEq, Eq, Structural)]
pub enum AuthState {
    /// Nothing has been asked yet.
    Idle,
    /// The interface was asked for.
    Attaching,
    /// The interface listens on `port`; the token was asked for.
    Issuing { port: u16 },
    /// The grant was handed out, or the authorisation was given up.
    Finished,
}

/// What happened since the last step.
#[derive(Debug)]
pub enum AuthEvent {
    /// The authorisation is to begin.
    Start,
    /// The runtime attached the interface on this port.
    InterfaceAttached(u16),
    /// The runtime issued this token.
    TokenIssued(Vec<u8>),
    /// The administrative call failed, with this cause.
    Failed(String),
}

/// Why no grant was handed out.
#[derive(Debug)]
pub enum AuthError {
    /// An administrative call failed, with this cause.
    Admin(String),
    /// A reply came that was not asked for.
    Unexpected,
}

/// What the caller is to do next.
#[derive(Debug)]
pub enum AuthAction {
    Attach(AttachAppInterface),
    Issue(IssueAppAuthToken),
    /// The authorisation is complete.
    Grant(AppWebsocketAuth),
    /// The authorisation failed for good; nothing is retried.
    Abort(AuthError),
}

/// The state after `event` arrived in `state`.
pub open spec fn spec_auth_next(state: AuthState, event: AuthEvent) -> AuthState {
    match (state, event) {
        (AuthState::Idle, AuthEvent::Start) => AuthState::Attaching,
        (AuthState::Attaching, AuthEvent::InterfaceAttached(port)) => AuthState::Issuing { port },
        _ => AuthState::Finished,
    }
}

/// Whether `action` is what `event` in `state` asks for, for the application
/// `app_id`.
pub open spec fn spec_is_auth_action(
    state: AuthState,
    event: AuthEvent,
    app_id: Seq<char>,
    action: AuthAction,
) -> bool {
    match (state, event) {
        (AuthState::Idle, AuthEvent::Start) => {
            &&& action matches AuthAction::Attach(request)
            &&& request.port == 0
            &&& request.allowed_origins == AllowedOrigins::Any
            &&& request.installed_app_id matches Some(id)
            &&& id@ == app_id
        },
        (AuthState::Attaching, AuthEvent::InterfaceAttached(_)) => {
            &&& action matches AuthAction::Issue(request)
            &&& request.installed_app_id@ == app_id
            &&& request.expiry_seconds == TOKEN_EXPIRY_SECONDS
            &&& !request.single_use
        },
        (AuthState::Issuing { port }, AuthEvent::TokenIssued(token)) => {
            &&& action matches AuthAction::Grant(grant)
            &&& grant.app_websocket_port == port
            &&& grant.token@ == token@
        },
        (AuthState::Attaching, AuthEvent::Failed(cause)) => {
            &&& action matches AuthAction::Abort(AuthError::Admin(c))
            &&& c@ == cause@
        },
        (AuthState::Issuing { .. }, AuthEvent::Failed(cause)) => {
            &&& action matches AuthAction::Abort(AuthError::Admin(c))
            &&& c@ == cause@
        },
        _ => action matches AuthAction::Abort(AuthError::Unexpected),
    }
}

/// One step of the authorisation: takes the reply to the last action and
/// says what to do next.
pub fn authorize_app(state: AuthState, event: AuthEvent, app_id: &str) -> (r: (
    AuthState,
    AuthAction,
))
    ensures
        r.0 == spec_auth_next(state, event),
        spec_is_auth_action(state, event, app_id@, r.1),
{
    match (state, event) {
        (AuthState::Idle, AuthEvent::Start) => (
            AuthState::Attaching,
            AuthAction::Attach(
                AttachAppInterface {
                    port: 0,
                    allowed_origins: AllowedOrigins::Any,
                    installed_app_id: Some(app_id.to_owned()),
                },
            ),
        ),
        (AuthState::Attaching, AuthEvent::InterfaceAttached(port)) => (
            AuthState::Issuing { port },
            AuthAction::Issue(
                IssueAppAuthToken {
                    installed_app_id: app_id.to_owned(),
                    expiry_seconds: TOKEN_EXPIRY_SECONDS,
                    single_use: false,
                },
            ),
        ),
        (AuthState::Issuing { port }, AuthEvent::TokenIssued(token)) => (
            AuthState::Finished,
            AuthAction::Grant(AppWebsocketAuth { app_websocket_port: port, token }),
        ),
        (AuthState::Attaching, AuthEvent::Failed(cause)) => (
            AuthState::Finished,
            AuthAction::Abort(AuthError::Admin(cause)),
        ),
        (AuthState::Issuing { .. }, AuthEvent::Failed(cause)) => (
            AuthState::Finished,
            AuthAction::Abort(AuthError::Admin(cause)),
        ),
        _ => (AuthState::Finished, AuthAction::Abort(AuthError::Unexpected)),
    }
}

/// A grant is handed out only in answer to an issued token, and it names the
/// port on which the interface was attached before; the token is asked for
/// only in answer to that attachment.
pub proof fn lemma_grant_needs_interface_and_token(
    state: AuthState,
    event: AuthEvent,
    app_id: Seq<char>,
    action: AuthAction,
)
    requires
        spec_is_auth_action(state, event, app_id, action),
    ensures
        action matches AuthAction::Grant(grant) ==> state == (AuthState::Issuing {
            port: grant.app_websocket_port,
        }) && (event matches AuthEvent::TokenIssued(token) && token@ == grant.token@),
        spec_auth_next(state, event) is Issuing ==> state == AuthState::Attaching && event
            == AuthEvent::InterfaceAttached(spec_auth_next(state, event)->port),
        action is Issue <==> spec_auth_next(state, event) is Issuing,
{
}

impl AuthError {
    /// The text shown to the operator.
    pub open spec fn spec_message(self) -> Seq<char> {
        match self {
            AuthError::Admin(cause) => cause@,
            AuthError::Unexpected => "A reply came that was not asked for"@,
        }
    }

    /// The text shown to the operator.
    pub fn message(&self) -> (text: String)
        ensures
            text@ == self.spec_message(),
    {
        match self {
            AuthError::Admin(cause) => cause.clone(),
            AuthError::Unexpected => "A reply came that was not asked for".to_owned(),
        }
    }
}

} // verus!
