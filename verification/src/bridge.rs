//! The bridge from start to finish.
//!
//! The runtime is launched, an administrative connection is opened, the
//! client is authorised, the application is installed unless one is there,
//! and a client connection is opened with the grant. Then the bridge either
//! registers credentials and leaves, or listens for events until it is
//! interrupted. The caller performs each action that `run` asks for and hands
//! its outcome back; any failure ends the bridge. Where an action is itself
//! a sequence of calls, the `event_after_` functions turn the last action of
//! that sequence into the outcome that `run` is told.

use vstd::prelude::*;
use crate::authorize::{AppWebsocketAuth, AuthAction};
use crate::install::InstallAction;
use crate::register::{Mode, RegisterAction};
use crate::text::{join, decimal, spec_decimal};

verus! {

/// Id under which the application is installed.
pub const PROVIDER_APP_ID: &'static str = "email_notifications_provider";

/// How far the bridge has come.
#[derive(Clone, Debug, PartialEq, Eq)]
pub enum BridgeState {
    /// Nothing has been asked yet.
    Idle,
    /// The runtime is being launched.
    Launching,
    /// The administrative connection is being opened.
    ConnectingAdmin,
    /// The client is being authorised.
    Authorizing,
    /// The application is being installed; the grant is kept for the client
    /// connection.
    Installing { grant: AppWebsocketAuth },
    /// The client connection is being opened.
    ConnectingApp,
    /// Credentials are being registered.
    Registering,
    /// The subscription to the application's signals is being made.
    Subscribing,
    /// The bridge relays events and waits for an interrupt.
    Listening,
    /// The bridge has ended.
    Finished,
}

/// What happened since the last step.
#[derive(Debug)]
pub enum BridgeEvent {
    /// The bridge is to begin.
    Start,
    /// The runtime runs, with this administrative port if it has one.
    Launched(Option<u16>),
    /// The administrative connection is open.
    AdminConnected,
    /// The client was authorised.
    Authorized(AppWebsocketAuth),
    /// The application is installed and enabled, or was there already.
    InstallEnsured,
    /// The client connection is open.
    AppConnected,
    /// The registration succeeded.
    Registered,
    /// The subscription stands.
    Subscribed,
    /// An interrupt arrived.
    Interrupted,
    /// The last action failed, with this cause.
    Failed(String),
}

/// Why the bridge ended early.
#[derive(Debug)]
pub enum BridgeError {
    /// The running runtime names no administrative port.
    NoAdminPort,
    /// An action failed, with this cause.
    Fatal(String),
    /// An outcome was reported that was not asked for.
    Unexpected,
}

/// What the caller is to do next.
#[derive(Debug)]
pub enum BridgeAction {
    /// Launch the runtime; the node stays online as told.
    Launch { always_online: bool },
    /// Open the administrative connection to this URL.
    ConnectAdmin { url: String },
    /// Authorise a client for this application.
    Authorize { app_id: String },
    /// Install this application unless one is installed.
    EnsureInstalled { app_id: String },
    /// Open the client connection to this URL with this token.
    ConnectApp { url: String, token: Vec<u8> },
    /// Register the credentials of the chosen mode and check them.
    Register,
    /// Subscribe to the application's signals.
    Subscribe,
    /// Wait for an interrupt while events are relayed.
    AwaitInterrupt,
    /// Leave with exit status 0.
    Exit,
    /// End the bridge with this error.
    Abort(BridgeError),
}

/// The URL of a websocket interface of the local runtime.
pub open spec fn spec_websocket_url(port: u16) -> Seq<char> {
    "ws://localhost:"@ + spec_decimal(port as nat)
}

/// The URL of a websocket interface of the local runtime.
pub fn websocket_url(port: u16) -> (url: String)
    ensures
        url@ == spec_websocket_url(port),
{
    let digits = decimal(port);
    join("ws://localhost:", digits.as_str())
}

/// The state after `event` arrived in `state`, in the mode that is
/// `listening` or not.
pub open spec fn spec_bridge_next(
    state: BridgeState,
    event: BridgeEvent,
    listening: bool,
) -> BridgeState {
    match (state, event) {
        (BridgeState::Idle, BridgeEvent::Start) => BridgeState::Launching,
        (BridgeState::Launching, BridgeEvent::Launched(Some(_))) => BridgeState::ConnectingAdmin,
        (BridgeState::ConnectingAdmin, BridgeEvent::AdminConnected) => BridgeState::Authorizing,
        (BridgeState::Authorizing, BridgeEvent::Authorized(grant)) => BridgeState::Installing {
            grant,
        },
        (BridgeState::Installing { .. }, BridgeEvent::InstallEnsured) => BridgeState::ConnectingApp,
        (BridgeState::ConnectingApp, BridgeEvent::AppConnected) => if listening {
            BridgeState::Subscribing
        } else {
            BridgeState::Registering
        },
        (BridgeState::Subscribing, BridgeEvent::Subscribed) => BridgeState::Listening,
        _ => BridgeState::Finished,
    }
}

/// Whether `action` is what `event` in `state` asks for.
pub open spec fn spec_is_bridge_action(
    state: BridgeState,
    event: BridgeEvent,
    listening: bool,
    action: BridgeAction,
) -> bool {
    match (state, event) {
        (BridgeState::Idle, BridgeEvent::Start) => {
            action matches BridgeAction::Launch { always_online } && always_online == listening
        },
        (BridgeState::Launching, BridgeEvent::Launched(Some(port))) => {
            action matches BridgeAction::ConnectAdmin { url } && url@ == spec_websocket_url(port)
        },
        (BridgeState::Launching, BridgeEvent::Launched(None)) => {
            action matches BridgeAction::Abort(BridgeError::NoAdminPort)
        },
        (BridgeState::ConnectingAdmin, BridgeEvent::AdminConnected) => {
            action matches BridgeAction::Authorize { app_id } && app_id@ == PROVIDER_APP_ID@
        },
        (BridgeState::Authorizing, BridgeEvent::Authorized(_)) => {
            action matches BridgeAction::EnsureInstalled { app_id } && app_id@ == PROVIDER_APP_ID@
        },
        (BridgeState::Installing { grant }, BridgeEvent::InstallEnsured) => {
            &&& action matches BridgeAction::ConnectApp { url, token }
            &&& url@ == spec_websocket_url(grant.app_websocket_port)
            &&& token@ == grant.token@
        },
        (BridgeState::ConnectingApp, BridgeEvent::AppConnected) => if listening {
            action is Subscribe
        } else {
            action is Register
        },
        (BridgeState::Registering, BridgeEvent::Registered) => action is Exit,
        (BridgeState::Subscribing, BridgeEvent::Subscribed) => action is AwaitInterrupt,
        (BridgeState::Listening, BridgeEvent::Interrupted) => action is Exit,
        (BridgeState::Idle, _) => action matches BridgeAction::Abort(BridgeError::Unexpected),
        (BridgeState::Finished, _) => action matches BridgeAction::Abort(BridgeError::Unexpected),
        (_, BridgeEvent::Failed(cause)) => {
            action matches BridgeAction::Abort(BridgeError::Fatal(c)) && c@ == cause@
        },
        _ => action matches BridgeAction::Abort(BridgeError::Unexpected),
    }
}

/// One step of the bridge: takes the outcome of the last action and says
/// what to do next.
pub fn run(state: BridgeState, event: BridgeEvent, mode: &Mode) -> (r: (BridgeState, BridgeAction))
    ensures
        r.0 == spec_bridge_next(state, event, *mode is ListenAndRelay),
        spec_is_bridge_action(state, event, *mode is ListenAndRelay, r.1),
{
    let listening = match mode {
        Mode::ListenAndRelay => true,
        Mode::RegisterAndVerify(_) => false,
    };
    match (state, event) {
        (BridgeState::Idle, BridgeEvent::Start) => (
            BridgeState::Launching,
            BridgeAction::Launch { always_online: listening },
        ),
        (BridgeState::Launching, BridgeEvent::Launched(Some(port))) => (
            BridgeState::ConnectingAdmin,
            BridgeAction::ConnectAdmin { url: websocket_url(port) },
        ),
        (BridgeState::Launching, BridgeEvent::Launched(None)) => (
            BridgeState::Finished,
            BridgeAction::Abort(BridgeError::NoAdminPort),
        ),
        (BridgeState::ConnectingAdmin, BridgeEvent::AdminConnected) => (
            BridgeState::Authorizing,
            BridgeAction::Authorize { app_id: PROVIDER_APP_ID.to_owned() },
        ),
        (BridgeState::Authorizing, BridgeEvent::Authorized(grant)) => (
            BridgeState::Installing { grant },
            BridgeAction::EnsureInstalled { app_id: PROVIDER_APP_ID.to_owned() },
        ),
        (BridgeState::Installing { grant }, BridgeEvent::InstallEnsured) => (
            BridgeState::ConnectingApp,
            BridgeAction::ConnectApp {
                url: websocket_url(grant.app_websocket_port),
                token: grant.token,
            },
        ),
        (BridgeState::ConnectingApp, BridgeEvent::AppConnected) => {
            if listening {
                (BridgeState::Subscribing, BridgeAction::Subscribe)
            } else {
                (BridgeState::Registering, BridgeAction::Register)
            }
        },
        (BridgeState::Registering, BridgeEvent::Registered) => (
            BridgeState::Finished,
            BridgeAction::Exit,
        ),
        (BridgeState::Subscribing, BridgeEvent::Subscribed) => (
            BridgeState::Listening,
            BridgeAction::AwaitInterrupt,
        ),
        (BridgeState::Listening, BridgeEvent::Interrupted) => (
            BridgeState::Finished,
            BridgeAction::Exit,
        ),
        (BridgeState::Idle, _) => (
            BridgeState::Finished,
            BridgeAction::Abort(BridgeError::Unexpected),
        ),
        (BridgeState::Finished, _) => (
            BridgeState::Finished,
            BridgeAction::Abort(BridgeError::Unexpected),
        ),
        (_, BridgeEvent::Failed(cause)) => (
            BridgeState::Finished,
            BridgeAction::Abort(BridgeError::Fatal(cause)),
        ),
        _ => (BridgeState::Finished, BridgeAction::Abort(BridgeError::Unexpected)),
    }
}

/// What the bridge is told once the authorisation has ended: the grant it
/// handed out, or its failure with the error's text. An action that asks
/// for another administrative call ends nothing.
pub fn event_after_authorization(action: AuthAction) -> (event: Option<BridgeEvent>)
    ensures
        match action {
            AuthAction::Grant(grant) => event == Some(BridgeEvent::Authorized(grant)),
            AuthAction::Abort(error) => {
                &&& event matches Some(BridgeEvent::Failed(cause))
                &&& cause@ == error.spec_message()
            },
            _ => event is None,
        },
{
    match action {
        AuthAction::Grant(grant) => Some(BridgeEvent::Authorized(grant)),
        AuthAction::Abort(error) => Some(BridgeEvent::Failed(error.message())),
        _ => None,
    }
}

/// What the bridge is told once the installation has ended: that the
/// application is there, whether it was installed now or before, or the
/// failure with the error's text. An action that asks for another
/// administrative call ends nothing.
pub fn event_after_install(action: InstallAction) -> (event: Option<BridgeEvent>)
    ensures
        match action {
            InstallAction::Done(_) => event == Some(BridgeEvent::InstallEnsured),
            InstallAction::AlreadyInstalled => event == Some(BridgeEvent::InstallEnsured),
            InstallAction::Abort(error) => {
                &&& event matches Some(BridgeEvent::Failed(cause))
                &&& cause@ == error.spec_message()
            },
            _ => event is None,
        },
{
    match action {
        InstallAction::Done(_) => Some(BridgeEvent::InstallEnsured),
        InstallAction::AlreadyInstalled => Some(BridgeEvent::InstallEnsured),
        InstallAction::Abort(error) => Some(BridgeEvent::Failed(error.message())),
        _ => None,
    }
}

/// What the bridge is told once the registration has ended: success exactly
/// where the read-back was accepted, or the failure with the error's text.
/// A remote call or a wait ends nothing.
pub fn event_after_registration(action: RegisterAction) -> (event: Option<BridgeEvent>)
    ensures
        match action {
            RegisterAction::ExitSuccess => event == Some(BridgeEvent::Registered),
            RegisterAction::Abort(error) => {
                &&& event matches Some(BridgeEvent::Failed(cause))
                &&& cause@ == error.spec_message()
            },
            _ => event is None,
        },
{
    match action {
        RegisterAction::ExitSuccess => Some(BridgeEvent::Registered),
        RegisterAction::Abort(error) => Some(BridgeEvent::Failed(error.message())),
        _ => None,
    }
}

impl BridgeError {
    /// The text shown to the operator.
    pub open spec fn spec_message(self) -> Seq<char> {
        match self {
            BridgeError::NoAdminPort => "Could not get admin port"@,
            BridgeError::Fatal(cause) => cause@,
            BridgeError::Unexpected => "A reply came that was not asked for"@,
        }
    }

    /// The text shown to the operator.
    pub fn message(&self) -> (text: String)
        ensures
            text@ == self.spec_message(),
    {
        match self {
            BridgeError::NoAdminPort => "Could not get admin port".to_owned(),
            BridgeError::Fatal(cause) => cause.clone(),
            BridgeError::Unexpected => "A reply came that was not asked for".to_owned(),
        }
    }
}

} // verus!
