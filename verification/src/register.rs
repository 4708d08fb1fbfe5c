//! Registering relay credentials and checking that they arrived.
//!
//! The credentials are published to the installed application, a fixed delay
//! lets the application's store settle, and the current credentials are read
//! back and compared with what was published. The caller performs each action
//! that `register_credentials` asks for and hands its reply back.

use vstd::prelude::*;
use crate::text::join;
use crate::credentials::{EmailCredentials, EmailCredentialsView};

verus! {

/// Seconds to wait between publishing and reading back.
pub const SETTLING_DELAY_SECONDS: u64 = 3;

/// Role and zome of the installed application that hold the credentials.
pub const PROVIDER_ZOME: &'static str = "email_notifications_provider";

/// Remote operation that publishes credentials.
pub const PUBLISH_FN: &'static str = "publish_new_email_credentials";

/// Remote operation that returns the current credentials.
pub const GET_CURRENT_FN: &'static str = "get_current_email_credentials";

/// What the bridge was started for.
#[derive(Debug)]
pub enum Mode {
    /// Register these credentials, check them and leave.
    RegisterAndVerify(EmailCredentials),
    /// Listen for events and relay each one, until interrupted.
    ListenAndRelay,
}

/// A call of a remote operation of the installed application.
#[derive(Debug)]
pub struct ZomeCall {
    pub role_name: String,
    pub zome_name: String,
    pub fn_name: String,
    /// Credentials sent as the call's payload.
    pub payload: EmailCredentials,
}

/// How far the registration has come.
#[derive(Clone, Copy, Debug, PartialEq, Eq, Structural)]
pub enum RegisterState {
    /// Nothing has been asked yet.
    Idle,
    /// The credentials were sent for publishing.
    Publishing,
    /// The settling delay runs.
    Settling,
    /// The current credentials were asked for.
    Reading,
    /// The registration succeeded or was given up.
    Finished,
}

/// What happened since the last step.
#[derive(Debug)]
pub enum RegisterEvent {
    /// The registration is to begin.
    Start,
    /// The application accepted the credentials.
    Published,
    /// The settling delay is over.
    DelayElapsed,
    /// The application returned its current credentials, if it has any.
    ReadBack(Option<EmailCredentials>),
    /// The remote call failed, with this cause.
    Failed(String),
}

/// Why the registration failed.
#[derive(Debug)]
pub enum RegisterError {
    /// The call that publishes the credentials failed.
    PublishFailed(String),
    /// The call that reads the credentials back failed.
    ReadFailed(String),
    /// The application holds no credentials at all.
    NoPublishedCredentials,
    /// The application holds other credentials than those published: they
    /// have not propagated yet, and the registration should be tried again.
    NotPropagated,
    /// A reply came that was not asked for.
    Unexpected,
}

/// What the caller is to do next.
#[derive(Debug)]
pub enum RegisterAction {
    /// Make this remote call.
    Call(ZomeCall),
    /// Wait this many seconds.
    Wait(u64),
    /// Report success and leave with exit status 0.
    ExitSuccess,
    /// The registration failed for good.
    Abort(RegisterError),
}

/// The view of optional credentials.
pub open spec fn spec_opt_credentials(credentials: Option<EmailCredentials>) -> Option<
    EmailCredentialsView,
> {
    match credentials {
        Some(c) => Some(c@),
        None => None,
    }
}

/// Whether `verdict` is the judgement on what was read back: success where
/// it equals what was published, and otherwise the error that tells missing
/// credentials from different ones.
pub open spec fn spec_is_verdict(
    verdict: Result<(), RegisterError>,
    published: EmailCredentialsView,
    read_back: Option<EmailCredentialsView>,
) -> bool {
    match read_back {
        None => verdict matches Err(e) && e is NoPublishedCredentials,
        Some(found) => if found == published {
            verdict is Ok
        } else {
            verdict matches Err(e) && e is NotPropagated
        },
    }
}

/// Whether `call` asks the provider zome for `fn_name` with `credentials` as
/// its payload.
pub open spec fn spec_is_provider_call(
    call: ZomeCall,
    fn_name: Seq<char>,
    credentials: EmailCredentialsView,
) -> bool {
    &&& call.role_name@ == PROVIDER_ZOME@
    &&& call.zome_name@ == PROVIDER_ZOME@
    &&& call.fn_name@ == fn_name
    &&& call.payload@ == credentials
}

/// The state after `event` arrived in `state`.
pub open spec fn spec_register_next(state: RegisterState, event: RegisterEvent) -> RegisterState {
    match (state, event) {
        (RegisterState::Idle, RegisterEvent::Start) => RegisterState::Publishing,
        (RegisterState::Publishing, RegisterEvent::Published) => RegisterState::Settling,
        (RegisterState::Settling, RegisterEvent::DelayElapsed) => RegisterState::Reading,
        _ => RegisterState::Finished,
    }
}

/// Whether `action` is what `event` in `state` asks for, when `credentials`
/// are being registered.
pub open spec fn spec_is_register_action(
    state: RegisterState,
    event: RegisterEvent,
    credentials: EmailCredentialsView,
    action: RegisterAction,
) -> bool {
    match (state, event) {
        (RegisterState::Idle, RegisterEvent::Start) => {
            &&& action matches RegisterAction::Call(call)
            &&& spec_is_provider_call(call, PUBLISH_FN@, credentials)
        },
        (RegisterState::Publishing, RegisterEvent::Published) => {
            action == RegisterAction::Wait(SETTLING_DELAY_SECONDS)
        },
        (RegisterState::Settling, RegisterEvent::DelayElapsed) => {
            &&& action matches RegisterAction::Call(call)
            &&& spec_is_provider_call(call, GET_CURRENT_FN@, credentials)
        },
        (RegisterState::Reading, RegisterEvent::ReadBack(read_back)) => {
            match action {
                RegisterAction::ExitSuccess => spec_is_verdict(
                    Ok(()),
                    credentials,
                    spec_opt_credentials(read_back),
                ),
                RegisterAction::Abort(e) => spec_is_verdict(
                    Err(e),
                    credentials,
                    spec_opt_credentials(read_back),
                ),
                _ => false,
            }
        },
        (RegisterState::Publishing, RegisterEvent::Failed(cause)) => {
            &&& action matches RegisterAction::Abort(RegisterError::PublishFailed(c))
            &&& c@ == cause@
        },
        (RegisterState::Reading, RegisterEvent::Failed(cause)) => {
            &&& action matches RegisterAction::Abort(RegisterError::ReadFailed(c))
            &&& c@ == cause@
        },
        _ => action matches RegisterAction::Abort(RegisterError::Unexpected),
    }
}

/// Chooses the mode: a registration where the command names credentials,
/// listening otherwise.
pub fn select_mode(command: Option<EmailCredentials>) -> (mode: Mode)
    ensures
        match command {
            Some(credentials) => mode == Mode::RegisterAndVerify(credentials),
            None => mode is ListenAndRelay,
        },
{
    match command {
        Some(credentials) => Mode::RegisterAndVerify(credentials),
        None => Mode::ListenAndRelay,
    }
}

/// Whether the node stays online: only while it listens.
pub fn always_online(mode: &Mode) -> (r: bool)
    ensures
        r == (*mode is ListenAndRelay),
{
    match mode {
        Mode::ListenAndRelay => true,
        Mode::RegisterAndVerify(_) => false,
    }
}

/// Judges what was read back against what was published.
pub fn check_registration(
    published: &EmailCredentials,
    read_back: &Option<EmailCredentials>,
) -> (verdict: Result<(), RegisterError>)
    ensures
        spec_is_verdict(verdict, published@, spec_opt_credentials(*read_back)),
{
    match read_back {
        None => Err(RegisterError::NoPublishedCredentials),
        Some(found) => {
            if found.same_as(published) {
                Ok(())
            } else {
                Err(RegisterError::NotPropagated)
            }
        },
    }
}

/// The call of `fn_name` in the provider zome, with `credentials` as payload.
fn provider_call(fn_name: &str, credentials: &EmailCredentials) -> (call: ZomeCall)
    ensures
        spec_is_provider_call(call, fn_name@, credentials@),
{
    ZomeCall {
        role_name: PROVIDER_ZOME.to_owned(),
        zome_name: PROVIDER_ZOME.to_owned(),
        fn_name: fn_name.to_owned(),
        payload: credentials.clone(),
    }
}

/// One step of the registration: takes the reply to the last action and says
/// what to do next.
pub fn register_credentials(
    state: RegisterState,
    event: RegisterEvent,
    credentials: &EmailCredentials,
) -> (r: (RegisterState, RegisterAction))
    ensures
        r.0 == spec_register_next(state, event),
        spec_is_register_action(state, event, credentials@, r.1),
{
    match (state, event) {
        (RegisterState::Idle, RegisterEvent::Start) => (
            RegisterState::Publishing,
            RegisterAction::Call(provider_call(PUBLISH_FN, credentials)),
        ),
        (RegisterState::Publishing, RegisterEvent::Published) => (
            RegisterState::Settling,
            RegisterAction::Wait(SETTLING_DELAY_SECONDS),
        ),
        (RegisterState::Settling, RegisterEvent::DelayElapsed) => (
            RegisterState::Reading,
            RegisterAction::Call(provider_call(GET_CURRENT_FN, credentials)),
        ),
        (RegisterState::Reading, RegisterEvent::ReadBack(read_back)) => {
            let action = match check_registration(credentials, &read_back) {
                Ok(_) => RegisterAction::ExitSuccess,
                Err(e) => RegisterAction::Abort(e),
            };
            (RegisterState::Finished, action)
        },
        (RegisterState::Publishing, RegisterEvent::Failed(cause)) => (
            RegisterState::Finished,
            RegisterAction::Abort(RegisterError::PublishFailed(cause)),
        ),
        (RegisterState::Reading, RegisterEvent::Failed(cause)) => (
            RegisterState::Finished,
            RegisterAction::Abort(RegisterError::ReadFailed(cause)),
        ),
        _ => (RegisterState::Finished, RegisterAction::Abort(RegisterError::Unexpected)),
    }
}

/// Success is reported only for a read-back that equals what was published,
/// and the read-back is asked for only once the settling delay is over, which
/// in turn begins only once the credentials were published.
pub proof fn lemma_success_needs_matching_read_back(
    state: RegisterState,
    event: RegisterEvent,
    credentials: EmailCredentialsView,
    action: RegisterAction,
)
    requires
        spec_is_register_action(state, event, credentials, action),
    ensures
        action is ExitSuccess ==> state == RegisterState::Reading && (event matches RegisterEvent::ReadBack(
            Some(found),
        ) && found@ == credentials),
        spec_register_next(state, event) == RegisterState::Reading ==> state
            == RegisterState::Settling && event is DelayElapsed,
        spec_register_next(state, event) == RegisterState::Settling ==> state
            == RegisterState::Publishing && event is Published,
        spec_register_next(state, event) == RegisterState::Publishing ==> state
            == RegisterState::Idle && event is Start,
{
}

impl RegisterError {
    /// The text shown to the operator.
    pub open spec fn spec_message(self) -> Seq<char> {
        match self {
            RegisterError::PublishFailed(cause) => "Failed to publish email credentials: "@ + cause@,
            RegisterError::ReadFailed(cause) => "Failed to get email credentials: "@ + cause@,
            RegisterError::NoPublishedCredentials => "There are no published email credentials"@,
            RegisterError::NotPropagated => "The published email credentials were not successfully gossiped: try again."@,
            RegisterError::Unexpected => "A reply came that was not asked for"@,
        }
    }

    /// The text shown to the operator.
    pub fn message(&self) -> (text: String)
        ensures
            text@ == self.spec_message(),
    {
        match self {
            RegisterError::PublishFailed(cause) => join("Failed to publish email credentials: ", cause.as_str()),
            RegisterError::ReadFailed(cause) => join("Failed to get email credentials: ", cause.as_str()),
            RegisterError::NoPublishedCredentials => "There are no published email credentials".to_owned(),
            RegisterError::NotPropagated => "The published email credentials were not successfully gossiped: try again.".to_owned(),
            RegisterError::Unexpected => "A reply came that was not asked for".to_owned(),
        }
    }
}

} // verus!
