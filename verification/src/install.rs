//! Installing the application once.
//!
//! The installed applications are listed first. Where the runtime already
//! holds one, nothing is installed. Otherwise an agent key is generated, the
//! bundle is installed under the application's id, and the application is
//! enabled; what enabling reports is handed back. The caller performs each call that `install_app` asks for and
//! hands its reply back.

use vstd::prelude::*;
use std::collections::HashMap;
use crate::text::join;

verus! {

/// What the runtime reports of an installed application.
#[derive(Clone, Debug, PartialEq, Eq)]
pub struct AppInfo {
    /// Id under which the application is installed.
    pub installed_app_id: String,
    /// Key of the agent that it is installed for.
    pub agent_pub_key: Vec<u8>,
    /// Whether the application is enabled.
    pub enabled: bool,
}

/// Request to install the bundle. The caller adds the bundle itself.
#[derive(Debug)]
pub struct InstallAppPayload {
    /// Key of the agent that the application is installed for.
    pub agent_key: Vec<u8>,
    /// Membrane proofs by role name: always empty.
    pub membrane_proofs: HashMap<String, Vec<u8>>,
    pub network_seed: Option<String>,
    pub installed_app_id: Option<String>,
}

/// How far the installation has come.
#[derive(Clone, Copy, Debug, PartialEq, Eq, Structural)]
pub enum InstallState {
    /// Nothing has been asked yet.
    Idle,
    /// The list of installed applications was asked for.
    Listing,
    /// An agent key was asked for.
    GeneratingKey,
    /// The installation was asked for.
    Installing,
    /// Enabling the application was asked for.
    Enabling,
    /// The application is there, or the installation was given up.
    Finished,
}

/// What happened since the last step.
#[derive(Debug)]
pub enum InstallEvent {
    /// The installation is to begin.
    Start,
    /// The runtime holds this many installed applications.
    AppsListed(usize),
    /// The runtime generated this agent key.
    KeyGenerated(Vec<u8>),
    /// The runtime installed the application and reports it, not yet
    /// enabled.
    Installed(AppInfo),
    /// The runtime enabled the application and reports it.
    Enabled(AppInfo),
    /// The administrative call failed, with this cause.
    Failed(String),
}

/// Why the application was not installed.
#[derive(Debug)]
pub enum InstallError {
    /// The installed applications could not be listed.
    ListApps(String),
    /// No agent key could be generated.
    GenerateKey(String),
    /// The bundle could not be installed.
    Install(String),
    /// The application could not be enabled.
    Enable(String),
    /// A reply came that was not asked for.
    Unexpected,
}

/// What the caller is to do next.
#[derive(Debug)]
pub enum InstallAction {
    /// List the installed applications.
    ListApps,
    /// Generate a fresh agent key.
    GenerateAgentKey,
    /// Install the bundle.
    Install(InstallAppPayload),
    /// Enable the application with this id.
    Enable(String),
    /// An application is installed already: nothing to do.
    AlreadyInstalled,
    /// The application is installed and enabled; this is the record that
    /// enabling returned.
    Done(AppInfo),
    /// The installation failed for good; nothing is recovered.
    Abort(InstallError),
}

/// The view of an optional string.
pub open spec fn spec_opt_text(text: Option<String>) -> Option<Seq<char>> {
    match text {
        Some(t) => Some(t@),
        None => None,
    }
}

/// The state after `event` arrived in `state`.
pub open spec fn spec_install_next(state: InstallState, event: InstallEvent) -> InstallState {
    match (state, event) {
        (InstallState::Idle, InstallEvent::Start) => InstallState::Listing,
        (InstallState::Listing, InstallEvent::AppsListed(count)) => if count == 0 {
            InstallState::GeneratingKey
        } else {
            InstallState::Finished
        },
        (InstallState::GeneratingKey, InstallEvent::KeyGenerated(_)) => InstallState::Installing,
        (InstallState::Installing, InstallEvent::Installed(_)) => InstallState::Enabling,
        _ => InstallState::Finished,
    }
}

/// Whether `action` is what `event` in `state` asks for, for the application
/// `app_id` and the given network seed.
pub open spec fn spec_is_install_action(
    state: InstallState,
    event: InstallEvent,
    app_id: Seq<char>,
    network_seed: Option<Seq<char>>,
    action: InstallAction,
) -> bool {
    match (state, event) {
        (InstallState::Idle, InstallEvent::Start) => action is ListApps,
        (InstallState::Listing, InstallEvent::AppsListed(count)) => if count == 0 {
            action is GenerateAgentKey
        } else {
            action is AlreadyInstalled
        },
        (InstallState::GeneratingKey, InstallEvent::KeyGenerated(key)) => {
            &&& action matches InstallAction::Install(payload)
            &&& payload.agent_key@ == key@
            &&& payload.membrane_proofs@ == Map::<String, Vec<u8>>::empty()
            &&& spec_opt_text(payload.network_seed) == network_seed
            &&& payload.installed_app_id matches Some(id)
            &&& id@ == app_id
        },
        (InstallState::Installing, InstallEvent::Installed(_)) => {
            &&& action matches InstallAction::Enable(id)
            &&& id@ == app_id
        },
        (InstallState::Enabling, InstallEvent::Enabled(record)) => {
            action == InstallAction::Done(record)
        },
        (InstallState::Listing, InstallEvent::Failed(cause)) => {
            &&& action matches InstallAction::Abort(InstallError::ListApps(c))
            &&& c@ == cause@
        },
        (InstallState::GeneratingKey, InstallEvent::Failed(cause)) => {
            &&& action matches InstallAction::Abort(InstallError::GenerateKey(c))
            &&& c@ == cause@
        },
        (InstallState::Installing, InstallEvent::Failed(cause)) => {
            &&& action matches InstallAction::Abort(InstallError::Install(c))
            &&& c@ == cause@
        },
        (InstallState::Enabling, InstallEvent::Failed(cause)) => {
            &&& action matches InstallAction::Abort(InstallError::Enable(c))
            &&& c@ == cause@
        },
        _ => action matches InstallAction::Abort(InstallError::Unexpected),
    }
}

/// Whether an action asks the runtime to generate, install or enable
/// anything.
pub open spec fn spec_changes_runtime(action: InstallAction) -> bool {
    action is GenerateAgentKey || action is Install || action is Enable
}

/// One step of the installation: takes the reply to the last action and says
/// what to do next.
pub fn install_app(
    state: InstallState,
    event: InstallEvent,
    app_id: &str,
    network_seed: &Option<String>,
) -> (r: (InstallState, InstallAction))
    ensures
        r.0 == spec_install_next(state, event),
        spec_is_install_action(state, event, app_id@, spec_opt_text(*network_seed), r.1),
{
    match (state, event) {
        (InstallState::Idle, InstallEvent::Start) => (
            InstallState::Listing,
            InstallAction::ListApps,
        ),
        (InstallState::Listing, InstallEvent::AppsListed(count)) => {
            if count == 0 {
                (InstallState::GeneratingKey, InstallAction::GenerateAgentKey)
            } else {
                (InstallState::Finished, InstallAction::AlreadyInstalled)
            }
        },
        (InstallState::GeneratingKey, InstallEvent::KeyGenerated(agent_key)) => {
            let seed = match network_seed {
                Some(s) => Some(s.clone()),
                None => None,
            };
            let payload = InstallAppPayload {
                agent_key,
                membrane_proofs: HashMap::new(),
                network_seed: seed,
                installed_app_id: Some(app_id.to_owned()),
            };
            (InstallState::Installing, InstallAction::Install(payload))
        },
        (InstallState::Installing, InstallEvent::Installed(_)) => (
            InstallState::Enabling,
            InstallAction::Enable(app_id.to_owned()),
        ),
        (InstallState::Enabling, InstallEvent::Enabled(record)) => (
            InstallState::Finished,
            InstallAction::Done(record),
        ),
        (InstallState::Listing, InstallEvent::Failed(cause)) => (
            InstallState::Finished,
            InstallAction::Abort(InstallError::ListApps(cause)),
        ),
        (InstallState::GeneratingKey, InstallEvent::Failed(cause)) => (
            InstallState::Finished,
            InstallAction::Abort(InstallError::GenerateKey(cause)),
        ),
        (InstallState::Installing, InstallEvent::Failed(cause)) => (
            InstallState::Finished,
            InstallAction::Abort(InstallError::Install(cause)),
        ),
        (InstallState::Enabling, InstallEvent::Failed(cause)) => (
            InstallState::Finished,
            InstallAction::Abort(InstallError::Enable(cause)),
        ),
        _ => (InstallState::Finished, InstallAction::Abort(InstallError::Unexpected)),
    }
}

/// Against a runtime that reports an installed application, the installation
/// ends at once: the list is answered with `AlreadyInstalled`, and neither
/// that step nor any later one asks the runtime to generate a key, install
/// or enable.
pub proof fn lemma_installed_app_suppresses_install(
    count: usize,
    later: InstallEvent,
    app_id: Seq<char>,
    network_seed: Option<Seq<char>>,
    first: InstallAction,
    second: InstallAction,
)
    requires
        count >= 1,
        spec_is_install_action(
            InstallState::Listing,
            InstallEvent::AppsListed(count),
            app_id,
            network_seed,
            first,
        ),
        spec_is_install_action(
            spec_install_next(InstallState::Listing, InstallEvent::AppsListed(count)),
            later,
            app_id,
            network_seed,
            second,
        ),
    ensures
        first is AlreadyInstalled,
        spec_install_next(InstallState::Listing, InstallEvent::AppsListed(count))
            == InstallState::Finished,
        !spec_changes_runtime(first),
        !spec_changes_runtime(second),
        spec_install_next(InstallState::Finished, later) == InstallState::Finished,
{
}

/// The runtime is asked to generate a key only in answer to an empty list of
/// installed applications, to install only in answer to that key, and to
/// enable only in answer to a finished installation; the record handed back
/// at the end is the one that enabling returned.
pub proof fn lemma_install_needs_empty_list(
    state: InstallState,
    event: InstallEvent,
    app_id: Seq<char>,
    network_seed: Option<Seq<char>>,
    action: InstallAction,
)
    requires
        spec_is_install_action(state, event, app_id, network_seed, action),
    ensures
        action is GenerateAgentKey ==> state == InstallState::Listing && event
            == InstallEvent::AppsListed(0),
        action is Install ==> state == InstallState::GeneratingKey && event is KeyGenerated,
        action is Enable ==> state == InstallState::Installing && event is Installed,
        action matches InstallAction::Done(record) ==> state == InstallState::Enabling && event
            == InstallEvent::Enabled(record),
        spec_install_next(state, event) == InstallState::GeneratingKey ==> action
            is GenerateAgentKey,
        spec_install_next(state, event) == InstallState::Installing ==> action is Install,
        spec_install_next(state, event) == InstallState::Enabling ==> action is Enable,
{
}

/// Whether the three sequences are a run of the installation from its
/// beginning: each state follows from the one before and the event that
/// arrived in it, and each action is the answer to that event.
pub open spec fn spec_is_install_run(
    states: Seq<InstallState>,
    events: Seq<InstallEvent>,
    actions: Seq<InstallAction>,
    app_id: Seq<char>,
    network_seed: Option<Seq<char>>,
) -> bool {
    &&& states.len() == events.len() + 1
    &&& actions.len() == events.len()
    &&& states[0] == InstallState::Idle
    &&& forall|i: int|
        0 <= i < events.len() ==> states[i + 1] == spec_install_next(
            states[i],
            #[trigger] events[i],
        )
    &&& forall|i: int|
        0 <= i < events.len() ==> spec_is_install_action(
            states[i],
            #[trigger] events[i],
            app_id,
            network_seed,
            actions[i],
        )
}

/// In a run in which the runtime never reports an empty list, the
/// installation has not gone beyond listing after any number of steps.
proof fn lemma_run_stays_before_key(
    states: Seq<InstallState>,
    events: Seq<InstallEvent>,
    actions: Seq<InstallAction>,
    app_id: Seq<char>,
    network_seed: Option<Seq<char>>,
    i: int,
)
    requires
        spec_is_install_run(states, events, actions, app_id, network_seed),
        forall|j: int| 0 <= j < events.len() ==> #[trigger] events[j] != InstallEvent::AppsListed(0),
        0 <= i <= events.len(),
    ensures
        states[i] == InstallState::Idle || states[i] == InstallState::Listing || states[i]
            == InstallState::Finished,
    decreases i,
{
    if i > 0 {
        lemma_run_stays_before_key(states, events, actions, app_id, network_seed, i - 1);
        let e = events[i - 1];
        assert(states[i - 1 + 1] == spec_install_next(states[i - 1], e));
    }
}

/// A whole run against a runtime that never reports an empty list of
/// installed applications asks for no key, no installation and no enabling:
/// running the installation again where an application is present changes
/// nothing.
pub proof fn lemma_run_on_installed_runtime_changes_nothing(
    states: Seq<InstallState>,
    events: Seq<InstallEvent>,
    actions: Seq<InstallAction>,
    app_id: Seq<char>,
    network_seed: Option<Seq<char>>,
)
    requires
        spec_is_install_run(states, events, actions, app_id, network_seed),
        forall|j: int| 0 <= j < events.len() ==> #[trigger] events[j] != InstallEvent::AppsListed(0),
    ensures
        forall|i: int| 0 <= i < actions.len() ==> !spec_changes_runtime(#[trigger] actions[i]),
{
    assert forall|i: int| 0 <= i < actions.len() implies !spec_changes_runtime(
        #[trigger] actions[i],
    ) by {
        lemma_run_stays_before_key(states, events, actions, app_id, network_seed, i);
        let e = events[i];
        assert(spec_is_install_action(states[i], e, app_id, network_seed, actions[i]));
    }
}

impl InstallError {
    /// The text shown to the operator.
    pub open spec fn spec_message(self) -> Seq<char> {
        match self {
            InstallError::ListApps(cause) => "Could not connect to admin ws: "@ + cause@,
            InstallError::GenerateKey(cause) => "Could not generate pub key: "@ + cause@,
            InstallError::Install(cause) => "Could not install app: "@ + cause@,
            InstallError::Enable(cause) => "Could not enable app: "@ + cause@,
            InstallError::Unexpected => "A reply came that was not asked for"@,
        }
    }

    /// The text shown to the operator.
    pub fn message(&self) -> (text: String)
        ensures
            text@ == self.spec_message(),
    {
        match self {
            InstallError::ListApps(cause) => join("Could not connect to admin ws: ", cause.as_str()),
            InstallError::GenerateKey(cause) => join("Could not generate pub key: ", cause.as_str()),
            InstallError::Install(cause) => join("Could not install app: ", cause.as_str()),
            InstallError::Enable(cause) => join("Could not enable app: ", cause.as_str()),
            InstallError::Unexpected => "A reply came that was not asked for".to_owned(),
        }
    }
}

} // verus!
