use provider_runner::authorize::{
    AppWebsocketAuth, AttachAppInterface, AuthAction, AuthError, IssueAppAuthToken,
};
use provider_runner::bridge::{
    event_after_authorization, event_after_install, event_after_registration, run, websocket_url,
    BridgeAction, BridgeError, BridgeEvent, BridgeState, PROVIDER_APP_ID,
};
use provider_runner::config::AllowedOrigins;
use provider_runner::install::{AppInfo, InstallAction, InstallError};
use provider_runner::register::{RegisterAction, RegisterError};
use provider_runner::credentials::EmailCredentials;
use provider_runner::register::{select_mode, Mode};
use provider_runner::text::{join, decimal};

fn grant() -> AppWebsocketAuth {
    AppWebsocketAuth { app_websocket_port: 40123, token: vec![9, 8, 7] }
}

fn register_mode() -> Mode {
    select_mode(Some(EmailCredentials::new(
        String::from("a@x.com"),
        String::from("p"),
        String::from("smtp://r"),
    )))
}

#[test]
fn decimal_writes_ports() {
    assert_eq!(decimal(0), "0");
    assert_eq!(decimal(7), "7");
    assert_eq!(decimal(10), "10");
    assert_eq!(decimal(8080), "8080");
    assert_eq!(decimal(12345), "12345");
    assert_eq!(decimal(65535), "65535");
    assert_eq!(join("ab", "cd"), "abcd");
    assert_eq!(join("", ""), "");
}

#[test]
fn websocket_url_names_localhost_and_port() {
    assert_eq!(websocket_url(8888), "ws://localhost:8888");
    assert_eq!(websocket_url(0), "ws://localhost:0");
    assert_eq!(websocket_url(65535), "ws://localhost:65535");
}

/// Drives the bridge through its setup and returns the state after the
/// client connection was asked for.
fn set_up(mode: &Mode, always_online: bool) -> BridgeState {
    let (state, action) = run(BridgeState::Idle, BridgeEvent::Start, mode);
    assert_eq!(state, BridgeState::Launching);
    assert!(matches!(action, BridgeAction::Launch { always_online: a } if a == always_online));
    let (state, action) = run(state, BridgeEvent::Launched(Some(4444)), mode);
    assert_eq!(state, BridgeState::ConnectingAdmin);
    assert!(matches!(action, BridgeAction::ConnectAdmin { ref url } if url == "ws://localhost:4444"));
    let (state, action) = run(state, BridgeEvent::AdminConnected, mode);
    assert_eq!(state, BridgeState::Authorizing);
    assert!(matches!(action, BridgeAction::Authorize { ref app_id } if app_id == PROVIDER_APP_ID));
    let (state, action) = run(state, BridgeEvent::Authorized(grant()), mode);
    assert_eq!(state, BridgeState::Installing { grant: grant() });
    assert!(matches!(
        action,
        BridgeAction::EnsureInstalled { ref app_id } if app_id == "email_notifications_provider"
    ));
    let (state, action) = run(state, BridgeEvent::InstallEnsured, mode);
    assert_eq!(state, BridgeState::ConnectingApp);
    match action {
        BridgeAction::ConnectApp { url, token } => {
            assert_eq!(url, "ws://localhost:40123");
            assert_eq!(token, vec![9, 8, 7]);
        }
        other => panic!("{:?}", other),
    }
    state
}

#[test]
fn listening_bridge_subscribes_and_waits_for_interrupt() {
    let mode = select_mode(None);
    let state = set_up(&mode, true);
    let (state, action) = run(state, BridgeEvent::AppConnected, &mode);
    assert_eq!(state, BridgeState::Subscribing);
    assert!(matches!(action, BridgeAction::Subscribe));
    let (state, action) = run(state, BridgeEvent::Subscribed, &mode);
    assert_eq!(state, BridgeState::Listening);
    assert!(matches!(action, BridgeAction::AwaitInterrupt));
    let (state, action) = run(state, BridgeEvent::Interrupted, &mode);
    assert_eq!(state, BridgeState::Finished);
    assert!(matches!(action, BridgeAction::Exit));
}

#[test]
fn registering_bridge_registers_and_exits() {
    let mode = register_mode();
    let state = set_up(&mode, false);
    let (state, action) = run(state, BridgeEvent::AppConnected, &mode);
    assert_eq!(state, BridgeState::Registering);
    assert!(matches!(action, BridgeAction::Register));
    let (state, action) = run(state, BridgeEvent::Registered, &mode);
    assert_eq!(state, BridgeState::Finished);
    assert!(matches!(action, BridgeAction::Exit));
}

#[test]
fn runtime_without_admin_port_ends_the_bridge() {
    let mode = select_mode(None);
    let (state, action) = run(BridgeState::Launching, BridgeEvent::Launched(None), &mode);
    assert_eq!(state, BridgeState::Finished);
    assert!(matches!(action, BridgeAction::Abort(BridgeError::NoAdminPort)));
    assert_eq!(BridgeError::NoAdminPort.message(), "Could not get admin port");
}

#[test]
fn any_failing_step_ends_the_bridge() {
    let mode = select_mode(None);
    let states = [
        BridgeState::Launching,
        BridgeState::ConnectingAdmin,
        BridgeState::Authorizing,
        BridgeState::Installing { grant: grant() },
        BridgeState::ConnectingApp,
        BridgeState::Registering,
        BridgeState::Subscribing,
        BridgeState::Listening,
    ];
    for state in states {
        let (next, action) = run(state, BridgeEvent::Failed(String::from("broken")), &mode);
        assert_eq!(next, BridgeState::Finished);
        match action {
            BridgeAction::Abort(e) => {
                assert!(matches!(e, BridgeError::Fatal(ref c) if c == "broken"));
                assert_eq!(e.message(), "broken");
            }
            other => panic!("{:?}", other),
        }
    }
}

#[test]
fn outcomes_out_of_turn_end_the_bridge() {
    let mode = select_mode(None);
    let (s, a) = run(BridgeState::Idle, BridgeEvent::Failed(String::from("x")), &mode);
    assert_eq!(s, BridgeState::Finished);
    assert!(matches!(a, BridgeAction::Abort(BridgeError::Unexpected)));
    let (s, a) = run(BridgeState::Finished, BridgeEvent::Start, &mode);
    assert_eq!(s, BridgeState::Finished);
    assert!(matches!(a, BridgeAction::Abort(BridgeError::Unexpected)));
    let (s, a) = run(BridgeState::Launching, BridgeEvent::Subscribed, &mode);
    assert_eq!(s, BridgeState::Finished);
    assert!(matches!(a, BridgeAction::Abort(BridgeError::Unexpected)));
    let (s, a) = run(BridgeState::Listening, BridgeEvent::Registered, &mode);
    assert_eq!(s, BridgeState::Finished);
    assert!(matches!(a, BridgeAction::Abort(BridgeError::Unexpected)));
    assert_eq!(BridgeError::Unexpected.message(), "A reply came that was not asked for");
}

#[test]
fn ended_authorization_tells_the_bridge_its_grant_or_failure() {
    let e = event_after_authorization(AuthAction::Grant(grant()));
    assert!(matches!(e, Some(BridgeEvent::Authorized(ref g)) if *g == grant()));
    let e = event_after_authorization(AuthAction::Abort(AuthError::Admin(String::from("closed"))));
    assert!(matches!(e, Some(BridgeEvent::Failed(ref c)) if c == "closed"));
    let e = event_after_authorization(AuthAction::Abort(AuthError::Unexpected));
    assert!(matches!(e, Some(BridgeEvent::Failed(ref c)) if c == "A reply came that was not asked for"));
    let attach = AttachAppInterface {
        port: 0,
        allowed_origins: AllowedOrigins::Any,
        installed_app_id: Some(String::from(PROVIDER_APP_ID)),
    };
    assert!(event_after_authorization(AuthAction::Attach(attach)).is_none());
    let issue = IssueAppAuthToken {
        installed_app_id: String::from(PROVIDER_APP_ID),
        expiry_seconds: 999999999,
        single_use: false,
    };
    assert!(event_after_authorization(AuthAction::Issue(issue)).is_none());
}

#[test]
fn ended_install_tells_the_bridge_that_the_app_is_there() {
    let info = AppInfo {
        installed_app_id: String::from(PROVIDER_APP_ID),
        agent_pub_key: vec![5],
        enabled: true,
    };
    assert!(matches!(
        event_after_install(InstallAction::Done(info)),
        Some(BridgeEvent::InstallEnsured)
    ));
    assert!(matches!(
        event_after_install(InstallAction::AlreadyInstalled),
        Some(BridgeEvent::InstallEnsured)
    ));
    let e = event_after_install(InstallAction::Abort(InstallError::Enable(String::from("no"))));
    assert!(matches!(e, Some(BridgeEvent::Failed(ref c)) if c == "Could not enable app: no"));
    assert!(event_after_install(InstallAction::ListApps).is_none());
    assert!(event_after_install(InstallAction::GenerateAgentKey).is_none());
    assert!(event_after_install(InstallAction::Enable(String::from(PROVIDER_APP_ID))).is_none());
}

#[test]
fn ended_registration_tells_the_bridge_success_or_failure() {
    assert!(matches!(
        event_after_registration(RegisterAction::ExitSuccess),
        Some(BridgeEvent::Registered)
    ));
    let e = event_after_registration(RegisterAction::Abort(RegisterError::NoPublishedCredentials));
    assert!(matches!(
        e,
        Some(BridgeEvent::Failed(ref c)) if c == "There are no published email credentials"
    ));
    let e = event_after_registration(RegisterAction::Abort(RegisterError::NotPropagated));
    assert!(matches!(
        e,
        Some(BridgeEvent::Failed(ref c))
            if c == "The published email credentials were not successfully gossiped: try again."
    ));
    assert!(event_after_registration(RegisterAction::Wait(3)).is_none());
}
