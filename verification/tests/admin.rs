use provider_runner::authorize::{
    authorize_app, AuthAction, AuthError, AuthEvent, AuthState, TOKEN_EXPIRY_SECONDS,
};
use provider_runner::config::AllowedOrigins;
use provider_runner::install::{
    install_app, AppInfo, InstallAction, InstallError, InstallEvent, InstallState,
};

const APP: &str = "email_notifications_provider";

fn record(enabled: bool) -> AppInfo {
    AppInfo { installed_app_id: String::from(APP), agent_pub_key: vec![7, 7], enabled }
}

#[test]
fn authorization_attaches_then_issues_then_grants() {
    let (state, action) = authorize_app(AuthState::Idle, AuthEvent::Start, APP);
    assert_eq!(state, AuthState::Attaching);
    match action {
        AuthAction::Attach(request) => {
            assert_eq!(request.port, 0);
            assert_eq!(request.allowed_origins, AllowedOrigins::Any);
            assert_eq!(request.installed_app_id.as_deref(), Some(APP));
        }
        other => panic!("{:?}", other),
    }
    let (state, action) = authorize_app(state, AuthEvent::InterfaceAttached(5150), APP);
    assert_eq!(state, AuthState::Issuing { port: 5150 });
    match action {
        AuthAction::Issue(request) => {
            assert_eq!(request.installed_app_id, APP);
            assert_eq!(request.expiry_seconds, 999999999);
            assert_eq!(request.expiry_seconds, TOKEN_EXPIRY_SECONDS);
            assert!(!request.single_use);
        }
        other => panic!("{:?}", other),
    }
    let (state, action) = authorize_app(state, AuthEvent::TokenIssued(vec![1, 2, 3]), APP);
    assert_eq!(state, AuthState::Finished);
    match action {
        AuthAction::Grant(grant) => {
            assert_eq!(grant.app_websocket_port, 5150);
            assert_eq!(grant.token, vec![1, 2, 3]);
            let copy = grant.clone();
            assert_eq!(copy.app_websocket_port, 5150);
            assert_eq!(copy.token, vec![1, 2, 3]);
        }
        other => panic!("{:?}", other),
    }
}

#[test]
fn authorization_aborts_on_admin_failure() {
    let (state, action) =
        authorize_app(AuthState::Attaching, AuthEvent::Failed(String::from("closed")), APP);
    assert_eq!(state, AuthState::Finished);
    assert!(matches!(action, AuthAction::Abort(AuthError::Admin(ref c)) if c == "closed"));
    let (state, action) = authorize_app(
        AuthState::Issuing { port: 9 },
        AuthEvent::Failed(String::from("denied")),
        APP,
    );
    assert_eq!(state, AuthState::Finished);
    assert!(matches!(action, AuthAction::Abort(AuthError::Admin(ref c)) if c == "denied"));
}

#[test]
fn authorization_rejects_replies_out_of_turn() {
    let (state, action) = authorize_app(AuthState::Idle, AuthEvent::TokenIssued(vec![1]), APP);
    assert_eq!(state, AuthState::Finished);
    assert!(matches!(action, AuthAction::Abort(AuthError::Unexpected)));
    let (state, action) = authorize_app(AuthState::Finished, AuthEvent::Start, APP);
    assert_eq!(state, AuthState::Finished);
    assert!(matches!(action, AuthAction::Abort(AuthError::Unexpected)));
    let (_, action) = authorize_app(AuthState::Idle, AuthEvent::Failed(String::from("x")), APP);
    assert!(matches!(action, AuthAction::Abort(AuthError::Unexpected)));
}

/// A runtime that answers each administrative call and counts them.
struct StubRuntime {
    apps: usize,
    generated: usize,
    installed: usize,
    enabled: usize,
}

fn ensure_installed(runtime: &mut StubRuntime, seed: &Option<String>) -> InstallAction {
    let (mut state, mut action) = install_app(InstallState::Idle, InstallEvent::Start, APP, seed);
    loop {
        let event = match action {
            InstallAction::ListApps => InstallEvent::AppsListed(runtime.apps),
            InstallAction::GenerateAgentKey => {
                runtime.generated += 1;
                InstallEvent::KeyGenerated(vec![7, 7])
            }
            InstallAction::Install(ref payload) => {
                assert_eq!(payload.agent_key, vec![7, 7]);
                assert!(payload.membrane_proofs.is_empty());
                assert_eq!(payload.network_seed, *seed);
                assert_eq!(payload.installed_app_id.as_deref(), Some(APP));
                runtime.installed += 1;
                runtime.apps += 1;
                InstallEvent::Installed(record(false))
            }
            InstallAction::Enable(ref id) => {
                assert_eq!(id, APP);
                runtime.enabled += 1;
                InstallEvent::Enabled(record(true))
            }
            done => {
                assert_eq!(state, InstallState::Finished);
                return done;
            }
        };
        let next = install_app(state, event, APP, seed);
        state = next.0;
        action = next.1;
    }
}

#[test]
fn fresh_runtime_gets_key_install_and_enable() {
    let mut runtime = StubRuntime { apps: 0, generated: 0, installed: 0, enabled: 0 };
    let seed = Some(String::from("seed"));
    let end = ensure_installed(&mut runtime, &seed);
    match end {
        InstallAction::Done(info) => assert_eq!(info, record(true)),
        other => panic!("{:?}", other),
    }
    assert_eq!(runtime.generated, 1);
    assert_eq!(runtime.installed, 1);
    assert_eq!(runtime.enabled, 1);
    assert_eq!(runtime.apps, 1);
}

#[test]
fn second_run_makes_no_install_or_enable_call() {
    let mut runtime = StubRuntime { apps: 0, generated: 0, installed: 0, enabled: 0 };
    let seed = Some(String::from("seed"));
    ensure_installed(&mut runtime, &seed);
    let end = ensure_installed(&mut runtime, &seed);
    assert!(matches!(end, InstallAction::AlreadyInstalled));
    let end = ensure_installed(&mut runtime, &seed);
    assert!(matches!(end, InstallAction::AlreadyInstalled));
    assert_eq!(runtime.generated, 1);
    assert_eq!(runtime.installed, 1);
    assert_eq!(runtime.enabled, 1);
    assert_eq!(runtime.apps, 1);
}

#[test]
fn any_installed_app_suppresses_install() {
    let (state, action) =
        install_app(InstallState::Listing, InstallEvent::AppsListed(5), APP, &None);
    assert_eq!(state, InstallState::Finished);
    assert!(matches!(action, InstallAction::AlreadyInstalled));
}

#[test]
fn install_without_seed_carries_none() {
    let (state, action) =
        install_app(InstallState::GeneratingKey, InstallEvent::KeyGenerated(vec![1]), APP, &None);
    assert_eq!(state, InstallState::Installing);
    match action {
        InstallAction::Install(payload) => {
            assert_eq!(payload.network_seed, None);
            assert_eq!(payload.agent_key, vec![1]);
        }
        other => panic!("{:?}", other),
    }
}

#[test]
fn each_failing_step_has_its_own_error() {
    let fail = || InstallEvent::Failed(String::from("boom"));
    let (s, a) = install_app(InstallState::Listing, fail(), APP, &None);
    assert_eq!(s, InstallState::Finished);
    assert!(matches!(a, InstallAction::Abort(InstallError::ListApps(ref c)) if c == "boom"));
    let (s, a) = install_app(InstallState::GeneratingKey, fail(), APP, &None);
    assert_eq!(s, InstallState::Finished);
    assert!(matches!(a, InstallAction::Abort(InstallError::GenerateKey(ref c)) if c == "boom"));
    let (s, a) = install_app(InstallState::Installing, fail(), APP, &None);
    assert_eq!(s, InstallState::Finished);
    assert!(matches!(a, InstallAction::Abort(InstallError::Install(ref c)) if c == "boom"));
    let (s, a) = install_app(InstallState::Enabling, fail(), APP, &None);
    assert_eq!(s, InstallState::Finished);
    assert!(matches!(a, InstallAction::Abort(InstallError::Enable(ref c)) if c == "boom"));
}

#[test]
fn install_rejects_replies_out_of_turn() {
    let (s, a) = install_app(InstallState::Idle, InstallEvent::Enabled(record(true)), APP, &None);
    assert_eq!(s, InstallState::Finished);
    assert!(matches!(a, InstallAction::Abort(InstallError::Unexpected)));
    let (s, a) = install_app(InstallState::Finished, InstallEvent::Start, APP, &None);
    assert_eq!(s, InstallState::Finished);
    assert!(matches!(a, InstallAction::Abort(InstallError::Unexpected)));
}

#[test]
fn admin_error_texts_name_the_step() {
    assert_eq!(AuthError::Admin(String::from("closed")).message(), "closed");
    assert_eq!(AuthError::Unexpected.message(), "A reply came that was not asked for");
    assert_eq!(
        InstallError::ListApps(String::from("e")).message(),
        "Could not connect to admin ws: e"
    );
    assert_eq!(
        InstallError::GenerateKey(String::from("e")).message(),
        "Could not generate pub key: e"
    );
    assert_eq!(InstallError::Install(String::from("e")).message(), "Could not install app: e");
    assert_eq!(InstallError::Enable(String::from("e")).message(), "Could not enable app: e");
    assert_eq!(InstallError::Unexpected.message(), "A reply came that was not asked for");
}

#[test]
fn finished_install_hands_back_what_enabling_returned() {
    let (s, a) =
        install_app(InstallState::Installing, InstallEvent::Installed(record(false)), APP, &None);
    assert_eq!(s, InstallState::Enabling);
    assert!(matches!(a, InstallAction::Enable(ref id) if id == APP));
    let enabled = AppInfo {
        installed_app_id: String::from(APP),
        agent_pub_key: vec![1, 2, 3, 4],
        enabled: true,
    };
    let (s, a) = install_app(s, InstallEvent::Enabled(enabled.clone()), APP, &None);
    assert_eq!(s, InstallState::Finished);
    match a {
        InstallAction::Done(info) => {
            assert_eq!(info, enabled);
            assert_ne!(info, record(false));
        }
        other => panic!("{:?}", other),
    }
    let (s, a) =
        install_app(InstallState::Enabling, InstallEvent::Installed(record(false)), APP, &None);
    assert_eq!(s, InstallState::Finished);
    assert!(matches!(a, InstallAction::Abort(InstallError::Unexpected)));
}
