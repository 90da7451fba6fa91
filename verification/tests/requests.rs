use agent_status::auth::{auth_status, AuthInput, AuthReply, AuthStage, OBSERVATION_TIMEOUT_MS};
use agent_status::events::ExecutionResult;
use agent_status::login::{login, LoginReply, QrInput, QrStage};
use agent_status::logout::{
    decoded_or_none, logout, screenshot_bytes, LogoutInput, LogoutReply, LogoutStage,
};
use agent_status::observed::{IdentifiedState, IdentifiedStates};
use agent_status::session::{get_status, Session, StatusReply};
use agent_status::tree::A11yNode;

fn session(login_state: &str, user: Option<&str>) -> Session {
    Session {
        id: "s1".to_string(),
        login_state: login_state.to_string(),
        logged_in_user: user.map(|u| u.to_string()),
    }
}

fn label(name: &str) -> A11yNode {
    A11yNode { role: "label".to_string(), name: name.to_string(), children: None }
}

fn view(state_id: Option<&str>) -> IdentifiedStates {
    IdentifiedStates {
        main_window: state_id.map(|id| IdentifiedState { state_id: id.to_string() }),
    }
}

fn play_auth(inputs: Vec<AuthInput>) -> AuthStage {
    let mut stage = AuthStage::start();
    for input in inputs {
        stage = auth_status(stage, input);
    }
    stage
}

fn auth_reply(stage: AuthStage) -> AuthReply {
    match stage {
        AuthStage::Done { reply } => reply,
        _ => panic!("no reply yet"),
    }
}

fn play_logout(inputs: Vec<LogoutInput>) -> LogoutStage {
    let mut stage = LogoutStage::start();
    for input in inputs {
        stage = logout(stage, input);
    }
    stage
}

fn logout_reply(stage: LogoutStage) -> LogoutReply {
    match stage {
        LogoutStage::Done { reply } => reply,
        _ => panic!("no reply yet"),
    }
}

fn refused(error: &str) -> LogoutReply {
    LogoutReply { success: false, error: Some(error.to_string()) }
}

/// The inputs that bring a logout to look for the view `chat`, with the context given.
fn up_to_view(screenshot: Option<&str>, context: bool) -> Vec<LogoutInput> {
    vec![
        LogoutInput::Session(Some(session("logged_in", Some("me")))),
        LogoutInput::Tree(Ok(label("x"))),
        LogoutInput::Screenshot(screenshot.map(|s| s.to_string())),
        LogoutInput::Identified(view(Some("chat"))),
        LogoutInput::Context(context),
    ]
}

#[test]
fn status_follows_the_record_while_the_app_runs() {
    assert_eq!(
        get_status(Some(session("logged_in", Some("me"))), true, "1.2.3"),
        StatusReply {
            container: "running",
            login_state: "logged_in",
            logged_in_user: Some("me".to_string()),
            version: "1.2.3",
        }
    );
    let reply = get_status(Some(session("logging_in", Some("me"))), true, "1");
    assert_eq!(reply.login_state, "logged_out");
    assert_eq!(reply.logged_in_user, Some("me".to_string()));
}

#[test]
fn status_is_logged_out_without_app_or_session() {
    let reply = get_status(Some(session("logged_in", Some("me"))), false, "1");
    assert_eq!(reply.login_state, "logged_out");
    assert_eq!(reply.logged_in_user, None);
    let reply = get_status(None, true, "1");
    assert_eq!(reply.login_state, "logged_out");
    assert_eq!(reply.logged_in_user, None);
}

#[test]
fn auth_without_session_is_unknown_and_names_no_user() {
    assert!(matches!(AuthStage::start(), AuthStage::FindSession { name: "default" }));
    assert_eq!(
        auth_reply(play_auth(vec![AuthInput::Session(None)])),
        AuthReply { status: "unknown", logged_in_user: None }
    );
}

#[test]
fn auth_without_process_says_so() {
    let stage = play_auth(vec![
        AuthInput::Session(Some(session("logged_in", Some("me")))),
        AuthInput::Process(false),
    ]);
    assert_eq!(
        auth_reply(stage),
        AuthReply { status: "app_not_running", logged_in_user: Some(Some("me".to_string())) }
    );
}

#[test]
fn auth_without_tree_is_unknown() {
    let stage = play_auth(vec![
        AuthInput::Session(Some(session("logged_in", None))),
        AuthInput::Process(true),
        AuthInput::Tree(None),
    ]);
    assert_eq!(auth_reply(stage), AuthReply { status: "unknown", logged_in_user: Some(None) });
}

#[test]
fn auth_looks_for_half_a_minute_and_bears_a_failed_screenshot() {
    assert_eq!(OBSERVATION_TIMEOUT_MS, 30_000);
    let stage = play_auth(vec![
        AuthInput::Session(Some(session("logged_in", None))),
        AuthInput::Process(true),
    ]);
    assert!(matches!(stage, AuthStage::ReadTree { timeout_ms: 30_000, .. }));
    let stage = auth_status(stage, AuthInput::Tree(Some(label("x"))));
    let stage = auth_status(stage, AuthInput::Screenshot(None));
    match stage {
        AuthStage::Identify { screenshot, tree, .. } => {
            assert_eq!(screenshot, "");
            assert_eq!(tree, label("x"));
        }
        _ => panic!("nothing to identify"),
    }
}

#[test]
fn auth_reports_what_is_shown() {
    for (name, id, status) in [
        ("x", Some("chat"), "logged_in"),
        ("Entering", Some("chat"), "logged_out"),
        ("x", Some("login_qr"), "logged_out"),
        ("x", None, "unknown"),
    ] {
        let stage = play_auth(vec![
            AuthInput::Session(Some(session("logged_in", Some("me")))),
            AuthInput::Process(true),
            AuthInput::Tree(Some(label(name))),
            AuthInput::Screenshot(Some("shot".to_string())),
            AuthInput::Identified(view(id)),
        ]);
        assert_eq!(
            auth_reply(stage),
            AuthReply { status, logged_in_user: Some(Some("me".to_string())) }
        );
    }
}

#[test]
fn logout_needs_a_session_and_a_tree() {
    assert!(matches!(LogoutStage::start(), LogoutStage::FindSession { name: "default" }));
    assert_eq!(
        logout_reply(play_logout(vec![LogoutInput::Session(None)])),
        refused("No session available")
    );
    let stage = play_logout(vec![
        LogoutInput::Session(Some(session("logged_in", None))),
        LogoutInput::Tree(Err("no bus".to_string())),
    ]);
    assert_eq!(logout_reply(stage), refused("Failed to get a11y tree: no bus"));
}

#[test]
fn logout_goes_by_the_context_where_no_view_is_recognised() {
    for (context, runs) in [(true, true), (false, false)] {
        let stage = play_logout(vec![
            LogoutInput::Session(Some(session("logged_in", None))),
            LogoutInput::Tree(Ok(label("x"))),
            LogoutInput::Screenshot(None),
            LogoutInput::Identified(view(None)),
            LogoutInput::Context(context),
        ]);
        if runs {
            assert!(matches!(stage, LogoutStage::Execute { .. }));
        } else {
            assert_eq!(logout_reply(stage), refused("Not logged in"));
        }
    }
}

#[test]
fn logout_goes_by_the_context_where_the_view_is_not_known() {
    let mut stage = play_logout(up_to_view(None, false));
    match &stage {
        LogoutStage::FindState { state_id, .. } => assert_eq!(state_id, "chat"),
        _ => panic!("no view looked for"),
    }
    stage = logout(stage, LogoutInput::State(false));
    assert_eq!(logout_reply(stage), refused("Not logged in"));
}

#[test]
fn logout_lets_a_known_view_decide() {
    let stage = logout(play_logout(up_to_view(Some("aGVsbG8="), true)), LogoutInput::State(true));
    match &stage {
        LogoutStage::Reduce { screenshot_bytes, tree, state_id, .. } => {
            assert_eq!(state_id, "chat");
            assert_eq!(screenshot_bytes.as_slice(), b"hello");
            assert_eq!(tree, &label("x"));
        }
        _ => panic!("nothing to reduce"),
    }
    assert_eq!(
        logout_reply(logout(stage, LogoutInput::Reduced(false))),
        refused("Not logged in")
    );
}

#[test]
fn screenshots_that_are_not_base64_have_no_bytes() {
    assert_eq!(screenshot_bytes("aGVsbG8="), b"hello".to_vec());
    assert_eq!(screenshot_bytes(""), Vec::<u8>::new());
    assert_eq!(screenshot_bytes("aGVsbG8"), Vec::<u8>::new());
    assert_eq!(screenshot_bytes("not base64!"), Vec::<u8>::new());
    assert_eq!(decoded_or_none(Some(vec![1, 2])), vec![1, 2]);
    assert_eq!(decoded_or_none(None), Vec::<u8>::new());
}

#[test]
fn logout_clears_the_user_only_after_success() {
    let executing = || {
        let stage = logout(play_logout(up_to_view(None, false)), LogoutInput::State(true));
        logout(stage, LogoutInput::Reduced(true))
    };
    let stage = logout(
        executing(),
        LogoutInput::Executed(ExecutionResult { success: true, error: None }),
    );
    match &stage {
        LogoutStage::ClearUser { session_id, .. } => assert_eq!(session_id, "s1"),
        _ => panic!("user not cleared"),
    }
    assert_eq!(
        logout_reply(logout(stage, LogoutInput::Cleared)),
        LogoutReply { success: true, error: None }
    );
    let stage = logout(
        executing(),
        LogoutInput::Executed(ExecutionResult {
            success: false,
            error: Some("stuck".to_string()),
        }),
    );
    assert_eq!(logout_reply(stage), refused("stuck"));
}

#[test]
fn login_without_screenshot_is_logged_out() {
    let stage = login(QrStage::start(), QrInput::Screenshot(None));
    match stage {
        QrStage::Done { reply } => assert_eq!(
            reply,
            LoginReply { success: false, status: "logged_out", qr_data_url: None }
        ),
        _ => panic!("no reply yet"),
    }
}

#[test]
fn login_shows_the_code_on_the_screen() {
    let reading = || login(QrStage::start(), QrInput::Screenshot(Some("shot".to_string())));
    match login(reading(), QrInput::Read(None)) {
        QrStage::Done { reply } => assert_eq!(
            reply,
            LoginReply { success: false, status: "qr_pending", qr_data_url: None }
        ),
        _ => panic!("no reply yet"),
    }
    for url in [Some("data:x".to_string()), None] {
        let stage = login(reading(), QrInput::Read(Some("weixin://x".to_string())));
        match &stage {
            QrStage::MakeCode { code } => assert_eq!(code, "weixin://x"),
            _ => panic!("no code asked for"),
        }
        match login(stage, QrInput::Made(url.clone())) {
            QrStage::Done { reply } => assert_eq!(
                reply,
                LoginReply { success: false, status: "qr_pending", qr_data_url: Some(url) }
            ),
            _ => panic!("no reply yet"),
        }
    }
}
