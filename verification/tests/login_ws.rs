use agent_status::events::{ExecutionResult, LoginSubscriptionEvent, SubscriptionEvent};
use agent_status::slot::LoginSlot;
use agent_status::login_ws::{
    default_timeout, handle_login_ws, login_ws, LoginInput, LoginStage, LoginWsParams,
};
use agent_status::session::Session;
use serde_json::Value;

const PARAMS: LoginWsParams = LoginWsParams { timeout_ms: 1_000, new_account: true };

fn session() -> Session {
    Session { id: "s1".to_string(), login_state: "logged_out".to_string(), logged_in_user: None }
}

fn report(event_type: &str, key: &str, value: &str) -> SubscriptionEvent {
    let mut map = serde_json::Map::new();
    map.insert(key.to_string(), Value::String(value.to_string()));
    SubscriptionEvent { event_type: event_type.to_string(), data: Value::Object(map) }
}

fn status(message: &str) -> LoginSubscriptionEvent {
    LoginSubscriptionEvent::Status { message: message.to_string() }
}

fn error(message: &str) -> LoginSubscriptionEvent {
    LoginSubscriptionEvent::Error { message: message.to_string() }
}

fn finished(success: bool, error: Option<&str>) -> LoginInput {
    LoginInput::Finished(Some(ExecutionResult { success, error: error.map(|e| e.to_string()) }))
}

/// Feeds the inputs to a new flow. Returns the last stage, the events that were sent, and whether
/// the execution was cancelled.
fn play(inputs: Vec<LoginInput>) -> (LoginStage, Vec<LoginSubscriptionEvent>, bool) {
    let mut stage = login_ws(PARAMS);
    let mut told = Vec::new();
    let mut cancelled = false;
    for input in inputs {
        if let Some(event) = copy_of_event(&stage) {
            told.push(event);
        }
        stage = handle_login_ws(stage, input);
        match &stage {
            LoginStage::TellTimeout { .. } => cancelled = true,
            LoginStage::Join { cancel, .. } => cancelled = cancelled || *cancel,
            _ => {}
        }
    }
    (stage, told, cancelled)
}

fn copy_of_event(stage: &LoginStage) -> Option<LoginSubscriptionEvent> {
    let event = match stage {
        LoginStage::Refuse { event } => event,
        LoginStage::Dismiss { event } => event,
        LoginStage::Greet { event, .. } => event,
        LoginStage::Forward { event, .. } => event,
        LoginStage::TellTimeout { event, .. } => event,
        LoginStage::Conclude { event } => event,
        _ => return None,
    };
    Some(match event {
        LoginSubscriptionEvent::Status { message } => status(message),
        LoginSubscriptionEvent::Error { message } => error(message),
        LoginSubscriptionEvent::LoginTimeout => LoginSubscriptionEvent::LoginTimeout,
        LoginSubscriptionEvent::LoginSuccess { user_id } => {
            LoginSubscriptionEvent::LoginSuccess { user_id: user_id.clone() }
        }
        LoginSubscriptionEvent::PhoneConfirm { message } => {
            LoginSubscriptionEvent::PhoneConfirm { message: message.clone() }
        }
        LoginSubscriptionEvent::Qr { qr_data, qr_binary_data, qr_data_url } => {
            LoginSubscriptionEvent::Qr {
                qr_data: qr_data.clone(),
                qr_binary_data: qr_binary_data.clone(),
                qr_data_url: qr_data_url.clone(),
            }
        }
    })
}

/// The inputs that bring a flow to listen.
fn opening() -> Vec<LoginInput> {
    vec![
        LoginInput::Entered(true),
        LoginInput::Session(Some(session())),
        LoginInput::Sent(true),
        LoginInput::Launched,
    ]
}

fn play_on(rest: Vec<LoginInput>) -> (LoginStage, Vec<LoginSubscriptionEvent>, bool) {
    let mut inputs = opening();
    inputs.extend(rest);
    play(inputs)
}

fn hello() -> LoginSubscriptionEvent {
    status("Navigating login flow...")
}

#[test]
fn login_websocket_lock_allows_only_one_active_session() {
    let slot = LoginSlot::new();
    let (stage, first) = slot.enter(login_ws(PARAMS));
    assert!(first.is_some(), "first login session should acquire the lock");
    assert!(matches!(stage, LoginStage::FindSession { name: "default", .. }));

    let (stage, second) = slot.enter(login_ws(PARAMS));
    assert!(second.is_none(), "a concurrent login session must be rejected");
    assert!(matches!(stage, LoginStage::Refuse { .. }));

    drop(first);

    assert!(
        slot.enter(login_ws(PARAMS)).1.is_some(),
        "the lock must be released after the active login session ends"
    );
}

#[test]
fn query_defaults() {
    assert_eq!(default_timeout(), 300_000);
    assert_eq!(
        LoginWsParams::from_query(None, None),
        LoginWsParams { timeout_ms: 300_000, new_account: false }
    );
    assert_eq!(
        LoginWsParams::from_query(Some(5), Some(true)),
        LoginWsParams { timeout_ms: 5, new_account: true }
    );
}

#[test]
fn refused_connection_gets_one_error() {
    for sent in [true, false] {
        let (stage, told, _) = play(vec![LoginInput::Entered(false), LoginInput::Sent(sent)]);
        assert!(matches!(stage, LoginStage::Closed));
        assert_eq!(
            told,
            vec![error("A login session is already in progress; reuse the active QR code")]
        );
    }
}

#[test]
fn connection_without_session_gets_one_error() {
    let (stage, told, _) = play(vec![
        LoginInput::Entered(true),
        LoginInput::Session(None),
        LoginInput::Sent(true),
    ]);
    assert!(matches!(stage, LoginStage::Closed));
    assert_eq!(told, vec![error("No session available")]);
}

#[test]
fn failed_greeting_starts_nothing() {
    let (stage, told, cancelled) = play(vec![
        LoginInput::Entered(true),
        LoginInput::Session(Some(session())),
        LoginInput::Sent(false),
    ]);
    assert!(matches!(stage, LoginStage::Closed));
    assert_eq!(told, vec![hello()]);
    assert!(!cancelled);
}

#[test]
fn launch_has_the_session_and_the_parameters() {
    let (stage, _, _) = play(vec![
        LoginInput::Entered(true),
        LoginInput::Session(Some(session())),
        LoginInput::Sent(true),
    ]);
    match stage {
        LoginStage::Launch { params, session: found } => {
            assert_eq!(params, PARAMS);
            assert_eq!(found, session());
        }
        _ => panic!("not launching"),
    }
}

#[test]
fn reports_are_told_in_order_and_settle_the_login() {
    let (stage, told, cancelled) = play_on(vec![
        LoginInput::Plan(Some(report("status", "message", "Opening"))),
        LoginInput::Sent(true),
        LoginInput::Plan(Some(report("qr", "qrData", "weixin://x"))),
        LoginInput::Code(Some("data:x".to_string())),
        LoginInput::Sent(true),
        LoginInput::Client(true),
        LoginInput::Plan(Some(report("login_success", "userId", "me"))),
        LoginInput::Sent(true),
        LoginInput::Plan(None),
        finished(true, None),
    ]);
    assert!(matches!(stage, LoginStage::Closed));
    assert_eq!(
        told,
        vec![
            hello(),
            status("Opening"),
            LoginSubscriptionEvent::Qr {
                qr_data: "weixin://x".to_string(),
                qr_binary_data: None,
                qr_data_url: Some("data:x".to_string()),
            },
            LoginSubscriptionEvent::LoginSuccess { user_id: Some("me".to_string()) },
        ]
    );
    assert!(!cancelled);
}

#[test]
fn qr_report_asks_for_its_code() {
    let (stage, _, _) =
        play_on(vec![LoginInput::Plan(Some(report("qr", "qrData", "weixin://x")))]);
    match stage {
        LoginStage::MakeCode { code, .. } => assert_eq!(code, "weixin://x"),
        _ => panic!("no code asked for"),
    }
}

#[test]
fn unsettled_login_is_concluded_once() {
    let (stage, told, cancelled) = play_on(vec![
        LoginInput::Plan(None),
        finished(false, Some("no window")),
        LoginInput::Sent(true),
    ]);
    assert!(matches!(stage, LoginStage::Closed));
    assert_eq!(told, vec![hello(), error("no window")]);
    assert!(!cancelled);

    let (_, told, _) = play_on(vec![
        LoginInput::Plan(None),
        LoginInput::Finished(None),
        LoginInput::Sent(false),
    ]);
    assert_eq!(told, vec![hello(), error("Login execution task failed")]);
}

#[test]
fn settled_login_is_not_concluded() {
    let (stage, told, _) = play_on(vec![
        LoginInput::Plan(Some(report("error", "message", "bad"))),
        LoginInput::Sent(true),
        LoginInput::Plan(None),
        finished(false, Some("worse")),
    ]);
    assert!(matches!(stage, LoginStage::Closed));
    assert_eq!(told, vec![hello(), error("bad")]);
}

#[test]
fn timeout_is_told_and_cancels() {
    for sent in [true, false] {
        let (stage, told, cancelled) = play_on(vec![
            LoginInput::Timeout,
            LoginInput::Sent(sent),
            finished(false, Some("Aborted")),
        ]);
        assert!(matches!(stage, LoginStage::Closed));
        assert_eq!(told, vec![hello(), LoginSubscriptionEvent::LoginTimeout]);
        assert!(cancelled);
    }
}

#[test]
fn lost_client_cancels_and_is_told_nothing() {
    let (stage, told, cancelled) =
        play_on(vec![LoginInput::Client(false), finished(true, None)]);
    assert!(matches!(stage, LoginStage::Closed));
    assert_eq!(told, vec![hello()]);
    assert!(cancelled);
}

#[test]
fn failed_send_cancels_and_is_told_nothing_more() {
    let (stage, told, cancelled) = play_on(vec![
        LoginInput::Plan(Some(report("status", "message", "Opening"))),
        LoginInput::Sent(false),
        finished(false, Some("Aborted")),
    ]);
    assert!(matches!(stage, LoginStage::Closed));
    assert_eq!(told, vec![hello(), status("Opening")]);
    assert!(cancelled);
}

#[test]
fn slot_is_kept_until_the_execution_is_joined() {
    let slot = LoginSlot::new();
    let (mut stage, pass) = slot.enter(login_ws(PARAMS));
    let inputs = vec![
        LoginInput::Session(Some(session())),
        LoginInput::Sent(true),
        LoginInput::Launched,
        LoginInput::Client(false),
    ];
    for input in inputs {
        stage = handle_login_ws(stage, input);
        assert!(!matches!(stage, LoginStage::Closed));
        assert!(slot.enter(login_ws(PARAMS)).1.is_none());
    }
    stage = handle_login_ws(stage, finished(false, None));
    assert!(matches!(stage, LoginStage::Closed));
    drop(pass);
    assert!(slot.enter(login_ws(PARAMS)).1.is_some());
}
