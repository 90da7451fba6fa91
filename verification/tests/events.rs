use agent_status::events::{
    event_text, fallback_event, is_terminal_login_event, login_event, qr_text,
    subscription_event_to_login_event, ExecutionResult, LoginSubscriptionEvent, SubscriptionEvent,
};
use serde_json::Value;

fn object(members: Vec<(&str, Value)>) -> Value {
    let mut map = serde_json::Map::new();
    for (key, value) in members {
        map.insert(key.to_string(), value);
    }
    Value::Object(map)
}

fn text(s: &str) -> Value {
    Value::String(s.to_string())
}

fn event(event_type: &str, data: Value) -> SubscriptionEvent {
    SubscriptionEvent { event_type: event_type.to_string(), data }
}

fn result(success: bool, error: Option<&str>) -> Option<ExecutionResult> {
    Some(ExecutionResult { success, error: error.map(|e| e.to_string()) })
}

fn error(message: &str) -> LoginSubscriptionEvent {
    LoginSubscriptionEvent::Error { message: message.to_string() }
}

#[test]
fn each_event_type_reads_its_own_member() {
    let all = || {
        object(vec![
            ("message", text("hello")),
            ("qrData", text("weixin://code")),
            ("userId", text("wxid_1")),
        ])
    };
    assert_eq!(
        subscription_event_to_login_event(event("status", all()), None),
        LoginSubscriptionEvent::Status { message: "hello".to_string() }
    );
    assert_eq!(
        subscription_event_to_login_event(event("qr", all()), Some("data:image".to_string())),
        LoginSubscriptionEvent::Qr {
            qr_data: "weixin://code".to_string(),
            qr_binary_data: None,
            qr_data_url: Some("data:image".to_string()),
        }
    );
    assert_eq!(
        subscription_event_to_login_event(event("phone_confirm", all()), None),
        LoginSubscriptionEvent::PhoneConfirm { message: Some("hello".to_string()) }
    );
    assert_eq!(
        subscription_event_to_login_event(event("login_success", all()), None),
        LoginSubscriptionEvent::LoginSuccess { user_id: Some("wxid_1".to_string()) }
    );
    assert_eq!(
        subscription_event_to_login_event(event("login_timeout", all()), None),
        LoginSubscriptionEvent::LoginTimeout
    );
    assert_eq!(subscription_event_to_login_event(event("error", all()), None), error("hello"));
}

#[test]
fn missing_members_fall_back() {
    assert_eq!(
        subscription_event_to_login_event(event("status", Value::Null), None),
        LoginSubscriptionEvent::Status { message: "".to_string() }
    );
    assert_eq!(
        subscription_event_to_login_event(event("qr", object(vec![])), None),
        LoginSubscriptionEvent::Qr {
            qr_data: "".to_string(),
            qr_binary_data: None,
            qr_data_url: None,
        }
    );
    assert_eq!(
        subscription_event_to_login_event(event("phone_confirm", object(vec![])), None),
        LoginSubscriptionEvent::PhoneConfirm { message: None }
    );
    assert_eq!(
        subscription_event_to_login_event(event("login_success", object(vec![])), None),
        LoginSubscriptionEvent::LoginSuccess { user_id: None }
    );
    assert_eq!(
        subscription_event_to_login_event(event("error", object(vec![])), None),
        error("Unknown error")
    );
}

#[test]
fn members_that_are_no_strings_count_as_missing() {
    let number = object(vec![("message", Value::from(7))]);
    assert_eq!(
        subscription_event_to_login_event(event("error", number), None),
        error("Unknown error")
    );
    let array = Value::Array(vec![text("message")]);
    assert_eq!(event_text(&event("status", array)), None);
    assert_eq!(event_text(&event("status", text("message"))), None);
}

#[test]
fn unknown_types_are_told_by_name() {
    assert_eq!(
        subscription_event_to_login_event(event("dance", Value::Null), None),
        LoginSubscriptionEvent::Status { message: "Unknown event: dance".to_string() }
    );
    assert_eq!(
        login_event("", None, None),
        LoginSubscriptionEvent::Status { message: "Unknown event: ".to_string() }
    );
}

#[test]
fn only_qr_events_have_a_code() {
    let qr = event("qr", object(vec![("qrData", text("abc"))]));
    assert_eq!(qr_text("qr", &event_text(&qr)), Some("abc".to_string()));
    assert_eq!(qr_text("qr", &None), Some("".to_string()));
    assert_eq!(qr_text("status", &Some("abc".to_string())), None);
}

#[test]
fn terminal_events_are_three() {
    assert!(is_terminal_login_event(&login_event("login_success", None, None)));
    assert!(is_terminal_login_event(&login_event("login_timeout", None, None)));
    assert!(is_terminal_login_event(&login_event("error", None, None)));
    assert!(!is_terminal_login_event(&login_event("status", None, None)));
    assert!(!is_terminal_login_event(&login_event("qr", None, None)));
    assert!(!is_terminal_login_event(&login_event("phone_confirm", None, None)));
    assert!(!is_terminal_login_event(&login_event("other", None, None)));
}

#[test]
fn fallback_follows_the_execution() {
    assert_eq!(
        fallback_event(result(true, Some("ignored")), false),
        LoginSubscriptionEvent::LoginSuccess { user_id: None }
    );
    assert_eq!(fallback_event(result(false, None), false), error("Login failed"));
    assert_eq!(fallback_event(result(false, Some("boom")), false), error("boom"));
    assert_eq!(fallback_event(None, false), error("Login execution task failed"));
}

#[test]
fn fallback_tells_some_errors_as_timeouts() {
    let timeout = LoginSubscriptionEvent::LoginTimeout;
    assert_eq!(fallback_event(result(false, Some("Unknown state for 30s")), false), timeout);
    assert_eq!(fallback_event(result(false, Some("Execution timeout after 5s")), false), timeout);
    assert_eq!(fallback_event(result(false, Some("Aborted")), true), timeout);
    assert_eq!(fallback_event(result(false, Some("Aborted")), false), error("Aborted"));
    assert_eq!(fallback_event(result(false, Some("Aborted!")), true), error("Aborted!"));
    assert_eq!(
        fallback_event(result(false, Some("An Unknown state for 30s")), false),
        error("An Unknown state for 30s")
    );
    assert_eq!(fallback_event(result(false, Some("Unknown state")), false), error("Unknown state"));
}
