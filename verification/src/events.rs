//! Events of a login: what the plans report, and what the client is told.

use vstd::prelude::*;
use vstd::string::StringExecFns;

use crate::outside::{text_member, text_members};
use crate::text::{begins_with, optional_text, same_text, stands_at};

verus! {

/// An event as a plan reports it: its type, and a JSON object with the particulars.
#[derive(Debug)]
pub struct SubscriptionEvent {
    pub event_type: String,
    pub data: serde_json::Value,
}

/// An event as the client of a login is told it.
#[derive(Debug, PartialEq, Eq)]
#[allow(inconsistent_fields)]
pub enum LoginSubscriptionEvent {
    Status { message: String },
    Qr { qr_data: String, qr_binary_data: Option<Vec<u8>>, qr_data_url: Option<String> },
    PhoneConfirm { message: Option<String> },
    LoginSuccess { user_id: Option<String> },
    LoginTimeout,
    Error { message: String },
}

/// What an event for the client says.
#[allow(inconsistent_fields)]
pub enum LoginEventView {
    Status { message: Seq<char> },
    Qr { qr_data: Seq<char>, qr_binary_data: Option<Seq<u8>>, qr_data_url: Option<Seq<char>> },
    PhoneConfirm { message: Option<Seq<char>> },
    LoginSuccess { user_id: Option<Seq<char>> },
    LoginTimeout,
    Error { message: Seq<char> },
}

impl View for LoginSubscriptionEvent {
    type V = LoginEventView;

    open spec fn view(&self) -> LoginEventView {
        match *self {
            LoginSubscriptionEvent::Status { message } => LoginEventView::Status {
                message: message@,
            },
            LoginSubscriptionEvent::Qr { qr_data, qr_binary_data, qr_data_url } => {
                LoginEventView::Qr {
                    qr_data: qr_data@,
                    qr_binary_data: match qr_binary_data {
                        Some(bytes) => Some(bytes@),
                        None => None,
                    },
                    qr_data_url: optional_text(qr_data_url),
                }
            },
            LoginSubscriptionEvent::PhoneConfirm { message } => LoginEventView::PhoneConfirm {
                message: optional_text(message),
            },
            LoginSubscriptionEvent::LoginSuccess { user_id } => LoginEventView::LoginSuccess {
                user_id: optional_text(user_id),
            },
            LoginSubscriptionEvent::LoginTimeout => LoginEventView::LoginTimeout,
            LoginSubscriptionEvent::Error { message } => LoginEventView::Error {
                message: message@,
            },
        }
    }
}

/// How the execution of a plan ended.
#[derive(Debug, PartialEq, Eq)]
pub struct ExecutionResult {
    pub success: bool,
    pub error: Option<String>,
}

/// Whether an event settles the login.
pub open spec fn is_terminal(event: LoginEventView) -> bool {
    event is LoginSuccess || event is LoginTimeout || event is Error
}

/// The key of the one text that an event of this type carries, where it carries any.
pub open spec fn text_key(event_type: Seq<char>) -> Option<Seq<char>> {
    if event_type == "status"@ || event_type == "phone_confirm"@ || event_type == "error"@ {
        Some("message"@)
    } else if event_type == "qr"@ {
        Some("qrData"@)
    } else if event_type == "login_success"@ {
        Some("userId"@)
    } else {
        None
    }
}

/// The text that an event of this type carries, from the string members of its data.
pub open spec fn carried_text(
    event_type: Seq<char>,
    members: Map<Seq<char>, Seq<char>>,
) -> Option<Seq<char>> {
    match text_key(event_type) {
        Some(key) => if members.contains_key(key) {
            Some(members[key])
        } else {
            None
        },
        None => None,
    }
}

/// A text, or another one where there is none.
pub open spec fn text_or(text: Option<Seq<char>>, other: Seq<char>) -> Seq<char> {
    match text {
        Some(t) => t,
        None => other,
    }
}

/// What the client is told of an event of this type that carries `text`. The image of a QR code
/// goes with an event of type `qr` alone.
pub open spec fn told_event(
    event_type: Seq<char>,
    text: Option<Seq<char>>,
    qr_data_url: Option<Seq<char>>,
) -> LoginEventView {
    if event_type == "status"@ {
        LoginEventView::Status { message: text_or(text, Seq::empty()) }
    } else if event_type == "qr"@ {
        LoginEventView::Qr {
            qr_data: text_or(text, Seq::empty()),
            qr_binary_data: None,
            qr_data_url: qr_data_url,
        }
    } else if event_type == "phone_confirm"@ {
        LoginEventView::PhoneConfirm { message: text }
    } else if event_type == "login_success"@ {
        LoginEventView::LoginSuccess { user_id: text }
    } else if event_type == "login_timeout"@ {
        LoginEventView::LoginTimeout
    } else if event_type == "error"@ {
        LoginEventView::Error { message: text_or(text, "Unknown error"@) }
    } else {
        LoginEventView::Status { message: "Unknown event: "@ + event_type }
    }
}

/// The text whose QR code goes with an event: for type `qr` the text that it carries.
pub open spec fn code_text(event_type: Seq<char>, text: Option<Seq<char>>) -> Option<Seq<char>> {
    if event_type == "qr"@ {
        Some(text_or(text, Seq::empty()))
    } else {
        None
    }
}

/// An error of the execution that is told as a timeout.
pub open spec fn is_timeout_message(message: Seq<char>, server_timeout: bool) -> bool {
    ||| stands_at(message, "Unknown state for"@, 0)
    ||| stands_at(message, "Execution timeout after"@, 0)
    ||| server_timeout && message == "Aborted"@
}

/// What the client is told at the end where nothing settled the login before. `outcome` is the
/// result of the execution: whether it succeeded, and its error; `None` where it broke down.
pub open spec fn closing_event(
    outcome: Option<(bool, Option<Seq<char>>)>,
    server_timeout: bool,
) -> LoginEventView {
    match outcome {
        Some((true, _)) => LoginEventView::LoginSuccess { user_id: None },
        Some((false, error)) => {
            let message = text_or(error, "Login failed"@);
            if is_timeout_message(message, server_timeout) {
                LoginEventView::LoginTimeout
            } else {
                LoginEventView::Error { message }
            }
        },
        None => LoginEventView::Error { message: "Login execution task failed"@ },
    }
}

/// The result of an execution as `closing_event` takes it.
pub open spec fn outcome_of(result: Option<ExecutionResult>) -> Option<(bool, Option<Seq<char>>)> {
    match result {
        Some(r) => Some((r.success, optional_text(r.error))),
        None => None,
    }
}

/// Decides `is_terminal`.
pub fn is_terminal_login_event(event: &LoginSubscriptionEvent) -> (terminal: bool)
    ensures
        terminal == is_terminal(event@),
{
    match event {
        LoginSubscriptionEvent::LoginSuccess { .. } => true,
        LoginSubscriptionEvent::LoginTimeout => true,
        LoginSubscriptionEvent::Error { .. } => true,
        _ => false,
    }
}

/// A text, or `other` where there is none.
fn or_text(text: Option<String>, other: &str) -> (result: String)
    ensures
        result@ == text_or(optional_text(text), other@),
{
    match text {
        Some(t) => t,
        None => other.to_string(),
    }
}

/// The text that an event carries, read from its data.
pub fn event_text(event: &SubscriptionEvent) -> (text: Option<String>)
    ensures
        optional_text(text) == carried_text(event.event_type@, text_members(event.data)),
{
    let event_type: &str = event.event_type.as_str();
    if same_text(event_type, "status") || same_text(event_type, "phone_confirm") || same_text(
        event_type,
        "error",
    ) {
        text_member(&event.data, "message")
    } else if same_text(event_type, "qr") {
        text_member(&event.data, "qrData")
    } else if same_text(event_type, "login_success") {
        text_member(&event.data, "userId")
    } else {
        None
    }
}

/// The text to be shown as a QR code with an event of this type that carries `text`, where one
/// goes with it.
pub fn qr_text(event_type: &str, text: &Option<String>) -> (code: Option<String>)
    ensures
        optional_text(code) == code_text(event_type@, optional_text(*text)),
{
    if same_text(event_type, "qr") {
        match text {
            Some(t) => Some(t.clone()),
            None => Some(String::new()),
        }
    } else {
        None
    }
}

/// What the client is told of an event of this type that carries `text`, with the image of the QR
/// code where there is one.
pub fn login_event(
    event_type: &str,
    text: Option<String>,
    qr_data_url: Option<String>,
) -> (told: LoginSubscriptionEvent)
    ensures
        told@ == told_event(event_type@, optional_text(text), optional_text(qr_data_url)),
{
    if same_text(event_type, "status") {
        LoginSubscriptionEvent::Status { message: or_empty(text) }
    } else if same_text(event_type, "qr") {
        LoginSubscriptionEvent::Qr {
            qr_data: or_empty(text),
            qr_binary_data: None,
            qr_data_url,
        }
    } else if same_text(event_type, "phone_confirm") {
        LoginSubscriptionEvent::PhoneConfirm { message: text }
    } else if same_text(event_type, "login_success") {
        LoginSubscriptionEvent::LoginSuccess { user_id: text }
    } else if same_text(event_type, "login_timeout") {
        LoginSubscriptionEvent::LoginTimeout
    } else if same_text(event_type, "error") {
        LoginSubscriptionEvent::Error { message: or_text(text, "Unknown error") }
    } else {
        LoginSubscriptionEvent::Status { message: "Unknown event: ".to_string().concat(event_type) }
    }
}

/// A text, or the empty one where there is none.
fn or_empty(text: Option<String>) -> (result: String)
    ensures
        result@ == text_or(optional_text(text), Seq::empty()),
{
    match text {
        Some(t) => t,
        None => String::new(),
    }
}

/// Converts an event of a plan to the event that the client is told. `qr_data_url` is the image
/// of the QR code for the text that `qr_text` gives of the event, where it could be made.
pub fn subscription_event_to_login_event(
    event: SubscriptionEvent,
    qr_data_url: Option<String>,
) -> (told: LoginSubscriptionEvent)
    ensures
        told@ == told_event(
            event.event_type@,
            carried_text(event.event_type@, text_members(event.data)),
            optional_text(qr_data_url),
        ),
{
    let text: Option<String> = event_text(&event);
    login_event(event.event_type.as_str(), text, qr_data_url)
}

/// What the client is told at the end where nothing settled the login before.
pub fn fallback_event(result: Option<ExecutionResult>, server_timeout: bool) -> (told:
    LoginSubscriptionEvent)
    ensures
        told@ == closing_event(outcome_of(result), server_timeout),
{
    match result {
        Some(r) => {
            if r.success {
                return LoginSubscriptionEvent::LoginSuccess { user_id: None };
            }
            let message: String = or_text(r.error, "Login failed");
            if begins_with(message.as_str(), "Unknown state for") || begins_with(
                message.as_str(),
                "Execution timeout after",
            ) || (server_timeout && same_text(message.as_str(), "Aborted")) {
                LoginSubscriptionEvent::LoginTimeout
            } else {
                LoginSubscriptionEvent::Error { message }
            }
        },
        None => LoginSubscriptionEvent::Error {
            message: "Login execution task failed".to_string(),
        },
    }
}

/// The events that settle a login are those of three types.
pub proof fn terminal_types(
    event_type: Seq<char>,
    text: Option<Seq<char>>,
    qr_data_url: Option<Seq<char>>,
)
    ensures
        is_terminal(told_event(event_type, text, qr_data_url)) <==> {
            ||| event_type == "login_success"@
            ||| event_type == "login_timeout"@
            ||| event_type == "error"@
        },
{
    reveal_strlit("status");
    reveal_strlit("qr");
    reveal_strlit("phone_confirm");
    reveal_strlit("login_success");
    reveal_strlit("login_timeout");
    reveal_strlit("error");
    assert("status"@.len() == 6 && "qr"@.len() == 2 && "error"@.len() == 5);
    assert("login_success"@.len() == 13 && "login_timeout"@.len() == 13);
    assert("phone_confirm"@[0] == 'p');
    assert("login_success"@[0] == 'l');
    assert("login_timeout"@[0] == 'l');
}

/// The closing event always settles the login.
pub proof fn closing_event_is_terminal(
    outcome: Option<(bool, Option<Seq<char>>)>,
    server_timeout: bool,
)
    ensures
        is_terminal(closing_event(outcome, server_timeout)),
{
}

} // verus!
