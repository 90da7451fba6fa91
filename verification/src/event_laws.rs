//! What the client of a login is told, by the events and results themselves.

use vstd::prelude::*;

use crate::events::{closing_event, event_text, fallback_event, is_terminal_login_event};
use crate::events::{login_event, qr_text, subscription_event_to_login_event};
use crate::events::{ExecutionResult, LoginEventView, LoginSubscriptionEvent, SubscriptionEvent};
use crate::outside::text_members;
use crate::text::stands_at;

verus! {

/// Whether two optional strings are both missing or hold the same characters.
pub open spec fn same_optional(a: Option<String>, b: Option<String>) -> bool {
    match (a, b) {
        (Some(x), Some(y)) => x@ == y@,
        (None, None) => true,
        _ => false,
    }
}

/// Whether a message is the text, or `other` where there is no text.
pub open spec fn says(message: String, text: Option<String>, other: Seq<char>) -> bool {
    match text {
        Some(t) => message@ == t@,
        None => message@ == other,
    }
}

/// The six types of events are six different texts.
pub proof fn event_types_differ(event_type: Seq<char>)
    ensures
        event_type == "status"@ ==> event_type.len() == 6,
        event_type == "qr"@ ==> event_type.len() == 2,
        event_type == "error"@ ==> event_type.len() == 5,
        event_type == "phone_confirm"@ ==> event_type.len() == 13 && event_type[0] == 'p',
        event_type == "login_success"@ ==> event_type.len() == 13 && event_type[0] == 'l'
            && event_type[6] == 's',
        event_type == "login_timeout"@ ==> event_type.len() == 13 && event_type[0] == 'l'
            && event_type[6] == 't',
{
    reveal_strlit("status");
    reveal_strlit("qr");
    reveal_strlit("error");
    reveal_strlit("phone_confirm");
    reveal_strlit("login_success");
    reveal_strlit("login_timeout");
}

/// An event says what its view says.
pub proof fn event_view_is_faithful(event: LoginSubscriptionEvent)
    ensures
        event matches LoginSubscriptionEvent::Status { message } ==> event@ == (
        LoginEventView::Status { message: message@ }),
        event matches LoginSubscriptionEvent::Error { message } ==> event@ == (
        LoginEventView::Error { message: message@ }),
        event is LoginTimeout ==> event@ == LoginEventView::LoginTimeout,
        event matches LoginSubscriptionEvent::PhoneConfirm { message } ==> (event@ matches
            LoginEventView::PhoneConfirm { message: told } && match message {
            Some(m) => told == Some(m@),
            None => told is None,
        }),
        event matches LoginSubscriptionEvent::LoginSuccess { user_id } ==> (event@ matches
            LoginEventView::LoginSuccess { user_id: told } && match user_id {
            Some(id) => told == Some(id@),
            None => told is None,
        }),
        event matches LoginSubscriptionEvent::Qr { qr_data, qr_binary_data, qr_data_url } ==> (
        event@ matches LoginEventView::Qr { qr_data: data, qr_binary_data: bytes, qr_data_url: url }
            && data == qr_data@ && (match qr_binary_data {
            Some(b) => bytes == Some(b@),
            None => bytes is None,
        }) && match qr_data_url {
            Some(u) => url == Some(u@),
            None => url is None,
        }),
{
}

/// An event is terminal exactly where it is a success, a timeout or an error.
pub proof fn terminal_events_are_three(event: LoginSubscriptionEvent, terminal: bool)
    requires
        call_ensures(is_terminal_login_event, (&event,), terminal),
    ensures
        terminal <==> event is LoginSuccess || event is LoginTimeout || event is Error,
{
}

/// What the client is told of an event that carries a text: by its type, the text in its place,
/// and what stands there where the text is missing.
pub proof fn events_are_told_by_type(
    event_type: &str,
    text: Option<String>,
    qr_data_url: Option<String>,
    told: LoginSubscriptionEvent,
)
    requires
        call_ensures(login_event, (event_type, text, qr_data_url), told),
    ensures
        event_type@ == "status"@ ==> (told matches LoginSubscriptionEvent::Status { message }
            && says(message, text, Seq::empty())),
        event_type@ == "qr"@ ==> (told matches LoginSubscriptionEvent::Qr {
            qr_data,
            qr_binary_data,
            qr_data_url: url,
        } && says(qr_data, text, Seq::empty()) && qr_binary_data is None && same_optional(
            url,
            qr_data_url,
        )),
        event_type@ == "phone_confirm"@ ==> (told matches LoginSubscriptionEvent::PhoneConfirm {
            message,
        } && same_optional(message, text)),
        event_type@ == "login_success"@ ==> (told matches LoginSubscriptionEvent::LoginSuccess {
            user_id,
        } && same_optional(user_id, text)),
        event_type@ == "login_timeout"@ ==> told is LoginTimeout,
        event_type@ == "error"@ ==> (told matches LoginSubscriptionEvent::Error { message } && says(
            message,
            text,
            "Unknown error"@,
        )),
        event_type@ != "status"@ && event_type@ != "qr"@ && event_type@ != "phone_confirm"@
            && event_type@ != "login_success"@ && event_type@ != "login_timeout"@ && event_type@
            != "error"@ ==> (told matches LoginSubscriptionEvent::Status { message } && message@
            == "Unknown event: "@ + event_type@),
{
    event_types_differ(event_type@);
}

/// Whether `text` is the string under `key` in a JSON value, or missing where there is none.
pub open spec fn is_member(text: Option<String>, data: serde_json::Value, key: Seq<char>) -> bool {
    match text {
        Some(t) => text_members(data).contains_key(key) && t@ == text_members(data)[key],
        None => !text_members(data).contains_key(key),
    }
}

/// Each type of event carries the text under its own key.
pub proof fn text_is_under_its_key(event: SubscriptionEvent, text: Option<String>)
    requires
        call_ensures(event_text, (&event,), text),
    ensures
        event.event_type@ == "status"@ ==> is_member(text, event.data, "message"@),
        event.event_type@ == "phone_confirm"@ ==> is_member(text, event.data, "message"@),
        event.event_type@ == "error"@ ==> is_member(text, event.data, "message"@),
        event.event_type@ == "qr"@ ==> is_member(text, event.data, "qrData"@),
        event.event_type@ == "login_success"@ ==> is_member(text, event.data, "userId"@),
{
    event_types_differ(event.event_type@);
}

/// Converting an event is telling it with the text that is read from its data: the two ways agree
/// on every event.
pub proof fn conversion_tells_the_text(
    event: SubscriptionEvent,
    qr_data_url: Option<String>,
    text: Option<String>,
    event_type: &str,
    converted: LoginSubscriptionEvent,
    told: LoginSubscriptionEvent,
)
    requires
        call_ensures(event_text, (&event,), text),
        event_type@ == event.event_type@,
        call_ensures(login_event, (event_type, text, qr_data_url), told),
        call_ensures(subscription_event_to_login_event, (event, qr_data_url), converted),
    ensures
        converted@ == told@,
{
}

/// The message under `message`, the QR text under `qrData` and the user under `userId` are what
/// the client is told, whatever else the data holds; a missing one is told as the empty text, as
/// none, or as an unknown error.
pub proof fn members_are_told(
    event: SubscriptionEvent,
    qr_data_url: Option<String>,
    told: LoginSubscriptionEvent,
)
    requires
        call_ensures(subscription_event_to_login_event, (event, qr_data_url), told),
    ensures
        ({
            let members = text_members(event.data);
            &&& event.event_type@ == "status"@ ==> (told matches LoginSubscriptionEvent::Status {
                message,
            } && message@ == (if members.contains_key("message"@) {
                members["message"@]
            } else {
                Seq::empty()
            }))
            &&& event.event_type@ == "error"@ ==> (told matches LoginSubscriptionEvent::Error {
                message,
            } && message@ == (if members.contains_key("message"@) {
                members["message"@]
            } else {
                "Unknown error"@
            }))
            &&& event.event_type@ == "qr"@ ==> (told matches LoginSubscriptionEvent::Qr {
                qr_data,
                qr_binary_data,
                qr_data_url: url,
            } && qr_data@ == (if members.contains_key("qrData"@) {
                members["qrData"@]
            } else {
                Seq::empty()
            }) && qr_binary_data is None && same_optional(url, qr_data_url))
            &&& event.event_type@ == "phone_confirm"@ ==> (told matches
                LoginSubscriptionEvent::PhoneConfirm { message } && is_member(
                message,
                event.data,
                "message"@,
            ))
            &&& event.event_type@ == "login_success"@ ==> (told matches
                LoginSubscriptionEvent::LoginSuccess { user_id } && is_member(
                user_id,
                event.data,
                "userId"@,
            ))
            &&& event.event_type@ == "login_timeout"@ ==> told is LoginTimeout
        }),
{
    event_types_differ(event.event_type@);
}

/// A QR code goes with events of type `qr` alone, and is made of the text that they carry.
pub proof fn code_goes_with_qr_alone(event_type: &str, text: Option<String>, code: Option<String>)
    requires
        call_ensures(qr_text, (event_type, &text), code),
    ensures
        code is Some <==> event_type@ == "qr"@,
        code matches Some(c) ==> says(c, text, Seq::empty()),
{
}

/// An execution that succeeded is told as a success without a user, whatever its error and
/// whether or not the time ran out; one that failed or broke down is never told as a success.
pub proof fn success_is_told_as_success(
    result: Option<ExecutionResult>,
    server_timeout: bool,
    told: LoginSubscriptionEvent,
)
    requires
        call_ensures(fallback_event, (result, server_timeout), told),
    ensures
        told is LoginSuccess <==> (result matches Some(r) && r.success),
        told matches LoginSubscriptionEvent::LoginSuccess { user_id } ==> user_id is None,
{
}

/// A failed execution is told as a timeout exactly where its error begins with one of two texts,
/// or is `Aborted` after the time ran out. Otherwise it is told as its error, or as a failed login
/// where it has none; one that broke down is told as that.
pub proof fn failure_is_told_as_its_error(
    result: Option<ExecutionResult>,
    server_timeout: bool,
    told: LoginSubscriptionEvent,
)
    requires
        call_ensures(fallback_event, (result, server_timeout), told),
    ensures
        result is None ==> (told matches LoginSubscriptionEvent::Error { message } && message@
            == "Login execution task failed"@),
        result matches Some(r) && !r.success && r.error is None ==> (told matches
            LoginSubscriptionEvent::Error { message } && message@ == "Login failed"@),
        result matches Some(r) && !r.success && r.error is Some ==> {
            let error = result->0.error->0@;
            if {
                ||| exists|rest: Seq<char>| error == #[trigger] ("Unknown state for"@ + rest)
                ||| exists|rest: Seq<char>| error == #[trigger] ("Execution timeout after"@ + rest)
                ||| server_timeout && error == "Aborted"@
            } {
                told is LoginTimeout
            } else {
                told matches LoginSubscriptionEvent::Error { message } && message@ == error
            }
        },
{
    if let Some(r) = result {
        match r.error {
            Some(error) => {
                prefix_is_first(error@, "Unknown state for"@);
                prefix_is_first(error@, "Execution timeout after"@);
            },
            None => {
                reveal_strlit("Login failed");
                reveal_strlit("Unknown state for");
                reveal_strlit("Execution timeout after");
                reveal_strlit("Aborted");
                assert("Login failed"@.len() == 12 && "Aborted"@.len() == 7);
                assert("Unknown state for"@.len() == 17);
                assert("Execution timeout after"@.len() == 23);
            },
        }
    }
}

proof fn prefix_is_first(text: Seq<char>, prefix: Seq<char>)
    ensures
        stands_at(text, prefix, 0) <==> exists|rest: Seq<char>| text == #[trigger] (prefix + rest),
{
    if stands_at(text, prefix, 0) {
        assert(text =~= prefix + text.skip(prefix.len() as int));
    }
    if exists|rest: Seq<char>| text == #[trigger] (prefix + rest) {
        let rest = choose|rest: Seq<char>| text == #[trigger] (prefix + rest);
        assert((prefix + rest).subrange(0, prefix.len() as int) =~= prefix);
    }
}

/// The closing event of a flow is what the fallback of its result tells.
pub proof fn closing_event_is_the_fallback(
    result: Option<ExecutionResult>,
    server_timeout: bool,
    told: LoginSubscriptionEvent,
)
    requires
        call_ensures(fallback_event, (result, server_timeout), told),
    ensures
        told@ == closing_event(crate::events::outcome_of(result), server_timeout),
{
}

} // verus!
