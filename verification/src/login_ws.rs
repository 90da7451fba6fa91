//! The login over a WebSocket: one flow from the connection to its end.

use vstd::prelude::*;

use crate::events::{carried_text, closing_event, code_text, is_terminal, outcome_of, told_event};
use crate::events::{event_text, fallback_event, is_terminal_login_event, qr_text};
use crate::events::{subscription_event_to_login_event, ExecutionResult, LoginEventView};
use crate::events::{LoginSubscriptionEvent, SubscriptionEvent};
use crate::outside::text_members;
use crate::session::Session;
use crate::text::optional_text;

verus! {

/// The parameters of a login connection.
#[derive(Clone, Copy, Debug, PartialEq, Eq)]
pub struct LoginWsParams {
    pub timeout_ms: u64,
    pub new_account: bool,
}

/// The time that a login is given where the client asks for no other, in milliseconds.
pub fn default_timeout() -> (timeout_ms: u64)
    ensures
        timeout_ms == 300_000,
{
    300_000
}

impl LoginWsParams {
    /// The parameters of a connection, from those that its query names.
    pub fn from_query(timeout_ms: Option<u64>, new_account: Option<bool>) -> (params: LoginWsParams)
        ensures
            params.timeout_ms == (match timeout_ms {
                Some(ms) => ms,
                None => 300_000,
            }),
            params.new_account == (new_account == Some(true)),
    {
        LoginWsParams {
            timeout_ms: match timeout_ms {
                Some(ms) => ms,
                None => default_timeout(),
            },
            new_account: match new_account {
                Some(wanted) => wanted,
                None => false,
            },
        }
    }
}

/// What a running login has come to so far.
#[derive(Clone, Copy, Debug, PartialEq, Eq)]
pub struct LoginNotes {
    /// The client was sent an event that settles the login.
    pub sent_terminal: bool,
    /// The client is gone.
    pub client_disconnected: bool,
    /// The time given ran out.
    pub server_timeout: bool,
}

/// Where a login flow stands. Each stage is a piece of work that is due, and holds what the work
/// needs.
#[derive(Debug)]
pub enum LoginStage {
    /// Try to take the login slot.
    Enter { params: LoginWsParams },
    /// Another login has the slot: send the event.
    Refuse { event: LoginSubscriptionEvent },
    /// Look up the session of this name.
    FindSession { params: LoginWsParams, name: &'static str },
    /// There is no session: send the event.
    Dismiss { event: LoginSubscriptionEvent },
    /// Send the first event.
    Greet { params: LoginWsParams, session: Session, event: LoginSubscriptionEvent },
    /// Start the execution of the login plan, and the timer.
    Launch { params: LoginWsParams, session: Session },
    /// Wait for the plan, the timer or the client.
    Listen { notes: LoginNotes },
    /// Make the image of the QR code for `code`.
    MakeCode { notes: LoginNotes, report: SubscriptionEvent, code: String },
    /// Send the event.
    Forward { notes: LoginNotes, event: LoginSubscriptionEvent },
    /// Cancel the execution, then send the event.
    TellTimeout { notes: LoginNotes, event: LoginSubscriptionEvent },
    /// Cancel the execution where `cancel` says so, then wait for its end.
    Join { notes: LoginNotes, cancel: bool },
    /// Send the event.
    Conclude { event: LoginSubscriptionEvent },
    /// Nothing is left to do.
    Closed,
}

/// What came of the work that was due.
#[derive(Debug)]
pub enum LoginInput {
    /// Whether the slot was free, and is now taken.
    Entered(bool),
    /// The session that was found.
    Session(Option<Session>),
    /// Whether the event could be sent.
    Sent(bool),
    /// The execution was started.
    Launched,
    /// The plan reported an event; `None` when it will report no more.
    Plan(Option<SubscriptionEvent>),
    /// The image of the QR code, where it could be made.
    Code(Option<String>),
    /// The time given ran out.
    Timeout,
    /// Whether the client is still there: it sent a message, or the connection ended.
    Client(bool),
    /// How the execution ended; `None` where it broke down.
    Finished(Option<ExecutionResult>),
}

/// A stage with its events taken by what they say.
pub enum LoginStageView {
    Enter { params: LoginWsParams },
    Refuse { event: LoginEventView },
    FindSession { params: LoginWsParams, name: Seq<char> },
    Dismiss { event: LoginEventView },
    Greet { params: LoginWsParams, session: Session, event: LoginEventView },
    Launch { params: LoginWsParams, session: Session },
    Listen { notes: LoginNotes },
    MakeCode { notes: LoginNotes, report: SubscriptionEvent, code: Seq<char> },
    Forward { notes: LoginNotes, event: LoginEventView },
    TellTimeout { notes: LoginNotes, event: LoginEventView },
    Join { notes: LoginNotes, cancel: bool },
    Conclude { event: LoginEventView },
    Closed,
}

impl View for LoginStage {
    type V = LoginStageView;

    open spec fn view(&self) -> LoginStageView {
        match *self {
            LoginStage::Enter { params } => LoginStageView::Enter { params },
            LoginStage::Refuse { event } => LoginStageView::Refuse { event: event@ },
            LoginStage::FindSession { params, name } => LoginStageView::FindSession {
                params,
                name: name@,
            },
            LoginStage::Dismiss { event } => LoginStageView::Dismiss { event: event@ },
            LoginStage::Greet { params, session, event } => LoginStageView::Greet {
                params,
                session,
                event: event@,
            },
            LoginStage::Launch { params, session } => LoginStageView::Launch { params, session },
            LoginStage::Listen { notes } => LoginStageView::Listen { notes },
            LoginStage::MakeCode { notes, report, code } => LoginStageView::MakeCode {
                notes,
                report,
                code: code@,
            },
            LoginStage::Forward { notes, event } => LoginStageView::Forward {
                notes,
                event: event@,
            },
            LoginStage::TellTimeout { notes, event } => LoginStageView::TellTimeout {
                notes,
                event: event@,
            },
            LoginStage::Join { notes, cancel } => LoginStageView::Join { notes, cancel },
            LoginStage::Conclude { event } => LoginStageView::Conclude { event: event@ },
            LoginStage::Closed => LoginStageView::Closed,
        }
    }
}

/// Whether an input is an outcome of the work that is due at a stage.
pub open spec fn awaits(stage: LoginStageView, input: LoginInput) -> bool {
    match stage {
        LoginStageView::Enter { .. } => input is Entered,
        LoginStageView::FindSession { .. } => input is Session,
        LoginStageView::Launch { .. } => input is Launched,
        LoginStageView::Listen { .. } => input is Plan || input is Timeout || input is Client,
        LoginStageView::MakeCode { .. } => input is Code,
        LoginStageView::Join { .. } => input is Finished,
        LoginStageView::Closed => false,
        _ => input is Sent,
    }
}

/// The event that is sent at a stage.
pub open spec fn told_at(stage: LoginStageView) -> Option<LoginEventView> {
    match stage {
        LoginStageView::Refuse { event } => Some(event),
        LoginStageView::Dismiss { event } => Some(event),
        LoginStageView::Greet { event, .. } => Some(event),
        LoginStageView::Forward { event, .. } => Some(event),
        LoginStageView::TellTimeout { event, .. } => Some(event),
        LoginStageView::Conclude { event } => Some(event),
        _ => None,
    }
}

/// The answer to a connection while another login is under way.
pub open spec fn refusal() -> LoginEventView {
    LoginEventView::Error {
        message: "A login session is already in progress; reuse the active QR code"@,
    }
}

/// The answer to a connection while there is no session.
pub open spec fn dismissal() -> LoginEventView {
    LoginEventView::Error { message: "No session available"@ }
}

/// The first event of a login.
pub open spec fn greeting() -> LoginEventView {
    LoginEventView::Status { message: "Navigating login flow..."@ }
}

/// The stage in which an event is forwarded; a terminal one is noted.
pub open spec fn forwarding(notes: LoginNotes, event: LoginEventView) -> LoginStageView {
    LoginStageView::Forward {
        notes: LoginNotes { sent_terminal: notes.sent_terminal || is_terminal(event), ..notes },
        event,
    }
}

/// The stage after an event of the plan.
pub open spec fn after_plan(notes: LoginNotes, report: SubscriptionEvent) -> LoginStageView {
    let text = carried_text(report.event_type@, text_members(report.data));
    match code_text(report.event_type@, text) {
        Some(code) => LoginStageView::MakeCode { notes, report, code },
        None => forwarding(notes, told_event(report.event_type@, text, None)),
    }
}

/// The stage after the client was found to be gone.
pub open spec fn after_loss(notes: LoginNotes, cancel: bool) -> LoginStageView {
    LoginStageView::Join { notes: LoginNotes { client_disconnected: true, ..notes }, cancel }
}

/// The stage after an input.
pub open spec fn next_stage(stage: LoginStageView, input: LoginInput) -> LoginStageView {
    match (stage, input) {
        (LoginStageView::Enter { params }, LoginInput::Entered(free)) => if free {
            LoginStageView::FindSession { params, name: "default"@ }
        } else {
            LoginStageView::Refuse { event: refusal() }
        },
        (LoginStageView::FindSession { params, .. }, LoginInput::Session(found)) => match found {
            Some(session) => LoginStageView::Greet { params, session, event: greeting() },
            None => LoginStageView::Dismiss { event: dismissal() },
        },
        (LoginStageView::Greet { params, session, .. }, LoginInput::Sent(true)) => {
            LoginStageView::Launch { params, session }
        },
        (LoginStageView::Launch { .. }, LoginInput::Launched) => LoginStageView::Listen {
            notes: LoginNotes {
                sent_terminal: false,
                client_disconnected: false,
                server_timeout: false,
            },
        },
        (LoginStageView::Listen { notes }, LoginInput::Plan(Some(report))) => {
            after_plan(notes, report)
        },
        (LoginStageView::Listen { notes }, LoginInput::Plan(None)) => LoginStageView::Join {
            notes,
            cancel: false,
        },
        (LoginStageView::Listen { notes }, LoginInput::Timeout) => LoginStageView::TellTimeout {
            notes: LoginNotes { sent_terminal: true, server_timeout: true, ..notes },
            event: LoginEventView::LoginTimeout,
        },
        (LoginStageView::Listen { notes }, LoginInput::Client(there)) => if there {
            stage
        } else {
            after_loss(notes, true)
        },
        (LoginStageView::MakeCode { notes, report, .. }, LoginInput::Code(url)) => forwarding(
            notes,
            told_event(
                report.event_type@,
                carried_text(report.event_type@, text_members(report.data)),
                optional_text(url),
            ),
        ),
        (LoginStageView::Forward { notes, .. }, LoginInput::Sent(sent)) => if sent {
            LoginStageView::Listen { notes }
        } else {
            after_loss(notes, true)
        },
        (LoginStageView::TellTimeout { notes, .. }, LoginInput::Sent(sent)) => if sent {
            LoginStageView::Join { notes, cancel: false }
        } else {
            after_loss(notes, false)
        },
        (LoginStageView::Join { notes, .. }, LoginInput::Finished(result)) => {
            if notes.client_disconnected || notes.sent_terminal {
                LoginStageView::Closed
            } else {
                LoginStageView::Conclude {
                    event: closing_event(outcome_of(result), notes.server_timeout),
                }
            }
        },
        // A refusal, a dismissal, a closing event and a greeting that failed end the flow.
        _ => LoginStageView::Closed,
    }
}

/// The stage in which `event` is forwarded; a terminal one is noted.
fn forward(notes: LoginNotes, event: LoginSubscriptionEvent) -> (stage: LoginStage)
    ensures
        stage@ == forwarding(notes, event@),
{
    let terminal: bool = is_terminal_login_event(&event);
    LoginStage::Forward {
        notes: LoginNotes { sent_terminal: notes.sent_terminal || terminal, ..notes },
        event,
    }
}

/// The first stage of a login connection.
pub fn login_ws(params: LoginWsParams) -> (stage: LoginStage)
    ensures
        stage@ == (LoginStageView::Enter { params }),
{
    LoginStage::Enter { params }
}

/// The stage that follows once the work of `stage` has come to `input`.
pub fn handle_login_ws(stage: LoginStage, input: LoginInput) -> (next: LoginStage)
    requires
        awaits(stage@, input),
    ensures
        next@ == next_stage(stage@, input),
{
    match (stage, input) {
        (LoginStage::Enter { params }, LoginInput::Entered(free)) => {
            if free {
                LoginStage::FindSession { params, name: "default" }
            } else {
                LoginStage::Refuse {
                    event: LoginSubscriptionEvent::Error {
                        message:
                            "A login session is already in progress; reuse the active QR code".to_string(),
                    },
                }
            }
        },
        (LoginStage::FindSession { params, .. }, LoginInput::Session(found)) => match found {
            Some(session) => LoginStage::Greet {
                params,
                session,
                event: LoginSubscriptionEvent::Status {
                    message: "Navigating login flow...".to_string(),
                },
            },
            None => LoginStage::Dismiss {
                event: LoginSubscriptionEvent::Error {
                    message: "No session available".to_string(),
                },
            },
        },
        (LoginStage::Greet { params, session, .. }, LoginInput::Sent(true)) => {
            LoginStage::Launch { params, session }
        },
        (LoginStage::Launch { .. }, LoginInput::Launched) => LoginStage::Listen {
            notes: LoginNotes {
                sent_terminal: false,
                client_disconnected: false,
                server_timeout: false,
            },
        },
        (LoginStage::Listen { notes }, LoginInput::Plan(Some(report))) => {
            let text: Option<String> = event_text(&report);
            match qr_text(report.event_type.as_str(), &text) {
                Some(code) => LoginStage::MakeCode { notes, report, code },
                None => forward(notes, subscription_event_to_login_event(report, None)),
            }
        },
        (LoginStage::Listen { notes }, LoginInput::Plan(None)) => {
            LoginStage::Join { notes, cancel: false }
        },
        (LoginStage::Listen { notes }, LoginInput::Timeout) => LoginStage::TellTimeout {
            notes: LoginNotes { sent_terminal: true, server_timeout: true, ..notes },
            event: LoginSubscriptionEvent::LoginTimeout,
        },
        (LoginStage::Listen { notes }, LoginInput::Client(there)) => {
            if there {
                LoginStage::Listen { notes }
            } else {
                LoginStage::Join {
                    notes: LoginNotes { client_disconnected: true, ..notes },
                    cancel: true,
                }
            }
        },
        (LoginStage::MakeCode { notes, report, .. }, LoginInput::Code(url)) => {
            forward(notes, subscription_event_to_login_event(report, url))
        },
        (LoginStage::Forward { notes, .. }, LoginInput::Sent(sent)) => {
            if sent {
                LoginStage::Listen { notes }
            } else {
                LoginStage::Join {
                    notes: LoginNotes { client_disconnected: true, ..notes },
                    cancel: true,
                }
            }
        },
        (LoginStage::TellTimeout { notes, .. }, LoginInput::Sent(sent)) => {
            if sent {
                LoginStage::Join { notes, cancel: false }
            } else {
                LoginStage::Join {
                    notes: LoginNotes { client_disconnected: true, ..notes },
                    cancel: false,
                }
            }
        },
        (LoginStage::Join { notes, .. }, LoginInput::Finished(result)) => {
            if notes.client_disconnected || notes.sent_terminal {
                LoginStage::Closed
            } else {
                LoginStage::Conclude { event: fallback_event(result, notes.server_timeout) }
            }
        },
        _ => LoginStage::Closed,
    }
}

} // verus!
