//! What the requests come to, by the records and outcomes themselves.

use vstd::prelude::*;

use crate::auth::{auth_status, AuthInput, AuthStage};
use crate::event_laws::same_optional;
use crate::events::ExecutionResult;
use crate::login::{login, QrInput, QrStage};
use crate::logout::{decoded_or_none, logout, screenshot_bytes, LogoutInput, LogoutStage};
use crate::observed::{observed_auth_status, IdentifiedStates};
use crate::outside::base64_bytes;
use crate::session::{get_status, Session, StatusReply};
use crate::tree::A11yNode;

verus! {

/// Whether `text` is the screenshot, or empty where none could be taken.
pub open spec fn is_shot(text: String, screenshot: Option<String>) -> bool {
    match screenshot {
        Some(s) => text@ == s@,
        None => text@.len() == 0,
    }
}

/// While the messenger runs, the login told is `logged_in` for every session whose login state is
/// that text, and for no other; its identifier and user have no part in it. The user told is the
/// one on record.
pub proof fn status_of_a_running_messenger(
    session: Session,
    version: &'static str,
    reply: StatusReply,
)
    requires
        call_ensures(get_status, (Some(session), true, version), reply),
    ensures
        session.login_state@ == "logged_in"@ ==> reply.login_state@ == "logged_in"@,
        session.login_state@ != "logged_in"@ ==> reply.login_state@ == "logged_out"@,
        same_optional(reply.logged_in_user, session.logged_in_user),
        reply.container@ == "running"@,
        reply.version@ == version@,
{
}

/// Without the messenger, or without a session, the login told is `logged_out`, without a user.
pub proof fn status_without_messenger_or_session(
    session: Option<Session>,
    wechat_running: bool,
    version: &'static str,
    reply: StatusReply,
)
    requires
        call_ensures(get_status, (session, wechat_running, version), reply),
        !wechat_running || session is None,
    ensures
        reply.login_state@ == "logged_out"@,
        reply.logged_in_user is None,
        reply.container@ == "running"@,
        reply.version@ == version@,
{
}

/// The login told follows from the login state on record alone: two sessions that agree on it are
/// told alike.
pub proof fn status_depends_on_the_login_state(
    one: Session,
    other: Session,
    wechat_running: bool,
    version: &'static str,
    told_one: StatusReply,
    told_other: StatusReply,
)
    requires
        call_ensures(get_status, (Some(one), wechat_running, version), told_one),
        call_ensures(get_status, (Some(other), wechat_running, version), told_other),
        one.login_state@ == other.login_state@,
    ensures
        told_one.login_state@ == told_other.login_state@,
{
}

/// A check begins with the default session. Without one it is unknown, and no user is told.
pub proof fn check_begins_with_the_session(start: AuthStage, next: AuthStage)
    requires
        call_ensures(AuthStage::start, (), start),
        call_ensures(auth_status, (start, AuthInput::Session(None)), next),
    ensures
        start matches AuthStage::FindSession { name } && name@ == "default"@,
        next matches AuthStage::Done { reply } && reply.status@ == "unknown"@
            && reply.logged_in_user is None,
{
}

/// A check that finds a session looks for the process. Without it, it tells so, with the user on
/// record.
pub proof fn check_needs_the_process(
    start: AuthStage,
    session: Session,
    looking: AuthStage,
    next: AuthStage,
)
    requires
        call_ensures(AuthStage::start, (), start),
        call_ensures(auth_status, (start, AuthInput::Session(Some(session))), looking),
        call_ensures(auth_status, (looking, AuthInput::Process(false)), next),
    ensures
        looking matches AuthStage::FindProcess { session: found } && found == session,
        next matches AuthStage::Done { reply } && reply.status@ == "app_not_running"@
            && (reply.logged_in_user matches Some(user) && same_optional(
            user,
            session.logged_in_user,
        )),
{
}

/// A check that finds the process reads the tree of the session within half a minute. Without a
/// tree it is unknown, with the user on record.
pub proof fn check_needs_the_tree(
    start: AuthStage,
    session: Session,
    looking: AuthStage,
    reading: AuthStage,
    next: AuthStage,
)
    requires
        call_ensures(AuthStage::start, (), start),
        call_ensures(auth_status, (start, AuthInput::Session(Some(session))), looking),
        call_ensures(auth_status, (looking, AuthInput::Process(true)), reading),
        call_ensures(auth_status, (reading, AuthInput::Tree(None)), next),
    ensures
        reading matches AuthStage::ReadTree { session: found, timeout_ms } && found == session
            && timeout_ms == 30_000,
        next matches AuthStage::Done { reply } && reply.status@ == "unknown"@
            && (reply.logged_in_user matches Some(user) && same_optional(
            user,
            session.logged_in_user,
        )),
{
}

/// A check that has the tree takes a screenshot of the same session, has the views recognised in
/// just that tree and screenshot, an empty one where none could be taken, and tells the status
/// that this tree and these views show, with the user on record.
pub proof fn check_tells_what_is_shown(
    start: AuthStage,
    session: Session,
    looking: AuthStage,
    reading: AuthStage,
    tree: A11yNode,
    taking: AuthStage,
    screenshot: Option<String>,
    recognising: AuthStage,
    identified: IdentifiedStates,
    done: AuthStage,
    shown: &'static str,
)
    requires
        call_ensures(AuthStage::start, (), start),
        call_ensures(auth_status, (start, AuthInput::Session(Some(session))), looking),
        call_ensures(auth_status, (looking, AuthInput::Process(true)), reading),
        call_ensures(auth_status, (reading, AuthInput::Tree(Some(tree))), taking),
        call_ensures(auth_status, (taking, AuthInput::Screenshot(screenshot)), recognising),
        call_ensures(auth_status, (recognising, AuthInput::Identified(identified)), done),
        call_ensures(observed_auth_status, (&tree, &identified), shown),
    ensures
        taking matches AuthStage::TakeScreenshot { session: found, timeout_ms, tree: read }
            && found == session && timeout_ms == 30_000 && read == tree,
        recognising matches AuthStage::Identify { session: found, tree: read, screenshot: shot }
            && found == session && read == tree && is_shot(shot, screenshot),
        done matches AuthStage::Done { reply } && reply.status@ == shown@ && (
        reply.logged_in_user matches Some(user) && same_optional(user, session.logged_in_user)),
{
}

/// A logout begins with the default session, and fails without one.
pub proof fn logout_begins_with_the_session(start: LogoutStage, next: LogoutStage)
    requires
        call_ensures(LogoutStage::start, (), start),
        call_ensures(logout, (start, LogoutInput::Session(None)), next),
    ensures
        start matches LogoutStage::FindSession { name } && name@ == "default"@,
        next matches LogoutStage::Done { reply } && !reply.success && (reply.error matches Some(
            error,
        ) && error@ == "No session available"@),
{
}

/// A logout reads the tree of the session within half a minute, and fails with the reason where
/// it cannot be read.
pub proof fn logout_needs_the_tree(
    start: LogoutStage,
    session: Session,
    reading: LogoutStage,
    reason: String,
    next: LogoutStage,
)
    requires
        call_ensures(LogoutStage::start, (), start),
        call_ensures(logout, (start, LogoutInput::Session(Some(session))), reading),
        call_ensures(logout, (reading, LogoutInput::Tree(Err(reason))), next),
    ensures
        reading matches LogoutStage::ReadTree { session: found, timeout_ms } && found == session
            && timeout_ms == 30_000,
        next matches LogoutStage::Done { reply } && !reply.success && (reply.error matches Some(
            error,
        ) && error@ == "Failed to get a11y tree: "@ + reason@),
{
}

/// A logout that has the tree takes a screenshot of the same session, has the views recognised in
/// just that tree and screenshot, and loads the context of that session.
pub proof fn logout_looks_at_the_desktop(
    start: LogoutStage,
    session: Session,
    reading: LogoutStage,
    tree: A11yNode,
    taking: LogoutStage,
    screenshot: Option<String>,
    recognising: LogoutStage,
    identified: IdentifiedStates,
    loading: LogoutStage,
)
    requires
        call_ensures(LogoutStage::start, (), start),
        call_ensures(logout, (start, LogoutInput::Session(Some(session))), reading),
        call_ensures(logout, (reading, LogoutInput::Tree(Ok(tree))), taking),
        call_ensures(logout, (taking, LogoutInput::Screenshot(screenshot)), recognising),
        call_ensures(logout, (recognising, LogoutInput::Identified(identified)), loading),
    ensures
        taking matches LogoutStage::TakeScreenshot { session: found, timeout_ms, tree: read }
            && found == session && timeout_ms == 30_000 && read == tree,
        recognising matches LogoutStage::Identify { session: found, tree: read, screenshot: shot }
            && found == session && read == tree && is_shot(shot, screenshot),
        loading matches LogoutStage::LoadContext {
            session: found,
            tree: read,
            screenshot: shot,
            identified: views,
        } && found == session && read == tree && is_shot(shot, screenshot)
            && same_main_view(views, identified),
{
}

/// Whether the same view, or none, was recognised in the main window.
pub open spec fn same_main_view(one: IdentifiedStates, other: IdentifiedStates) -> bool {
    match (one.main_window, other.main_window) {
        (Some(a), Some(b)) => a.state_id@ == b.state_id@,
        (None, None) => true,
        _ => false,
    }
}

/// Whether a logout goes on to execute the plan for `session`, or stops because nobody is logged
/// in, as `is_logged_in` says.
pub open spec fn goes_by(next: LogoutStage, session: Session, is_logged_in: bool) -> bool {
    if is_logged_in {
        next matches LogoutStage::Execute { session: found } && found == session
    } else {
        next matches LogoutStage::Done { reply } && !reply.success && (reply.error matches Some(
            error,
        ) && error@ == "Not logged in"@)
    }
}

/// Where no view was recognised, the context decides. Where one was, it is looked for by its
/// identifier.
pub proof fn context_decides_without_a_view(
    session: Session,
    tree: A11yNode,
    screenshot: String,
    identified: IdentifiedStates,
    is_logged_in: bool,
    next: LogoutStage,
)
    requires
        call_ensures(
            logout,
            (
                LogoutStage::LoadContext { session, tree, screenshot, identified },
                LogoutInput::Context(is_logged_in),
            ),
            next,
        ),
    ensures
        identified.main_window is None ==> goes_by(next, session, is_logged_in),
        identified.main_window matches Some(window) ==> (next matches LogoutStage::FindState {
            session: found,
            tree: read,
            screenshot: shot,
            state_id,
            is_logged_in: says,
        } && found == session && read == tree && shot@ == screenshot@ && state_id@
            == window.state_id@ && says == is_logged_in),
{
}

/// A view that is not known leaves the decision to the context. A known one is handed the tree
/// and the decoded screenshot, no bytes where it does not decode, and then decides.
pub proof fn known_view_decides(
    session: Session,
    tree: A11yNode,
    screenshot: String,
    state_id: String,
    is_logged_in: bool,
    unknown: LogoutStage,
    reducing: LogoutStage,
    reduced: bool,
    next: LogoutStage,
)
    requires
        call_ensures(
            logout,
            (
                LogoutStage::FindState { session, tree, screenshot, state_id, is_logged_in },
                LogoutInput::State(false),
            ),
            unknown,
        ),
        call_ensures(
            logout,
            (
                LogoutStage::FindState { session, tree, screenshot, state_id, is_logged_in },
                LogoutInput::State(true),
            ),
            reducing,
        ),
        call_ensures(logout, (reducing, LogoutInput::Reduced(reduced)), next),
    ensures
        goes_by(unknown, session, is_logged_in),
        reducing matches LogoutStage::Reduce {
            session: found,
            tree: read,
            state_id: id,
            screenshot_bytes: bytes,
        } && found == session && read == tree && id@ == state_id@ && (match base64_bytes(
            screenshot@,
        ) {
            Some(decoded) => bytes@ == decoded,
            None => bytes@.len() == 0,
        }),
        goes_by(next, session, reduced),
{
}

/// The bytes of a screenshot are what its text decodes to, and none where it does not decode.
pub proof fn screenshot_is_decoded(screenshot: &str, bytes: Vec<u8>)
    requires
        call_ensures(screenshot_bytes, (screenshot,), bytes),
    ensures
        base64_bytes(screenshot@) matches Some(decoded) ==> bytes@ == decoded,
        base64_bytes(screenshot@) is None || screenshot@.len() == 0 ==> bytes@.len() == 0,
{
}

/// Decoded bytes are kept, and missing ones are none.
pub proof fn decoded_bytes_are_kept(decoded: Option<Vec<u8>>, bytes: Vec<u8>)
    requires
        call_ensures(decoded_or_none, (decoded,), bytes),
    ensures
        decoded matches Some(b) ==> bytes@ == b@,
        decoded is None ==> bytes@.len() == 0,
{
}

/// The reply of a logout is the result of the execution, success and error. The user is cleared,
/// for the session that was logged out, exactly where the execution succeeded.
pub proof fn execution_is_the_reply(
    session: Session,
    result: ExecutionResult,
    next: LogoutStage,
    after: LogoutStage,
)
    requires
        call_ensures(logout, (LogoutStage::Execute { session }, LogoutInput::Executed(result)), next),
        next is ClearUser ==> call_ensures(logout, (next, LogoutInput::Cleared), after),
        !(next is ClearUser) ==> after == next,
    ensures
        next is ClearUser <==> result.success,
        next matches LogoutStage::ClearUser { session_id, .. } ==> session_id@ == session.id@,
        after matches LogoutStage::Done { reply } && reply.success == result.success
            && same_optional(reply.error, result.error),
{
}

/// A request to log in takes a screenshot. Without one the client is logged out.
pub proof fn login_needs_a_screenshot(start: QrStage, next: QrStage)
    requires
        call_ensures(QrStage::start, (), start),
        call_ensures(login, (start, QrInput::Screenshot(None)), next),
    ensures
        start is TakeScreenshot,
        next matches QrStage::Done { reply } && !reply.success && reply.status@ == "logged_out"@
            && reply.qr_data_url is None,
{
}

/// The QR code is looked for in the screenshot that was taken. Where none is found the code is
/// pending, and no image is told.
pub proof fn login_looks_for_the_code(
    start: QrStage,
    screenshot: String,
    reading: QrStage,
    next: QrStage,
)
    requires
        call_ensures(QrStage::start, (), start),
        call_ensures(login, (start, QrInput::Screenshot(Some(screenshot))), reading),
        call_ensures(login, (reading, QrInput::Read(None)), next),
    ensures
        reading matches QrStage::ReadCode { screenshot: shot } && shot@ == screenshot@,
        next matches QrStage::Done { reply } && !reply.success && reply.status@ == "qr_pending"@
            && reply.qr_data_url is None,
{
}

/// The image is made of the text that was found, and told with the pending code, also where it
/// could not be made.
pub proof fn login_tells_the_image(
    start: QrStage,
    screenshot: String,
    reading: QrStage,
    code: String,
    making: QrStage,
    url: Option<String>,
    next: QrStage,
)
    requires
        call_ensures(QrStage::start, (), start),
        call_ensures(login, (start, QrInput::Screenshot(Some(screenshot))), reading),
        call_ensures(login, (reading, QrInput::Read(Some(code))), making),
        call_ensures(login, (making, QrInput::Made(url)), next),
    ensures
        making matches QrStage::MakeCode { code: text } && text@ == code@,
        next matches QrStage::Done { reply } && !reply.success && reply.status@ == "qr_pending"@
            && (reply.qr_data_url matches Some(told) && same_optional(told, url)),
{
}

} // verus!
