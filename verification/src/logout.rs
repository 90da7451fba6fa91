//! Logging out.

use vstd::prelude::*;
use vstd::string::StringExecFns;

use crate::auth::OBSERVATION_TIMEOUT_MS;
use crate::events::{text_or, ExecutionResult};
use crate::observed::IdentifiedStates;
use crate::outside::{base64_bytes, decode_base64};
use crate::session::Session;
use crate::text::optional_text;
use crate::tree::A11yNode;

verus! {

/// The reply to a request to log out.
#[derive(Debug, PartialEq, Eq)]
pub struct LogoutReply {
    pub success: bool,
    pub error: Option<String>,
}

/// What a reply says.
pub struct LogoutReplyView {
    pub success: bool,
    pub error: Option<Seq<char>>,
}

impl View for LogoutReply {
    type V = LogoutReplyView;

    open spec fn view(&self) -> LogoutReplyView {
        LogoutReplyView { success: self.success, error: optional_text(self.error) }
    }
}

/// Where a logout stands. Each stage is a piece of work that is due, and holds what the work
/// needs.
#[derive(Debug)]
pub enum LogoutStage {
    /// Look up the session of this name.
    FindSession { name: &'static str },
    /// Read the accessibility tree.
    ReadTree { session: Session, timeout_ms: u64 },
    /// Take a screenshot.
    TakeScreenshot { session: Session, timeout_ms: u64, tree: A11yNode },
    /// Recognise the views.
    Identify { session: Session, tree: A11yNode, screenshot: String },
    /// Load the recorded context of the session.
    LoadContext {
        session: Session,
        tree: A11yNode,
        screenshot: String,
        identified: IdentifiedStates,
    },
    /// Look for the view of this identifier. The context says `is_logged_in`.
    FindState {
        session: Session,
        tree: A11yNode,
        screenshot: String,
        state_id: String,
        is_logged_in: bool,
    },
    /// Let the view of this identifier bring the context up to date.
    Reduce { session: Session, tree: A11yNode, state_id: String, screenshot_bytes: Vec<u8> },
    /// Execute the logout plan.
    Execute { session: Session },
    /// Clear the user on record for the session of this identifier.
    ClearUser { session_id: String, reply: LogoutReply },
    /// Reply.
    Done { reply: LogoutReply },
}

/// What came of the work that was due.
#[derive(Debug)]
pub enum LogoutInput {
    /// The session that was found.
    Session(Option<Session>),
    /// The tree, or why it could not be read.
    Tree(Result<A11yNode, String>),
    /// The screenshot, where it could be taken.
    Screenshot(Option<String>),
    /// The views that were recognised.
    Identified(IdentifiedStates),
    /// Whether the context says that a user is logged in.
    Context(bool),
    /// Whether the view is known.
    State(bool),
    /// Whether the context, brought up to date, says that a user is logged in.
    Reduced(bool),
    /// How the execution ended.
    Executed(ExecutionResult),
    /// The user was cleared.
    Cleared,
}

/// A stage with its texts taken by their characters.
pub enum LogoutStageView {
    FindSession { name: Seq<char> },
    ReadTree { session: Session, timeout_ms: u64 },
    TakeScreenshot { session: Session, timeout_ms: u64, tree: A11yNode },
    Identify { session: Session, tree: A11yNode, screenshot: Seq<char> },
    LoadContext {
        session: Session,
        tree: A11yNode,
        screenshot: Seq<char>,
        main_view: Option<Seq<char>>,
    },
    FindState {
        session: Session,
        tree: A11yNode,
        screenshot: Seq<char>,
        state_id: Seq<char>,
        is_logged_in: bool,
    },
    Reduce { session: Session, tree: A11yNode, state_id: Seq<char>, screenshot_bytes: Seq<u8> },
    Execute { session: Session },
    ClearUser { session_id: Seq<char>, reply: LogoutReplyView },
    Done { reply: LogoutReplyView },
}

impl View for LogoutStage {
    type V = LogoutStageView;

    open spec fn view(&self) -> LogoutStageView {
        match *self {
            LogoutStage::FindSession { name } => LogoutStageView::FindSession { name: name@ },
            LogoutStage::ReadTree { session, timeout_ms } => LogoutStageView::ReadTree {
                session,
                timeout_ms,
            },
            LogoutStage::TakeScreenshot { session, timeout_ms, tree } => {
                LogoutStageView::TakeScreenshot { session, timeout_ms, tree }
            },
            LogoutStage::Identify { session, tree, screenshot } => LogoutStageView::Identify {
                session,
                tree,
                screenshot: screenshot@,
            },
            LogoutStage::LoadContext { session, tree, screenshot, identified } => {
                LogoutStageView::LoadContext {
                    session,
                    tree,
                    screenshot: screenshot@,
                    main_view: identified.main_view(),
                }
            },
            LogoutStage::FindState { session, tree, screenshot, state_id, is_logged_in } => {
                LogoutStageView::FindState {
                    session,
                    tree,
                    screenshot: screenshot@,
                    state_id: state_id@,
                    is_logged_in,
                }
            },
            LogoutStage::Reduce { session, tree, state_id, screenshot_bytes } => {
                LogoutStageView::Reduce {
                    session,
                    tree,
                    state_id: state_id@,
                    screenshot_bytes: screenshot_bytes@,
                }
            },
            LogoutStage::Execute { session } => LogoutStageView::Execute { session },
            LogoutStage::ClearUser { session_id, reply } => LogoutStageView::ClearUser {
                session_id: session_id@,
                reply: reply@,
            },
            LogoutStage::Done { reply } => LogoutStageView::Done { reply: reply@ },
        }
    }
}

/// Whether an input is an outcome of the work that is due at a stage.
pub open spec fn awaits(stage: LogoutStageView, input: LogoutInput) -> bool {
    match stage {
        LogoutStageView::FindSession { .. } => input is Session,
        LogoutStageView::ReadTree { .. } => input is Tree,
        LogoutStageView::TakeScreenshot { .. } => input is Screenshot,
        LogoutStageView::Identify { .. } => input is Identified,
        LogoutStageView::LoadContext { .. } => input is Context,
        LogoutStageView::FindState { .. } => input is State,
        LogoutStageView::Reduce { .. } => input is Reduced,
        LogoutStageView::Execute { .. } => input is Executed,
        LogoutStageView::ClearUser { .. } => input is Cleared,
        LogoutStageView::Done { .. } => false,
    }
}

/// The last stage of a logout that failed.
pub open spec fn failed(error: Seq<char>) -> LogoutStageView {
    LogoutStageView::Done { reply: LogoutReplyView { success: false, error: Some(error) } }
}

/// The stage once it is settled whether a user is logged in.
pub open spec fn decided(session: Session, is_logged_in: bool) -> LogoutStageView {
    if is_logged_in {
        LogoutStageView::Execute { session }
    } else {
        failed("Not logged in"@)
    }
}

/// The decoded bytes, or none where there are no such bytes.
pub open spec fn bytes_or_none(decoded: Option<Seq<u8>>) -> Seq<u8> {
    match decoded {
        Some(bytes) => bytes,
        None => Seq::empty(),
    }
}

/// The stage after an input.
pub open spec fn next_stage(stage: LogoutStageView, input: LogoutInput) -> LogoutStageView {
    match (stage, input) {
        (LogoutStageView::FindSession { .. }, LogoutInput::Session(Some(session))) => {
            LogoutStageView::ReadTree { session, timeout_ms: OBSERVATION_TIMEOUT_MS }
        },
        (LogoutStageView::FindSession { .. }, LogoutInput::Session(None)) => {
            failed("No session available"@)
        },
        (LogoutStageView::ReadTree { session, timeout_ms }, LogoutInput::Tree(Ok(tree))) => {
            LogoutStageView::TakeScreenshot { session, timeout_ms, tree }
        },
        (LogoutStageView::ReadTree { .. }, LogoutInput::Tree(Err(reason))) => {
            failed("Failed to get a11y tree: "@ + reason@)
        },
        (
            LogoutStageView::TakeScreenshot { session, tree, .. },
            LogoutInput::Screenshot(screenshot),
        ) => LogoutStageView::Identify {
            session,
            tree,
            screenshot: text_or(optional_text(screenshot), Seq::empty()),
        },
        (
            LogoutStageView::Identify { session, tree, screenshot },
            LogoutInput::Identified(identified),
        ) => LogoutStageView::LoadContext {
            session,
            tree,
            screenshot,
            main_view: identified.main_view(),
        },
        (
            LogoutStageView::LoadContext { session, tree, screenshot, main_view },
            LogoutInput::Context(is_logged_in),
        ) => match main_view {
            Some(state_id) => LogoutStageView::FindState {
                session,
                tree,
                screenshot,
                state_id,
                is_logged_in,
            },
            None => decided(session, is_logged_in),
        },
        (
            LogoutStageView::FindState { session, tree, screenshot, state_id, is_logged_in },
            LogoutInput::State(known),
        ) => if known {
            LogoutStageView::Reduce {
                session,
                tree,
                state_id,
                screenshot_bytes: bytes_or_none(base64_bytes(screenshot)),
            }
        } else {
            decided(session, is_logged_in)
        },
        (LogoutStageView::Reduce { session, .. }, LogoutInput::Reduced(is_logged_in)) => {
            decided(session, is_logged_in)
        },
        (LogoutStageView::Execute { session }, LogoutInput::Executed(result)) => {
            let reply = LogoutReplyView {
                success: result.success,
                error: optional_text(result.error),
            };
            if result.success {
                LogoutStageView::ClearUser { session_id: session.id@, reply }
            } else {
                LogoutStageView::Done { reply }
            }
        },
        (LogoutStageView::ClearUser { reply, .. }, LogoutInput::Cleared) => {
            LogoutStageView::Done { reply }
        },
        _ => stage,
    }
}

impl LogoutStage {
    /// The first stage of a logout.
    pub fn start() -> (stage: LogoutStage)
        ensures
            stage@ == (LogoutStageView::FindSession { name: "default"@ }),
    {
        LogoutStage::FindSession { name: "default" }
    }
}

fn fail(error: String) -> (stage: LogoutStage)
    ensures
        stage@ == failed(error@),
{
    LogoutStage::Done { reply: LogoutReply { success: false, error: Some(error) } }
}

fn decide(session: Session, is_logged_in: bool) -> (stage: LogoutStage)
    ensures
        stage@ == decided(session, is_logged_in),
{
    if is_logged_in {
        LogoutStage::Execute { session }
    } else {
        fail("Not logged in".to_string())
    }
}

/// The decoded bytes, or none where the text could not be decoded.
pub fn decoded_or_none(decoded: Option<Vec<u8>>) -> (bytes: Vec<u8>)
    ensures
        bytes@ == bytes_or_none(
            match decoded {
                Some(b) => Some(b@),
                None => None,
            },
        ),
{
    match decoded {
        Some(b) => b,
        None => Vec::new(),
    }
}

/// The bytes of a screenshot in base64; none where it is not base64.
pub fn screenshot_bytes(screenshot: &str) -> (bytes: Vec<u8>)
    ensures
        bytes@ == bytes_or_none(base64_bytes(screenshot@)),
        screenshot@.len() == 0 ==> bytes@.len() == 0,
{
    match decode_base64(screenshot) {
        Ok(bytes) => decoded_or_none(Some(bytes)),
        Err(_) => decoded_or_none(None),
    }
}

/// The stage that follows once the work of `stage` has come to `input`.
pub fn logout(stage: LogoutStage, input: LogoutInput) -> (next: LogoutStage)
    requires
        awaits(stage@, input),
    ensures
        next@ == next_stage(stage@, input),
{
    match (stage, input) {
        (LogoutStage::FindSession { .. }, LogoutInput::Session(found)) => match found {
            Some(session) => LogoutStage::ReadTree { session, timeout_ms: OBSERVATION_TIMEOUT_MS },
            None => fail("No session available".to_string()),
        },
        (LogoutStage::ReadTree { session, timeout_ms }, LogoutInput::Tree(read)) => match read {
            Ok(tree) => LogoutStage::TakeScreenshot { session, timeout_ms, tree },
            Err(reason) => fail("Failed to get a11y tree: ".to_string().concat(reason.as_str())),
        },
        (LogoutStage::TakeScreenshot { session, tree, .. }, LogoutInput::Screenshot(taken)) => {
            let screenshot: String = match taken {
                Some(s) => s,
                None => String::new(),
            };
            LogoutStage::Identify { session, tree, screenshot }
        },
        (
            LogoutStage::Identify { session, tree, screenshot },
            LogoutInput::Identified(identified),
        ) => LogoutStage::LoadContext { session, tree, screenshot, identified },
        (
            LogoutStage::LoadContext { session, tree, screenshot, identified },
            LogoutInput::Context(is_logged_in),
        ) => match identified.main_window {
            Some(main_window) => LogoutStage::FindState {
                session,
                tree,
                screenshot,
                state_id: main_window.state_id,
                is_logged_in,
            },
            None => decide(session, is_logged_in),
        },
        (
            LogoutStage::FindState { session, tree, screenshot, state_id, is_logged_in },
            LogoutInput::State(known),
        ) => {
            if known {
                let bytes: Vec<u8> = screenshot_bytes(screenshot.as_str());
                LogoutStage::Reduce { session, tree, state_id, screenshot_bytes: bytes }
            } else {
                decide(session, is_logged_in)
            }
        },
        (LogoutStage::Reduce { session, .. }, LogoutInput::Reduced(is_logged_in)) => {
            decide(session, is_logged_in)
        },
        (LogoutStage::Execute { session }, LogoutInput::Executed(result)) => {
            let success: bool = result.success;
            let reply: LogoutReply = LogoutReply { success, error: result.error };
            if success {
                LogoutStage::ClearUser { session_id: session.id, reply }
            } else {
                LogoutStage::Done { reply }
            }
        },
        (LogoutStage::ClearUser { reply, .. }, LogoutInput::Cleared) => LogoutStage::Done { reply },
        (stage, _) => stage,
    }
}

/// What the work of a logout comes to, whenever it is done.
pub struct LogoutWorld {
    pub session: Option<Session>,
    pub tree: Result<A11yNode, String>,
    pub screenshot: Option<String>,
    pub identify: spec_fn(A11yNode, Seq<char>) -> IdentifiedStates,
    pub context: bool,
    pub knows: spec_fn(Seq<char>) -> bool,
    pub reduce: spec_fn(Seq<char>, A11yNode, Seq<u8>) -> bool,
    pub result: ExecutionResult,
}

/// The stage after the work that is due was done.
pub open spec fn step(world: LogoutWorld, stage: LogoutStageView) -> LogoutStageView {
    match stage {
        LogoutStageView::FindSession { .. } => {
            next_stage(stage, LogoutInput::Session(world.session))
        },
        LogoutStageView::ReadTree { .. } => next_stage(stage, LogoutInput::Tree(world.tree)),
        LogoutStageView::TakeScreenshot { .. } => {
            next_stage(stage, LogoutInput::Screenshot(world.screenshot))
        },
        LogoutStageView::Identify { tree, screenshot, .. } => {
            next_stage(stage, LogoutInput::Identified((world.identify)(tree, screenshot)))
        },
        LogoutStageView::LoadContext { .. } => {
            next_stage(stage, LogoutInput::Context(world.context))
        },
        LogoutStageView::FindState { state_id, .. } => {
            next_stage(stage, LogoutInput::State((world.knows)(state_id)))
        },
        LogoutStageView::Reduce { tree, state_id, screenshot_bytes, .. } => {
            next_stage(
                stage,
                LogoutInput::Reduced((world.reduce)(state_id, tree, screenshot_bytes)),
            )
        },
        LogoutStageView::Execute { .. } => next_stage(stage, LogoutInput::Executed(world.result)),
        LogoutStageView::ClearUser { .. } => next_stage(stage, LogoutInput::Cleared),
        LogoutStageView::Done { .. } => stage,
    }
}

/// The stage after `n` pieces of work.
pub open spec fn stage_after(world: LogoutWorld, n: nat) -> LogoutStageView
    decreases n,
{
    if n == 0 {
        LogoutStageView::FindSession { name: "default"@ }
    } else {
        step(world, stage_after(world, (n - 1) as nat))
    }
}

/// Whether a user is logged in, by the context that the recognised view, where it is known, has
/// brought up to date.
pub open spec fn seen_logged_in(world: LogoutWorld, tree: A11yNode) -> bool {
    let screenshot = text_or(optional_text(world.screenshot), Seq::empty());
    match (world.identify)(tree, screenshot).main_view() {
        Some(id) if (world.knows)(id) => {
            (world.reduce)(id, tree, bytes_or_none(base64_bytes(screenshot)))
        },
        _ => world.context,
    }
}

/// Whether the logout plan is to be executed.
pub open spec fn is_to_execute(world: LogoutWorld) -> bool {
    &&& world.session is Some
    &&& world.tree matches Ok(tree)
    &&& seen_logged_in(world, tree)
}

/// The reply that a logout owes.
pub open spec fn owed_reply(world: LogoutWorld) -> LogoutReplyView {
    match (world.session, world.tree) {
        (None, _) => LogoutReplyView { success: false, error: Some("No session available"@) },
        (Some(_), Err(reason)) => LogoutReplyView {
            success: false,
            error: Some("Failed to get a11y tree: "@ + reason@),
        },
        (Some(_), Ok(tree)) => if seen_logged_in(world, tree) {
            LogoutReplyView {
                success: world.result.success,
                error: optional_text(world.result.error),
            }
        } else {
            LogoutReplyView { success: false, error: Some("Not logged in"@) }
        },
    }
}

/// A logout comes to the reply that it owes. On the way it executes the plan exactly where a user
/// is seen logged in, and clears the user on record exactly where that execution succeeds.
pub proof fn logout_replies_as_owed(world: LogoutWorld)
    ensures
        stage_after(world, 9) == (LogoutStageView::Done { reply: owed_reply(world) }),
        is_to_execute(world) <==> exists|n: nat| #[trigger] stage_after(world, n) is Execute,
        is_to_execute(world) && world.result.success <==> exists|n: nat| #[trigger]
            stage_after(world, n) is ClearUser,
        forall|n: nat| #[trigger]
            stage_after(world, n) matches LogoutStageView::ClearUser { session_id, .. }
                ==> world.session matches Some(session) && session_id == session.id@,
{
    reveal_with_fuel(stage_after, 10);
    assert forall|n: nat| n >= 9 implies #[trigger] stage_after(world, n) == stage_after(world, 9) by {
        done_stays_done(world, n);
    }
    if is_to_execute(world) {
        assert(stage_after(world, 5) is Execute || stage_after(world, 6) is Execute
            || stage_after(world, 7) is Execute);
        if world.result.success {
            assert(stage_after(world, 6) is ClearUser || stage_after(world, 7) is ClearUser
                || stage_after(world, 8) is ClearUser);
        }
    }
    assert forall|n: nat| (#[trigger] stage_after(world, n)) is Execute implies is_to_execute(world) by {
        if n < 9 {
            assert(n == 0 || n == 1 || n == 2 || n == 3 || n == 4 || n == 5 || n == 6 || n == 7 || n
                == 8);
        }
    }
    assert forall|n: nat| (#[trigger] stage_after(world, n)) is ClearUser implies is_to_execute(world)
        && world.result.success && stage_after(world, n) == (LogoutStageView::ClearUser {
        session_id: world.session->0.id@,
        reply: owed_reply(world),
    }) by {
        if n < 9 {
            assert(n == 0 || n == 1 || n == 2 || n == 3 || n == 4 || n == 5 || n == 6 || n == 7 || n
                == 8);
        }
    }
}

proof fn done_stays_done(world: LogoutWorld, n: nat)
    requires
        n >= 9,
        stage_after(world, 9) is Done,
    ensures
        stage_after(world, n) == stage_after(world, 9),
    decreases n,
{
    if n > 9 {
        done_stays_done(world, (n - 1) as nat);
    }
}

} // verus!
