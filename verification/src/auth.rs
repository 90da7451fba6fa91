//! The check of the login by one look at the desktop.

use vstd::prelude::*;

use crate::events::text_or;
use crate::observed::{observed_auth_status, shown_status, IdentifiedStates};
use crate::session::Session;
use crate::text::optional_text;
use crate::tree::A11yNode;

verus! {

/// The time that a look at the desktop may take, in milliseconds.
pub const OBSERVATION_TIMEOUT_MS: u64 = 30_000;

/// The reply to a check of the login. The user is left out where there is no session to name one;
/// a session may have none.
#[derive(Debug, PartialEq, Eq)]
pub struct AuthReply {
    pub status: &'static str,
    pub logged_in_user: Option<Option<String>>,
}

/// What a reply says.
pub struct AuthReplyView {
    pub status: Seq<char>,
    pub logged_in_user: Option<Option<Seq<char>>>,
}

impl View for AuthReply {
    type V = AuthReplyView;

    open spec fn view(&self) -> AuthReplyView {
        AuthReplyView {
            status: self.status@,
            logged_in_user: match self.logged_in_user {
                Some(user) => Some(optional_text(user)),
                None => None,
            },
        }
    }
}

/// Where a check of the login stands. Each stage is a piece of work that is due, and holds what
/// the work needs.
#[derive(Debug)]
pub enum AuthStage {
    /// Look up the session of this name.
    FindSession { name: &'static str },
    /// Look for the process of the messenger.
    FindProcess { session: Session },
    /// Read the accessibility tree.
    ReadTree { session: Session, timeout_ms: u64 },
    /// Take a screenshot.
    TakeScreenshot { session: Session, timeout_ms: u64, tree: A11yNode },
    /// Recognise the views.
    Identify { session: Session, tree: A11yNode, screenshot: String },
    /// Reply.
    Done { reply: AuthReply },
}

/// What came of the work that was due.
#[derive(Debug)]
pub enum AuthInput {
    /// The session that was found.
    Session(Option<Session>),
    /// Whether the messenger runs.
    Process(bool),
    /// The tree, where it could be read.
    Tree(Option<A11yNode>),
    /// The screenshot, where it could be taken.
    Screenshot(Option<String>),
    /// The views that were recognised.
    Identified(IdentifiedStates),
}

/// A stage with its texts taken by their characters.
pub enum AuthStageView {
    FindSession { name: Seq<char> },
    FindProcess { session: Session },
    ReadTree { session: Session, timeout_ms: u64 },
    TakeScreenshot { session: Session, timeout_ms: u64, tree: A11yNode },
    Identify { session: Session, tree: A11yNode, screenshot: Seq<char> },
    Done { reply: AuthReplyView },
}

impl View for AuthStage {
    type V = AuthStageView;

    open spec fn view(&self) -> AuthStageView {
        match *self {
            AuthStage::FindSession { name } => AuthStageView::FindSession { name: name@ },
            AuthStage::FindProcess { session } => AuthStageView::FindProcess { session },
            AuthStage::ReadTree { session, timeout_ms } => AuthStageView::ReadTree {
                session,
                timeout_ms,
            },
            AuthStage::TakeScreenshot { session, timeout_ms, tree } => {
                AuthStageView::TakeScreenshot { session, timeout_ms, tree }
            },
            AuthStage::Identify { session, tree, screenshot } => AuthStageView::Identify {
                session,
                tree,
                screenshot: screenshot@,
            },
            AuthStage::Done { reply } => AuthStageView::Done { reply: reply@ },
        }
    }
}

/// Whether an input is an outcome of the work that is due at a stage.
pub open spec fn awaits(stage: AuthStageView, input: AuthInput) -> bool {
    match stage {
        AuthStageView::FindSession { .. } => input is Session,
        AuthStageView::FindProcess { .. } => input is Process,
        AuthStageView::ReadTree { .. } => input is Tree,
        AuthStageView::TakeScreenshot { .. } => input is Screenshot,
        AuthStageView::Identify { .. } => input is Identified,
        AuthStageView::Done { .. } => false,
    }
}

/// The last stage of a check that found `session`.
pub open spec fn answered(session: Session, status: Seq<char>) -> AuthStageView {
    AuthStageView::Done {
        reply: AuthReplyView {
            status,
            logged_in_user: Some(optional_text(session.logged_in_user)),
        },
    }
}

/// The stage after an input.
pub open spec fn next_stage(stage: AuthStageView, input: AuthInput) -> AuthStageView {
    match (stage, input) {
        (AuthStageView::FindSession { .. }, AuthInput::Session(Some(session))) => {
            AuthStageView::FindProcess { session }
        },
        (AuthStageView::FindSession { .. }, AuthInput::Session(None)) => AuthStageView::Done {
            reply: AuthReplyView { status: "unknown"@, logged_in_user: None },
        },
        (AuthStageView::FindProcess { session }, AuthInput::Process(running)) => if running {
            AuthStageView::ReadTree { session, timeout_ms: OBSERVATION_TIMEOUT_MS }
        } else {
            answered(session, "app_not_running"@)
        },
        (AuthStageView::ReadTree { session, timeout_ms }, AuthInput::Tree(Some(tree))) => {
            AuthStageView::TakeScreenshot { session, timeout_ms, tree }
        },
        (AuthStageView::ReadTree { session, .. }, AuthInput::Tree(None)) => {
            answered(session, "unknown"@)
        },
        (
            AuthStageView::TakeScreenshot { session, tree, .. },
            AuthInput::Screenshot(screenshot),
        ) => AuthStageView::Identify {
            session,
            tree,
            screenshot: text_or(optional_text(screenshot), Seq::empty()),
        },
        (AuthStageView::Identify { session, tree, .. }, AuthInput::Identified(identified)) => {
            answered(session, shown_status(tree, identified.main_view()))
        },
        _ => stage,
    }
}

impl AuthStage {
    /// The first stage of a check.
    pub fn start() -> (stage: AuthStage)
        ensures
            stage@ == (AuthStageView::FindSession { name: "default"@ }),
    {
        AuthStage::FindSession { name: "default" }
    }
}

fn answer(session: Session, status: &'static str) -> (stage: AuthStage)
    ensures
        stage@ == answered(session, status@),
{
    AuthStage::Done { reply: AuthReply { status, logged_in_user: Some(session.logged_in_user) } }
}

/// The stage that follows once the work of `stage` has come to `input`.
pub fn auth_status(stage: AuthStage, input: AuthInput) -> (next: AuthStage)
    requires
        awaits(stage@, input),
    ensures
        next@ == next_stage(stage@, input),
{
    match (stage, input) {
        (AuthStage::FindSession { .. }, AuthInput::Session(found)) => match found {
            Some(session) => AuthStage::FindProcess { session },
            None => AuthStage::Done {
                reply: AuthReply { status: "unknown", logged_in_user: None },
            },
        },
        (AuthStage::FindProcess { session }, AuthInput::Process(running)) => {
            if running {
                AuthStage::ReadTree { session, timeout_ms: OBSERVATION_TIMEOUT_MS }
            } else {
                answer(session, "app_not_running")
            }
        },
        (AuthStage::ReadTree { session, timeout_ms }, AuthInput::Tree(read)) => match read {
            Some(tree) => AuthStage::TakeScreenshot { session, timeout_ms, tree },
            None => answer(session, "unknown"),
        },
        (AuthStage::TakeScreenshot { session, tree, .. }, AuthInput::Screenshot(taken)) => {
            let screenshot: String = match taken {
                Some(s) => s,
                None => String::new(),
            };
            AuthStage::Identify { session, tree, screenshot }
        },
        (AuthStage::Identify { session, tree, .. }, AuthInput::Identified(identified)) => {
            let status: &'static str = observed_auth_status(&tree, &identified);
            answer(session, status)
        },
        (stage, _) => stage,
    }
}

/// What the work of a check comes to, whenever it is done.
pub struct AuthWorld {
    pub session: Option<Session>,
    pub running: bool,
    pub tree: Option<A11yNode>,
    pub screenshot: Option<String>,
    pub identify: spec_fn(A11yNode, Seq<char>) -> IdentifiedStates,
}

/// The stage after the work that is due was done.
pub open spec fn step(world: AuthWorld, stage: AuthStageView) -> AuthStageView {
    match stage {
        AuthStageView::FindSession { .. } => next_stage(stage, AuthInput::Session(world.session)),
        AuthStageView::FindProcess { .. } => next_stage(stage, AuthInput::Process(world.running)),
        AuthStageView::ReadTree { .. } => next_stage(stage, AuthInput::Tree(world.tree)),
        AuthStageView::TakeScreenshot { .. } => {
            next_stage(stage, AuthInput::Screenshot(world.screenshot))
        },
        AuthStageView::Identify { tree, screenshot, .. } => {
            next_stage(stage, AuthInput::Identified((world.identify)(tree, screenshot)))
        },
        AuthStageView::Done { .. } => stage,
    }
}

/// The reply that a check owes.
pub open spec fn owed_reply(world: AuthWorld) -> AuthReplyView {
    match world.session {
        None => AuthReplyView { status: "unknown"@, logged_in_user: None },
        Some(session) => AuthReplyView {
            status: if !world.running {
                "app_not_running"@
            } else {
                match world.tree {
                    None => "unknown"@,
                    Some(tree) => {
                        let screenshot = text_or(optional_text(world.screenshot), Seq::empty());
                        shown_status(tree, (world.identify)(tree, screenshot).main_view())
                    },
                }
            },
            logged_in_user: Some(optional_text(session.logged_in_user)),
        },
    }
}

/// A check comes to the reply that it owes: unknown without a session, not running without the
/// process, unknown without a tree, and otherwise what the tree and the recognised view show. A
/// screenshot that failed counts as an empty one.
pub proof fn check_replies_as_owed(world: AuthWorld)
    ensures
        ({
            let first = step(world, AuthStageView::FindSession { name: "default"@ });
            let last = step(world, step(world, step(world, step(world, first))));
            last == (AuthStageView::Done { reply: owed_reply(world) })
        }),
{
}

} // verus!
