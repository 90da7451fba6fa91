//! The login by a single request, which shows the QR code on the screen.

use vstd::prelude::*;

use crate::text::optional_text;

verus! {

/// The reply to a request to log in. The image of the QR code is left out where none was on the
/// screen; one that was may have no image.
#[derive(Debug, PartialEq, Eq)]
pub struct LoginReply {
    pub success: bool,
    pub status: &'static str,
    pub qr_data_url: Option<Option<String>>,
}

/// What a reply says.
pub struct LoginReplyView {
    pub success: bool,
    pub status: Seq<char>,
    pub qr_data_url: Option<Option<Seq<char>>>,
}

impl View for LoginReply {
    type V = LoginReplyView;

    open spec fn view(&self) -> LoginReplyView {
        LoginReplyView {
            success: self.success,
            status: self.status@,
            qr_data_url: match self.qr_data_url {
                Some(url) => Some(optional_text(url)),
                None => None,
            },
        }
    }
}

/// Where a request to log in stands. Each stage is a piece of work that is due, and holds what
/// the work needs.
#[derive(Debug)]
pub enum QrStage {
    /// Take a screenshot.
    TakeScreenshot,
    /// Look for a QR code in the screenshot.
    ReadCode { screenshot: String },
    /// Make the image of the QR code for `code`.
    MakeCode { code: String },
    /// Reply.
    Done { reply: LoginReply },
}

/// What came of the work that was due.
#[derive(Debug)]
pub enum QrInput {
    /// The screenshot, where it could be taken.
    Screenshot(Option<String>),
    /// The text of the QR code that was found.
    Read(Option<String>),
    /// The image of the QR code, where it could be made.
    Made(Option<String>),
}

/// A stage with its texts taken by their characters.
pub enum QrStageView {
    TakeScreenshot,
    ReadCode { screenshot: Seq<char> },
    MakeCode { code: Seq<char> },
    Done { reply: LoginReplyView },
}

impl View for QrStage {
    type V = QrStageView;

    open spec fn view(&self) -> QrStageView {
        match *self {
            QrStage::TakeScreenshot => QrStageView::TakeScreenshot,
            QrStage::ReadCode { screenshot } => QrStageView::ReadCode { screenshot: screenshot@ },
            QrStage::MakeCode { code } => QrStageView::MakeCode { code: code@ },
            QrStage::Done { reply } => QrStageView::Done { reply: reply@ },
        }
    }
}

/// Whether an input is an outcome of the work that is due at a stage.
pub open spec fn awaits(stage: QrStageView, input: QrInput) -> bool {
    match stage {
        QrStageView::TakeScreenshot => input is Screenshot,
        QrStageView::ReadCode { .. } => input is Read,
        QrStageView::MakeCode { .. } => input is Made,
        QrStageView::Done { .. } => false,
    }
}

/// The last stage of a request.
pub open spec fn replied(status: Seq<char>, qr_data_url: Option<Option<Seq<char>>>) -> QrStageView {
    QrStageView::Done { reply: LoginReplyView { success: false, status, qr_data_url } }
}

/// The stage after an input.
pub open spec fn next_stage(stage: QrStageView, input: QrInput) -> QrStageView {
    match (stage, input) {
        (QrStageView::TakeScreenshot, QrInput::Screenshot(taken)) => match taken {
            Some(screenshot) => QrStageView::ReadCode { screenshot: screenshot@ },
            None => replied("logged_out"@, None),
        },
        (QrStageView::ReadCode { .. }, QrInput::Read(found)) => match found {
            Some(code) => QrStageView::MakeCode { code: code@ },
            None => replied("qr_pending"@, None),
        },
        (QrStageView::MakeCode { .. }, QrInput::Made(url)) => {
            replied("qr_pending"@, Some(optional_text(url)))
        },
        _ => stage,
    }
}

impl QrStage {
    /// The first stage of a request.
    pub fn start() -> (stage: QrStage)
        ensures
            stage@ == QrStageView::TakeScreenshot,
    {
        QrStage::TakeScreenshot
    }
}

/// The stage that follows once the work of `stage` has come to `input`.
pub fn login(stage: QrStage, input: QrInput) -> (next: QrStage)
    requires
        awaits(stage@, input),
    ensures
        next@ == next_stage(stage@, input),
{
    match (stage, input) {
        (QrStage::TakeScreenshot, QrInput::Screenshot(taken)) => match taken {
            Some(screenshot) => QrStage::ReadCode { screenshot },
            None => QrStage::Done {
                reply: LoginReply { success: false, status: "logged_out", qr_data_url: None },
            },
        },
        (QrStage::ReadCode { .. }, QrInput::Read(found)) => match found {
            Some(code) => QrStage::MakeCode { code },
            None => QrStage::Done {
                reply: LoginReply { success: false, status: "qr_pending", qr_data_url: None },
            },
        },
        (QrStage::MakeCode { .. }, QrInput::Made(url)) => QrStage::Done {
            reply: LoginReply { success: false, status: "qr_pending", qr_data_url: Some(url) },
        },
        (stage, _) => stage,
    }
}

/// What the work of a request comes to, whenever it is done.
pub struct QrWorld {
    pub screenshot: Option<String>,
    pub read: spec_fn(Seq<char>) -> Option<String>,
    pub make: spec_fn(Seq<char>) -> Option<String>,
}

/// The stage after the work that is due was done.
pub open spec fn step(world: QrWorld, stage: QrStageView) -> QrStageView {
    match stage {
        QrStageView::TakeScreenshot => next_stage(stage, QrInput::Screenshot(world.screenshot)),
        QrStageView::ReadCode { screenshot } => {
            next_stage(stage, QrInput::Read((world.read)(screenshot)))
        },
        QrStageView::MakeCode { code } => next_stage(stage, QrInput::Made((world.make)(code))),
        QrStageView::Done { .. } => stage,
    }
}

/// The image of the QR code that is on the screen, where one is.
pub open spec fn shown_code(world: QrWorld, screenshot: Seq<char>) -> Option<Option<Seq<char>>> {
    match (world.read)(screenshot) {
        Some(code) => Some(optional_text((world.make)(code@))),
        None => None,
    }
}

/// A request never reports success. It reports a logged-out client where there is no screenshot,
/// and otherwise a pending QR code, with the image of the code on the screen.
pub proof fn request_replies_as_owed(world: QrWorld)
    ensures
        step(world, step(world, step(world, QrStageView::TakeScreenshot))) == (
        match world.screenshot {
            Some(screenshot) => replied("qr_pending"@, shown_code(world, screenshot@)),
            None => replied("logged_out"@, None),
        }),
{
}

} // verus!
