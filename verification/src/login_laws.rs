//! What holds of every login flow, whatever the slot, the session, the plan, the timer and the
//! client do.

use vstd::prelude::*;

use crate::events::{carried_text, closing_event, is_terminal, outcome_of, told_event};
use crate::events::{ExecutionResult, LoginEventView, SubscriptionEvent};
use crate::login_ws::{awaits, dismissal, greeting, next_stage, refusal, told_at};
use crate::login_ws::{LoginInput, LoginStageView, LoginWsParams};
use crate::outside::text_members;
use crate::text::optional_text;

verus! {

/// The stage that a flow is in after `inputs`.
pub open spec fn stage_after(params: LoginWsParams, inputs: Seq<LoginInput>) -> LoginStageView
    decreases inputs.len(),
{
    if inputs.len() == 0 {
        LoginStageView::Enter { params }
    } else {
        next_stage(stage_after(params, inputs.drop_last()), inputs.last())
    }
}

/// Whether `inputs` can come to a flow: each is an outcome of the work that was due.
pub open spec fn is_flow(params: LoginWsParams, inputs: Seq<LoginInput>) -> bool
    decreases inputs.len(),
{
    inputs.len() > 0 ==> {
        &&& is_flow(params, inputs.drop_last())
        &&& awaits(stage_after(params, inputs.drop_last()), inputs.last())
    }
}

/// The events that were sent to the client, in order, up to the last of `inputs`.
pub open spec fn told(params: LoginWsParams, inputs: Seq<LoginInput>) -> Seq<LoginEventView>
    decreases inputs.len(),
{
    if inputs.len() == 0 {
        Seq::empty()
    } else {
        let before = told(params, inputs.drop_last());
        match told_at(stage_after(params, inputs.drop_last())) {
            Some(event) => before.push(event),
            None => before,
        }
    }
}

/// Whether the execution is cancelled on entering a stage.
pub open spec fn cancels(stage: LoginStageView) -> bool {
    stage is TellTimeout || (stage matches LoginStageView::Join { cancel, .. } && cancel)
}

/// Whether the execution was cancelled up to the stage after `inputs`.
pub open spec fn was_cancelled(params: LoginWsParams, inputs: Seq<LoginInput>) -> bool
    decreases inputs.len(),
{
    ||| cancels(stage_after(params, inputs))
    ||| inputs.len() > 0 && was_cancelled(params, inputs.drop_last())
}

/// Whether the execution of the plan is under way at a stage.
pub open spec fn is_running(stage: LoginStageView) -> bool {
    ||| stage is Listen
    ||| stage is MakeCode
    ||| stage is Forward
    ||| stage is TellTimeout
    ||| stage is Join
}

/// Whether a flow keeps the slot at a stage: from its entry to its end.
pub open spec fn keeps_slot(stage: LoginStageView) -> bool {
    !(stage is Enter || stage is Refuse || stage is Closed)
}

/// Whether an input shows that the client is gone.
pub open spec fn is_loss(input: LoginInput) -> bool {
    input == LoginInput::Sent(false) || input == LoginInput::Client(false)
}

/// Whether some input is as `pred` says.
pub open spec fn some_input(inputs: Seq<LoginInput>, pred: spec_fn(LoginInput) -> bool) -> bool {
    exists|i: int| 0 <= i < inputs.len() && pred(#[trigger] inputs[i])
}

/// Whether the client was found to be gone.
pub open spec fn lost(inputs: Seq<LoginInput>) -> bool {
    some_input(inputs, |input: LoginInput| is_loss(input))
}

/// Whether some event settles the login.
pub open spec fn settled(events: Seq<LoginEventView>) -> bool {
    exists|i: int| 0 <= i < events.len() && is_terminal(#[trigger] events[i])
}

/// An input is found in a list before its last entry, or is the last.
pub proof fn some_input_splits(inputs: Seq<LoginInput>, pred: spec_fn(LoginInput) -> bool)
    requires
        inputs.len() > 0,
    ensures
        some_input(inputs, pred) <==> some_input(inputs.drop_last(), pred) || pred(inputs.last()),
{
    let before = inputs.drop_last();
    if some_input(before, pred) {
        let i = choose|i: int| 0 <= i < before.len() && pred(#[trigger] before[i]);
        assert(inputs[i] == before[i]);
    }
    if some_input(inputs, pred) && !pred(inputs.last()) {
        let i = choose|i: int| 0 <= i < inputs.len() && pred(#[trigger] inputs[i]);
        assert(before[i] == inputs[i]);
    }
}

proof fn settled_splits(events: Seq<LoginEventView>, event: LoginEventView)
    ensures
        settled(events.push(event)) <==> settled(events) || is_terminal(event),
{
    let all = events.push(event);
    if settled(events) {
        let i = choose|i: int| 0 <= i < events.len() && is_terminal(#[trigger] events[i]);
        assert(all[i] == events[i]);
    }
    if is_terminal(event) {
        assert(all[events.len() as int] == event);
    }
    if settled(all) && !is_terminal(event) {
        let i = choose|i: int| 0 <= i < all.len() && is_terminal(#[trigger] all[i]);
        assert(events[i] == all[i]);
    }
}

/// What the notes of a flow record: whether an event that settles the login was sent, whether the
/// client is gone, and that a timeout is such an event.
pub open spec fn notes_are_right(params: LoginWsParams, inputs: Seq<LoginInput>) -> bool {
    let events = told(params, inputs);
    match stage_after(params, inputs) {
        LoginStageView::Listen { notes } => {
            &&& notes.sent_terminal == settled(events)
            &&& !notes.client_disconnected
            &&& !notes.server_timeout
            &&& !lost(inputs)
        },
        LoginStageView::MakeCode { notes, .. } => {
            &&& notes.sent_terminal == settled(events)
            &&& !notes.client_disconnected
            &&& !notes.server_timeout
            &&& !lost(inputs)
        },
        LoginStageView::Forward { notes, event } => {
            &&& notes.sent_terminal == (settled(events) || is_terminal(event))
            &&& !notes.client_disconnected
            &&& !notes.server_timeout
            &&& !lost(inputs)
        },
        LoginStageView::TellTimeout { notes, event } => {
            &&& notes.sent_terminal
            &&& event == LoginEventView::LoginTimeout
            &&& !notes.client_disconnected
            &&& notes.server_timeout
            &&& !lost(inputs)
        },
        LoginStageView::Join { notes, .. } => {
            &&& notes.sent_terminal == settled(events)
            &&& notes.client_disconnected == lost(inputs)
            &&& notes.server_timeout ==> notes.sent_terminal
        },
        LoginStageView::Conclude { event } => {
            &&& is_terminal(event)
            &&& !settled(events)
            &&& !lost(inputs)
        },
        LoginStageView::Closed => lost(inputs) || settled(events),
        LoginStageView::Refuse { event } => event == refusal() && events.len() == 0 && !lost(inputs),
        LoginStageView::Dismiss { event } => event == dismissal() && events.len() == 0 && !lost(
            inputs,
        ),
        LoginStageView::Greet { event, .. } => event == greeting() && events.len() == 0 && !lost(
            inputs,
        ),
        LoginStageView::Launch { .. } => events.len() == 1 && events[0] == greeting() && !lost(
            inputs,
        ),
        _ => events.len() == 0 && !lost(inputs),
    }
}

/// In every flow the notes are right.
pub proof fn notes_stay_right(params: LoginWsParams, inputs: Seq<LoginInput>)
    requires
        is_flow(params, inputs),
    ensures
        notes_are_right(params, inputs),
    decreases inputs.len(),
{
    if inputs.len() > 0 {
        let before = inputs.drop_last();
        notes_stay_right(params, before);
        some_input_splits(inputs, |input: LoginInput| is_loss(input));
        match told_at(stage_after(params, before)) {
            Some(event) => {
                settled_splits(told(params, before), event);
            },
            None => {},
        }
    }
}

/// A client that stays is always told how its login came out: a flow that has ended sent an event
/// that settles it, or lost the client.
pub proof fn flow_is_settled(params: LoginWsParams, inputs: Seq<LoginInput>)
    requires
        is_flow(params, inputs),
        stage_after(params, inputs) is Closed,
    ensures
        lost(inputs) || settled(told(params, inputs)),
{
    notes_stay_right(params, inputs);
}

/// A client that is gone is sent nothing more.
pub proof fn lost_client_is_told_nothing(params: LoginWsParams, inputs: Seq<LoginInput>)
    requires
        is_flow(params, inputs),
        lost(inputs),
    ensures
        told_at(stage_after(params, inputs)) is None,
{
    notes_stay_right(params, inputs);
}

/// The closing event is sent exactly when the execution ends while the client is there and
/// nothing has settled the login. That the time ran out never has a part in it: a timeout was
/// told already.
pub proof fn closing_event_fills_in(
    params: LoginWsParams,
    inputs: Seq<LoginInput>,
    result: Option<ExecutionResult>,
)
    requires
        is_flow(params, inputs),
        inputs.len() > 0,
        inputs.last() == LoginInput::Finished(result),
    ensures
        stage_after(params, inputs) == (if lost(inputs) || settled(told(params, inputs)) {
            LoginStageView::Closed
        } else {
            LoginStageView::Conclude { event: closing_event(outcome_of(result), false) }
        }),
{
    let before = inputs.drop_last();
    notes_stay_right(params, before);
    some_input_splits(inputs, |input: LoginInput| is_loss(input));
}

/// A flow that was not let in sends the refusal and nothing else, and starts nothing.
pub proof fn refused_connection(params: LoginWsParams, inputs: Seq<LoginInput>)
    requires
        is_flow(params, inputs),
        inputs.len() > 0,
        inputs[0] == LoginInput::Entered(false),
    ensures
        inputs.len() <= 2,
        inputs.len() == 1 ==> stage_after(params, inputs) == (LoginStageView::Refuse {
            event: refusal(),
        }) && told(params, inputs) == Seq::<LoginEventView>::empty(),
        inputs.len() == 2 ==> stage_after(params, inputs) is Closed && told(params, inputs)
            == seq![refusal()],
    decreases inputs.len(),
{
    let before = inputs.drop_last();
    if inputs.len() > 1 {
        assert(before[0] == inputs[0]);
        refused_connection(params, before);
    } else {
        assert(told(params, before) =~= Seq::empty());
        assert(inputs.last() == inputs[0]);
    }
}

/// A flow that finds no session says so and nothing else, and starts nothing.
pub proof fn connection_without_session(params: LoginWsParams, inputs: Seq<LoginInput>)
    requires
        is_flow(params, inputs),
        inputs.len() > 1,
        inputs[0] == LoginInput::Entered(true),
        inputs[1] == LoginInput::Session(None),
    ensures
        inputs.len() <= 3,
        inputs.len() == 2 ==> stage_after(params, inputs) == (LoginStageView::Dismiss {
            event: dismissal(),
        }) && told(params, inputs) == Seq::<LoginEventView>::empty(),
        inputs.len() == 3 ==> stage_after(params, inputs) is Closed && told(params, inputs)
            == seq![dismissal()],
    decreases inputs.len(),
{
    let before = inputs.drop_last();
    if inputs.len() > 2 {
        assert(before[0] == inputs[0] && before[1] == inputs[1]);
        connection_without_session(params, before);
    } else {
        let first = before.drop_last();
        assert(first =~= Seq::empty());
        assert(stage_after(params, first) == (LoginStageView::Enter { params }));
        assert(told(params, first) =~= Seq::empty());
        assert(before.last() == inputs[0]);
        assert(stage_after(params, before) is FindSession);
        assert(told(params, before) =~= Seq::empty());
        assert(inputs.last() == inputs[1]);
    }
}

/// The execution is under way exactly from its start to its end. A flow does not close before,
/// and keeps the slot meanwhile.
pub proof fn execution_is_joined(params: LoginWsParams, inputs: Seq<LoginInput>)
    requires
        is_flow(params, inputs),
    ensures
        is_running(stage_after(params, inputs)) <==> {
            &&& some_input(inputs, |input: LoginInput| input is Launched)
            &&& !some_input(inputs, |input: LoginInput| input is Finished)
        },
        is_running(stage_after(params, inputs)) ==> keeps_slot(stage_after(params, inputs)),
{
    launch_and_finish(params, inputs);
}

/// Before the launch and after the end of the execution a flow is in no stage that runs it.
proof fn launch_and_finish(params: LoginWsParams, inputs: Seq<LoginInput>)
    requires
        is_flow(params, inputs),
    ensures
        ({
            let stage = stage_after(params, inputs);
            let launched = some_input(inputs, |input: LoginInput| input is Launched);
            let finished = some_input(inputs, |input: LoginInput| input is Finished);
            &&& is_running(stage) ==> launched && !finished
            &&& stage is Conclude ==> launched && finished
            &&& stage is Closed ==> launched == finished
            &&& !is_running(stage) && !(stage is Conclude) && !(stage is Closed) ==> !launched
                && !finished
        }),
    decreases inputs.len(),
{
    if inputs.len() > 0 {
        launch_and_finish(params, inputs.drop_last());
        some_input_splits(inputs, |input: LoginInput| input is Launched);
        some_input_splits(inputs, |input: LoginInput| input is Finished);
    }
}

/// Whether an input is a reason to cancel the execution.
pub open spec fn is_reason_to_cancel(input: LoginInput) -> bool {
    input is Timeout || is_loss(input)
}

/// When a flow comes to wait for the end of the execution, the execution has been cancelled
/// exactly where the time ran out or the client is gone; a plan that has no more to report ends
/// by itself.
pub proof fn execution_is_cancelled_for_a_reason(params: LoginWsParams, inputs: Seq<LoginInput>)
    requires
        is_flow(params, inputs),
        stage_after(params, inputs) is Join,
    ensures
        was_cancelled(params, inputs) <==> some_input(
            inputs,
            |input: LoginInput| is_reason_to_cancel(input),
        ),
{
    cancelled_so_far(params, inputs);
}

proof fn cancelled_so_far(params: LoginWsParams, inputs: Seq<LoginInput>)
    requires
        is_flow(params, inputs),
    ensures
        ({
            let stage = stage_after(params, inputs);
            let reason = some_input(inputs, |input: LoginInput| is_reason_to_cancel(input));
            &&& stage is Join || stage is TellTimeout ==> was_cancelled(params, inputs) == reason
            &&& !(stage is Join || stage is TellTimeout || stage is Conclude || stage is Closed)
                ==> !was_cancelled(params, inputs) && !reason
        }),
    decreases inputs.len(),
{
    if inputs.len() > 0 {
        cancelled_so_far(params, inputs.drop_last());
        some_input_splits(inputs, |input: LoginInput| is_reason_to_cancel(input));
    }
}

/// A login whose time runs out is told so.
pub proof fn timeout_is_told(params: LoginWsParams, inputs: Seq<LoginInput>)
    requires
        is_flow(params, inputs),
        some_input(inputs, |input: LoginInput| input is Timeout),
    ensures
        ({
            ||| stage_after(params, inputs) is TellTimeout && told_at(stage_after(params, inputs))
                == Some(LoginEventView::LoginTimeout)
            ||| told(params, inputs).contains(LoginEventView::LoginTimeout)
        }),
    decreases inputs.len(),
{
    let before = inputs.drop_last();
    let pred = |input: LoginInput| input is Timeout;
    some_input_splits(inputs, pred);
    if some_input(before, pred) {
        timeout_is_told(params, before);
        let earlier = told(params, before);
        match told_at(stage_after(params, before)) {
            Some(event) => {
                assert(told(params, inputs) == earlier.push(event));
                assert(earlier.push(event)[earlier.len() as int] == event);
                if earlier.contains(LoginEventView::LoginTimeout) {
                    let i = choose|i: int|
                        0 <= i < earlier.len() && earlier[i] == LoginEventView::LoginTimeout;
                    assert(earlier.push(event)[i] == LoginEventView::LoginTimeout);
                }
            },
            None => {},
        }
    }
}

/// What the client is told of a report of the plan, with the image of its QR code.
pub open spec fn told_of(report: SubscriptionEvent, qr_data_url: Option<Seq<char>>) -> LoginEventView {
    told_event(
        report.event_type@,
        carried_text(report.event_type@, text_members(report.data)),
        qr_data_url,
    )
}

/// Whether a QR code goes with a report of the plan.
pub open spec fn has_code(report: SubscriptionEvent) -> bool {
    report.event_type@ == "qr"@
}

/// What the reports among `inputs` say, in order. One with a QR code counts once the image was
/// made or could not be made.
pub open spec fn reported(inputs: Seq<LoginInput>) -> Seq<LoginEventView>
    decreases inputs.len(),
{
    if inputs.len() == 0 {
        Seq::empty()
    } else {
        let before = reported(inputs.drop_last());
        match inputs.last() {
            LoginInput::Plan(Some(report)) => if has_code(report) {
                before
            } else {
                before.push(told_of(report, None))
            },
            LoginInput::Code(url) => match inputs.drop_last().last() {
                LoginInput::Plan(Some(report)) => before.push(told_of(report, optional_text(url))),
                _ => before,
            },
            _ => before,
        }
    }
}

/// Once the execution was started, the client is told the greeting, then what the plan reports,
/// all of it and in order, and after that at most one event more: that the time ran out, or the
/// closing event.
pub proof fn reports_are_told_in_order(params: LoginWsParams, inputs: Seq<LoginInput>)
    requires
        is_flow(params, inputs),
    ensures
        ({
            let events = told(params, inputs);
            let expected = seq![greeting()] + reported(inputs);
            match stage_after(params, inputs) {
                LoginStageView::Listen { .. } => events == expected,
                LoginStageView::MakeCode { report, .. } => events == expected && inputs.len() > 0
                    && inputs.last() == LoginInput::Plan(Some(report)) && has_code(report),
                LoginStageView::Forward { event, .. } => events.push(event) == expected,
                LoginStageView::TellTimeout { .. } => events == expected,
                LoginStageView::Join { notes, .. } => events == (if notes.server_timeout {
                    expected.push(LoginEventView::LoginTimeout)
                } else {
                    expected
                }),
                LoginStageView::Conclude { .. } => events == expected,
                LoginStageView::Closed => some_input(inputs, |input: LoginInput| input is Launched)
                    ==> {
                    ||| events == expected
                    ||| events.len() == expected.len() + 1 && events.drop_last() == expected
                        && is_terminal(events.last())
                },
                _ => reported(inputs).len() == 0,
            }
        }),
    decreases inputs.len(),
{
    if inputs.len() > 0 {
        let before = inputs.drop_last();
        reports_are_told_in_order(params, before);
        notes_stay_right(params, before);
        launch_and_finish(params, before);
        some_input_splits(inputs, |input: LoginInput| input is Launched);
        let expected = seq![greeting()] + reported(inputs);
        let earlier = seq![greeting()] + reported(before);
        if reported(inputs).len() > reported(before).len() {
            assert(expected =~= earlier.push(reported(inputs).last()));
        }
        match stage_after(params, before) {
            LoginStageView::Launch { .. } => {
                assert(told(params, inputs) =~= expected);
            },
            LoginStageView::Join { notes, .. } => {
                if notes.server_timeout {
                    assert(told(params, inputs).drop_last() =~= expected);
                }
            },
            LoginStageView::Conclude { .. } => {
                assert(told(params, inputs).drop_last() =~= expected);
            },
            LoginStageView::Listen { .. } => {
                match inputs.last() {
                    LoginInput::Plan(Some(report)) => {
                        assert(has_code(report) ==> stage_after(params, inputs) is MakeCode);
                    },
                    _ => {},
                }
            },
            _ => {},
        }
    }
}

/// The image that goes with a QR event is asked for the very text that the event tells.
pub proof fn code_is_of_the_told_text(
    params: LoginWsParams,
    inputs: Seq<LoginInput>,
    url: Option<String>,
)
    requires
        is_flow(params, inputs),
        stage_after(params, inputs) is MakeCode,
    ensures
        stage_after(params, inputs) matches LoginStageView::MakeCode { notes, code, .. }
            && next_stage(stage_after(params, inputs), LoginInput::Code(url)) == (
        LoginStageView::Forward {
            notes,
            event: LoginEventView::Qr {
                qr_data: code,
                qr_binary_data: None,
                qr_data_url: optional_text(url),
            },
        }),
{
    reveal_strlit("status");
    reveal_strlit("qr");
    assert("status"@.len() == 6 && "qr"@.len() == 2);
}

/// The login connections of a server: the stage of each, and which of them has the slot.
pub struct Connections {
    pub stages: Map<int, LoginStageView>,
    pub holder: Option<int>,
}

/// Whether an input can come to connection `id`. A flow is let in exactly while no other has
/// the slot.
pub open spec fn can_take(server: Connections, id: int, input: LoginInput) -> bool {
    &&& server.stages.contains_key(id)
    &&& awaits(server.stages[id], input)
    &&& input matches LoginInput::Entered(free) ==> free == (server.holder is None)
}

/// The connections after an input to connection `id`. A flow that was let in has the slot; one
/// that closes gives it back.
pub open spec fn after_input(server: Connections, id: int, input: LoginInput) -> Connections {
    let next = next_stage(server.stages[id], input);
    Connections {
        stages: server.stages.insert(id, next),
        holder: if input == LoginInput::Entered(true) {
            Some(id)
        } else if next is Closed && server.holder == Some(id) {
            None
        } else {
            server.holder
        },
    }
}

/// The connections after a new one was made.
pub open spec fn after_connect(server: Connections, id: int, params: LoginWsParams) -> Connections {
    Connections { stages: server.stages.insert(id, LoginStageView::Enter { params }), ..server }
}

/// Whether the slot is with the one connection that keeps it, if any.
pub open spec fn slot_is_right(server: Connections) -> bool {
    &&& forall|id: int| #[trigger]
        server.stages.contains_key(id) ==> (keeps_slot(server.stages[id]) <==> server.holder
            == Some(id))
    &&& server.holder matches Some(id) ==> server.stages.contains_key(id)
}

/// A server without connections has the slot free.
pub proof fn slot_starts_free(server: Connections)
    requires
        server.stages == Map::<int, LoginStageView>::empty(),
        server.holder is None,
    ensures
        slot_is_right(server),
{
}

/// A new connection does not touch the slot.
pub proof fn connecting_keeps_the_slot(server: Connections, id: int, params: LoginWsParams)
    requires
        slot_is_right(server),
        !server.stages.contains_key(id),
    ensures
        slot_is_right(after_connect(server, id, params)),
{
}

/// Whatever a connection does next, the slot stays with the one that keeps it.
pub proof fn inputs_keep_the_slot(server: Connections, id: int, input: LoginInput)
    requires
        slot_is_right(server),
        can_take(server, id, input),
    ensures
        slot_is_right(after_input(server, id, input)),
{
}

/// Only one login runs at a time: two connections whose execution is under way are the same. While
/// it runs, any other connection that asks is refused.
pub proof fn one_login_at_a_time(server: Connections, id: int, other: int)
    requires
        slot_is_right(server),
        server.stages.contains_key(id),
        server.stages.contains_key(other),
        is_running(server.stages[id]),
    ensures
        is_running(server.stages[other]) ==> id == other,
        forall|input: LoginInput|
            server.stages[other] is Enter && #[trigger] can_take(server, other, input) ==> input
                == LoginInput::Entered(false) && after_input(server, other, input).stages[other]
                == (LoginStageView::Refuse { event: refusal() }),
{
}

} // verus!
