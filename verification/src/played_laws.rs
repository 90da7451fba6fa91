//! Login flows as they are played: the stages that `handle_login_ws` gives, one after the other,
//! and what they hold.

use vstd::prelude::*;

use crate::events::{fallback_event, is_terminal_login_event, subscription_event_to_login_event};
use crate::events::{ExecutionResult, LoginEventView, LoginSubscriptionEvent, SubscriptionEvent};
use crate::login_laws::{is_flow, is_running, lost, notes_stay_right, reported, settled};
use crate::login_laws::{reports_are_told_in_order, some_input, some_input_splits, stage_after, told};
use crate::login_ws::{awaits, default_timeout, handle_login_ws, login_ws};
use crate::login_ws::{LoginInput, LoginStage, LoginStageView, LoginWsParams};
use crate::session::Session;

verus! {

/// The time given is five minutes where the client names none, and otherwise what it names; an
/// account is new only where the client says so.
pub proof fn query_is_taken_as_given(
    timeout_ms: Option<u64>,
    new_account: Option<bool>,
    params: LoginWsParams,
    default_ms: u64,
)
    requires
        call_ensures(default_timeout, (), default_ms),
        call_ensures(LoginWsParams::from_query, (timeout_ms, new_account), params),
    ensures
        default_ms == 300_000,
        timeout_ms matches Some(ms) ==> params.timeout_ms == ms,
        timeout_ms is None ==> params.timeout_ms == 300_000,
        new_account matches Some(new) ==> params.new_account == new,
        new_account is None ==> !params.new_account,
{
}

/// Whether a flow with `params` can go through `stages`, one after the other, on `inputs`.
pub open spec fn is_played(
    params: LoginWsParams,
    stages: Seq<LoginStage>,
    inputs: Seq<LoginInput>,
) -> bool {
    &&& stages.len() == inputs.len() + 1
    &&& call_ensures(login_ws, (params,), stages[0])
    &&& forall|i: int|
        0 <= i < inputs.len() ==> awaits(stages[i]@, #[trigger] inputs[i]) && call_ensures(
            handle_login_ws,
            (stages[i], inputs[i]),
            stages[i + 1],
        )
}

/// A flow that is played is one whose last stage is the one after its inputs.
pub proof fn played_is_flow(
    params: LoginWsParams,
    stages: Seq<LoginStage>,
    inputs: Seq<LoginInput>,
)
    requires
        is_played(params, stages, inputs),
    ensures
        is_flow(params, inputs),
        stages.last()@ == stage_after(params, inputs),
        inputs.len() > 0 ==> is_played(params, stages.drop_last(), inputs.drop_last()),
    decreases inputs.len(),
{
    if inputs.len() > 0 {
        let before = inputs.drop_last();
        let earlier = stages.drop_last();
        assert(earlier[0] == stages[0]);
        assert forall|i: int| 0 <= i < before.len() implies awaits(
            earlier[i]@,
            #[trigger] before[i],
        ) && call_ensures(handle_login_ws, (earlier[i], before[i]), earlier[i + 1]) by {
            assert(before[i] == inputs[i]);
            assert(earlier[i] == stages[i] && earlier[i + 1] == stages[i + 1]);
        }
        assert(is_played(params, earlier, before));
        played_is_flow(params, earlier, before);
        assert(inputs.last() == inputs[inputs.len() - 1]);
        assert(earlier.last() == stages[inputs.len() - 1]);
        assert(stages.last() == stages[inputs.len() as int]);
    }
}

/// The stages of a flow, up to the launch, hold what the flow was started with.
pub open spec fn opening_is_kept(
    params: LoginWsParams,
    inputs: Seq<LoginInput>,
    stage: LoginStageView,
) -> bool {
    match stage {
        LoginStageView::Enter { params: kept } => kept == params && inputs.len() == 0,
        LoginStageView::FindSession { params: kept, name } => kept == params && name == "default"@
            && inputs.len() == 1 && inputs[0] == LoginInput::Entered(true),
        LoginStageView::Greet { params: kept, session, .. } => kept == params && inputs.len() == 2
            && inputs[1] == LoginInput::Session(Some(session)),
        LoginStageView::Launch { params: kept, session } => kept == params && inputs.len() == 3
            && inputs[1] == LoginInput::Session(Some(session)) && inputs[2] == LoginInput::Sent(
            true,
        ),
        _ => inputs.len() > 0,
    }
}

proof fn opening_stays(params: LoginWsParams, inputs: Seq<LoginInput>)
    requires
        is_flow(params, inputs),
    ensures
        opening_is_kept(params, inputs, stage_after(params, inputs)),
    decreases inputs.len(),
{
    if inputs.len() > 0 {
        opening_stays(params, inputs.drop_last());
    }
}

/// The login plan is launched for the session that was found in the flow, with the parameters that
/// the flow was started with: the same time given, and a new account only where one was asked for.
/// It is launched only once the greeting was sent.
pub proof fn plan_is_launched_as_asked(
    params: LoginWsParams,
    stages: Seq<LoginStage>,
    inputs: Seq<LoginInput>,
)
    requires
        is_played(params, stages, inputs),
        stages.last() is Launch,
    ensures
        stages.last() matches LoginStage::Launch { params: kept, session } && kept.timeout_ms
            == params.timeout_ms && kept.new_account == params.new_account && inputs.len() == 3
            && inputs[0] == LoginInput::Entered(true) && inputs[1] == LoginInput::Session(
            Some(session),
        ) && inputs[2] == LoginInput::Sent(true),
{
    played_is_flow(params, stages, inputs);
    opening_stays(params, inputs);
    let before = inputs.drop_last();
    let first = before.drop_last();
    opening_stays(params, before);
    opening_stays(params, first);
    assert(first[0] == inputs[0]);
}

/// The session is looked for under the name `default`, in every flow that is let in.
pub proof fn default_session_is_looked_for(
    params: LoginWsParams,
    stages: Seq<LoginStage>,
    inputs: Seq<LoginInput>,
)
    requires
        is_played(params, stages, inputs),
        inputs.len() == 1,
    ensures
        inputs[0] == LoginInput::Entered(true) ==> (stages.last() matches LoginStage::FindSession {
            name,
            ..
        } && name@ == "default"@),
        inputs[0] == LoginInput::Entered(false) ==> stages.last() is Refuse,
{
    played_is_flow(params, stages, inputs);
    assert(inputs.last() == inputs[0]);
    assert(stage_after(params, inputs.drop_last()) == (LoginStageView::Enter { params }));
}

/// What the refusal, the dismissal, the greeting and the news of a timeout say, in every flow.
pub proof fn fixed_events_say_the_same(
    params: LoginWsParams,
    stages: Seq<LoginStage>,
    inputs: Seq<LoginInput>,
)
    requires
        is_played(params, stages, inputs),
    ensures
        stages.last() matches LoginStage::Refuse { event } ==> (event matches
            LoginSubscriptionEvent::Error { message } && message@
            == "A login session is already in progress; reuse the active QR code"@),
        stages.last() matches LoginStage::Dismiss { event } ==> (event matches
            LoginSubscriptionEvent::Error { message } && message@ == "No session available"@),
        stages.last() matches LoginStage::Greet { event, .. } ==> (event matches
            LoginSubscriptionEvent::Status { message } && message@ == "Navigating login flow..."@),
        stages.last() matches LoginStage::TellTimeout { event, .. } ==> event is LoginTimeout,
{
    played_is_flow(params, stages, inputs);
    notes_stay_right(params, inputs);
}

/// A flow that is let in and finds a session greets with it; one that finds none is dismissed. A
/// greeting that could not be sent, and every answer that ends a flow, closes it.
pub proof fn opening_goes_step_by_step(
    params: LoginWsParams,
    session: Session,
    name: &'static str,
    event: LoginSubscriptionEvent,
    sent: bool,
    greet: LoginStage,
    dismiss: LoginStage,
    ungreeted: LoginStage,
    refused: LoginStage,
    dismissed: LoginStage,
    concluded: LoginStage,
)
    requires
        call_ensures(
            handle_login_ws,
            (LoginStage::FindSession { params, name }, LoginInput::Session(Some(session))),
            greet,
        ),
        call_ensures(
            handle_login_ws,
            (LoginStage::FindSession { params, name }, LoginInput::Session(None)),
            dismiss,
        ),
        call_ensures(
            handle_login_ws,
            (LoginStage::Greet { params, session, event }, LoginInput::Sent(false)),
            ungreeted,
        ),
        call_ensures(handle_login_ws, (LoginStage::Refuse { event }, LoginInput::Sent(sent)), refused),
        call_ensures(
            handle_login_ws,
            (LoginStage::Dismiss { event }, LoginInput::Sent(sent)),
            dismissed,
        ),
        call_ensures(
            handle_login_ws,
            (LoginStage::Conclude { event }, LoginInput::Sent(sent)),
            concluded,
        ),
    ensures
        greet matches LoginStage::Greet { params: kept, session: found, .. } && kept == params
            && found == session,
        dismiss is Dismiss,
        ungreeted is Closed,
        refused is Closed,
        dismissed is Closed,
        concluded is Closed,
{
}

/// Whether an input ends the wait for events: the plan has no more to report, the time ran out, or
/// the client is gone.
pub open spec fn ends_listening(input: LoginInput) -> bool {
    ||| input == LoginInput::Plan(None)
    ||| input is Timeout
    ||| input == LoginInput::Client(false)
    ||| input == LoginInput::Sent(false)
}

/// While the execution is under way, a flow goes on with events exactly until the plan has no more
/// to report, the time runs out or the client is gone.
pub proof fn listening_ends_for_a_reason(
    params: LoginWsParams,
    stages: Seq<LoginStage>,
    inputs: Seq<LoginInput>,
)
    requires
        is_played(params, stages, inputs),
    ensures
        stages.last() is Listen || stages.last() is MakeCode || stages.last() is Forward
            ==> !some_input(inputs, |input: LoginInput| ends_listening(input)),
        stages.last() is Join || stages.last() is TellTimeout ==> some_input(
            inputs,
            |input: LoginInput| ends_listening(input),
        ),
{
    played_is_flow(params, stages, inputs);
    listening_so_far(params, inputs);
}

proof fn listening_so_far(params: LoginWsParams, inputs: Seq<LoginInput>)
    requires
        is_flow(params, inputs),
    ensures
        ({
            let stage = stage_after(params, inputs);
            let ended = some_input(inputs, |input: LoginInput| ends_listening(input));
            &&& stage is Join || stage is TellTimeout ==> ended
            &&& !(stage is Join || stage is TellTimeout || stage is Conclude || stage is Closed)
                ==> !ended
        }),
    decreases inputs.len(),
{
    if inputs.len() > 0 {
        listening_so_far(params, inputs.drop_last());
        some_input_splits(inputs, |input: LoginInput| ends_listening(input));
    }
}

/// A flow that listens goes, by what comes in: to the end of the execution, uncancelled, when the
/// plan has no more to report; to the news of a timeout when the time runs out; to the end of the
/// cancelled execution when the client is gone; and it listens on, nothing noted, when the client
/// sends a message.
pub proof fn listening_goes_by_the_input(
    notes: crate::login_ws::LoginNotes,
    over: LoginStage,
    late: LoginStage,
    gone: LoginStage,
    there: LoginStage,
)
    requires
        call_ensures(handle_login_ws, (LoginStage::Listen { notes }, LoginInput::Plan(None)), over),
        call_ensures(handle_login_ws, (LoginStage::Listen { notes }, LoginInput::Timeout), late),
        call_ensures(handle_login_ws, (LoginStage::Listen { notes }, LoginInput::Client(false)), gone),
        call_ensures(handle_login_ws, (LoginStage::Listen { notes }, LoginInput::Client(true)), there),
    ensures
        over matches LoginStage::Join { notes: kept, cancel } && kept == notes && !cancel,
        late matches LoginStage::TellTimeout { notes: kept, event } && event is LoginTimeout
            && kept.sent_terminal && kept.server_timeout && kept.client_disconnected
            == notes.client_disconnected,
        gone matches LoginStage::Join { notes: kept, cancel } && cancel && kept.client_disconnected
            && kept.sent_terminal == notes.sent_terminal && kept.server_timeout
            == notes.server_timeout,
        there matches LoginStage::Listen { notes: kept } && kept == notes,
{
}

/// A report of type `qr` has its image made, of its own text, and is sent with it; any other
/// report is sent as it converts. What is sent is noted as terminal where it is, and never
/// forgotten.
pub proof fn report_is_forwarded(
    notes: crate::login_ws::LoginNotes,
    report: SubscriptionEvent,
    next: LoginStage,
    code: String,
    url: Option<String>,
    sending: LoginStage,
    plain: LoginSubscriptionEvent,
    with_image: LoginSubscriptionEvent,
    plain_is_terminal: bool,
)
    requires
        call_ensures(
            handle_login_ws,
            (LoginStage::Listen { notes }, LoginInput::Plan(Some(report))),
            next,
        ),
        call_ensures(
            handle_login_ws,
            (LoginStage::MakeCode { notes, report, code }, LoginInput::Code(url)),
            sending,
        ),
        call_ensures(subscription_event_to_login_event, (report, None), plain),
        call_ensures(subscription_event_to_login_event, (report, url), with_image),
        call_ensures(is_terminal_login_event, (&plain,), plain_is_terminal),
    ensures
        report.event_type@ == "qr"@ ==> (next matches LoginStage::MakeCode {
            notes: kept,
            report: same,
            code: text,
        } && kept == notes && same == report && (plain matches LoginSubscriptionEvent::Qr {
            qr_data,
            ..
        } && text@ == qr_data@)),
        report.event_type@ != "qr"@ ==> (next matches LoginStage::Forward { notes: kept, event }
            && event@ == plain@ && kept.sent_terminal == (notes.sent_terminal || plain_is_terminal)
            && kept.client_disconnected == notes.client_disconnected && kept.server_timeout
            == notes.server_timeout),
        sending matches LoginStage::Forward { notes: kept, event } && event@ == with_image@
            && kept.sent_terminal == (notes.sent_terminal || crate::events::is_terminal(
            with_image@,
        )) && kept.client_disconnected == notes.client_disconnected && kept.server_timeout
            == notes.server_timeout,
{
    crate::event_laws::event_types_differ(report.event_type@);
}

/// A report that was sent is followed by the next; one that could not be sent cancels the
/// execution. After the news of a timeout the execution, cancelled already, is waited for, and
/// that the client is gone is noted.
pub proof fn sending_goes_by_its_outcome(
    notes: crate::login_ws::LoginNotes,
    event: LoginSubscriptionEvent,
    sent: LoginStage,
    unsent: LoginStage,
    news_sent: LoginStage,
    news_unsent: LoginStage,
)
    requires
        call_ensures(
            handle_login_ws,
            (LoginStage::Forward { notes, event }, LoginInput::Sent(true)),
            sent,
        ),
        call_ensures(
            handle_login_ws,
            (LoginStage::Forward { notes, event }, LoginInput::Sent(false)),
            unsent,
        ),
        call_ensures(
            handle_login_ws,
            (LoginStage::TellTimeout { notes, event }, LoginInput::Sent(true)),
            news_sent,
        ),
        call_ensures(
            handle_login_ws,
            (LoginStage::TellTimeout { notes, event }, LoginInput::Sent(false)),
            news_unsent,
        ),
    ensures
        sent matches LoginStage::Listen { notes: kept } && kept == notes,
        unsent matches LoginStage::Join { notes: kept, cancel } && cancel
            && kept.client_disconnected && kept.sent_terminal == notes.sent_terminal
            && kept.server_timeout == notes.server_timeout,
        news_sent matches LoginStage::Join { notes: kept, .. } && kept == notes,
        news_unsent matches LoginStage::Join { notes: kept, .. } && kept.client_disconnected
            && kept.sent_terminal == notes.sent_terminal && kept.server_timeout
            == notes.server_timeout,
{
}

/// A launch begins to listen with nothing noted.
pub proof fn launch_begins_to_listen(params: LoginWsParams, session: Session, next: LoginStage)
    requires
        call_ensures(
            handle_login_ws,
            (LoginStage::Launch { params, session }, LoginInput::Launched),
            next,
        ),
    ensures
        next matches LoginStage::Listen { notes } && !notes.sent_terminal
            && !notes.client_disconnected && !notes.server_timeout,
{
}

/// When the execution ends while the client is there and nothing has settled the login, the client
/// is told what the fallback of the result says: a success as a success, whatever its error.
/// Otherwise the flow closes.
pub proof fn end_of_the_execution_is_told(
    params: LoginWsParams,
    stages: Seq<LoginStage>,
    inputs: Seq<LoginInput>,
    result: Option<ExecutionResult>,
    fallback: LoginSubscriptionEvent,
)
    requires
        is_played(params, stages, inputs),
        inputs.len() > 0,
        inputs.last() == LoginInput::Finished(result),
        call_ensures(fallback_event, (result, false), fallback),
    ensures
        lost(inputs) || settled(told(params, inputs)) ==> stages.last() is Closed,
        !lost(inputs) && !settled(told(params, inputs)) ==> (stages.last() matches
            LoginStage::Conclude { event } && event@ == fallback@ && ((result matches Some(r)
            && r.success) <==> event is LoginSuccess)),
{
    played_is_flow(params, stages, inputs);
    crate::login_laws::closing_event_fills_in(params, inputs, result);
}

/// Two flows that get the same inputs come to the same stage but for their parameters, which are
/// kept up to the launch: what the client asked for has no part in anything else.
pub proof fn parameters_only_reach_the_launch(
    one: LoginWsParams,
    other: LoginWsParams,
    inputs: Seq<LoginInput>,
)
    requires
        is_flow(one, inputs),
    ensures
        is_flow(other, inputs),
        told(one, inputs) == told(other, inputs),
        is_running(stage_after(one, inputs)) || stage_after(one, inputs) is Closed || stage_after(
            one,
            inputs,
        ) is Refuse || stage_after(one, inputs) is Dismiss || stage_after(one, inputs) is Conclude
            ==> stage_after(one, inputs) == stage_after(other, inputs),
        stage_after(one, inputs) is Enter ==> stage_after(other, inputs) is Enter,
        stage_after(one, inputs) matches LoginStageView::FindSession { name, .. } ==> (stage_after(
            other,
            inputs,
        ) matches LoginStageView::FindSession { name: same, .. } && same == name),
        stage_after(one, inputs) matches LoginStageView::Greet { session, event, .. } ==> (
        stage_after(other, inputs) matches LoginStageView::Greet {
            session: found,
            event: same,
            ..
        } && found == session && same == event),
        stage_after(one, inputs) matches LoginStageView::Launch { session, .. } ==> (stage_after(
            other,
            inputs,
        ) matches LoginStageView::Launch { session: found, .. } && found == session),
    decreases inputs.len(),
{
    if inputs.len() > 0 {
        parameters_only_reach_the_launch(one, other, inputs.drop_last());
    }
}

/// Whatever the work that is due comes to, the flow takes it.
pub proof fn every_outcome_is_taken(stage: LoginStage, input: LoginInput)
    ensures
        stage is Enter && input is Entered ==> awaits(stage@, input),
        stage is FindSession && input is Session ==> awaits(stage@, input),
        stage is Launch && input is Launched ==> awaits(stage@, input),
        stage is Listen && (input is Plan || input is Timeout || input is Client) ==> awaits(
            stage@,
            input,
        ),
        stage is MakeCode && input is Code ==> awaits(stage@, input),
        stage is Join && input is Finished ==> awaits(stage@, input),
        (stage is Refuse || stage is Dismiss || stage is Greet || stage is Forward
            || stage is TellTimeout || stage is Conclude) && input is Sent ==> awaits(stage@, input),
{
}

/// What was told in a flow that listens is the greeting and then every report, in order, each as
/// it was converted.
pub proof fn listening_flow_has_told_every_report(
    params: LoginWsParams,
    stages: Seq<LoginStage>,
    inputs: Seq<LoginInput>,
)
    requires
        is_played(params, stages, inputs),
        stages.last() is Listen,
    ensures
        told(params, inputs) == seq![
            LoginEventView::Status { message: "Navigating login flow..."@ },
        ] + reported(inputs),
{
    played_is_flow(params, stages, inputs);
    reports_are_told_in_order(params, inputs);
}

} // verus!
