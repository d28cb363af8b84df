//! The course of one dispatch: the request is sent, the service answers or
//! fails, the body is drained, the result is handed out. The caller does
//! the sending and the draining; what follows from each outcome is decided
//! here.

use vstd::prelude::*;
use vstd::utf8::encode_utf8;
use crate::error::{invocation_cause, DispatchError};
use crate::request::{Request, RequestView};
use crate::response::{lemma_capture_keeps_text, RespBody, RespBodyView};
use crate::text::lossy_text;

verus! {

/// Where a dispatch stands.
#[derive(Clone, Copy, Debug, PartialEq, Eq, Structural)]
pub enum Stage {
    /// The request is with the service.
    Dispatched,
    /// The service answered with `status`; its body is being read.
    Draining { status: u16 },
    /// The result was handed out.
    Completed,
    /// The failure was handed out.
    Failed,
}

/// What the caller reports back.
#[derive(Clone, Debug, PartialEq, Eq)]
pub enum Event {
    /// The service completed the call with a response of this status.
    Responded { status: u16 },
    /// The service's call did not complete; `detail` describes its error.
    Failed { detail: String },
    /// The response's body was read to its end.
    Drained { bytes: Vec<u8> },
}

pub ghost enum EventView {
    Responded { status: u16 },
    Failed { detail: Seq<char> },
    Drained { bytes: Seq<u8> },
}

impl View for Event {
    type V = EventView;

    open spec fn view(&self) -> EventView {
        match *self {
            Event::Responded { status } => EventView::Responded { status },
            Event::Failed { detail } => EventView::Failed { detail: detail@ },
            Event::Drained { bytes } => EventView::Drained { bytes: bytes@ },
        }
    }
}

/// What the caller is to do next.
#[derive(Debug, PartialEq, Eq)]
pub enum Action {
    /// Hand this request to the service and await its completion.
    Send(Request),
    /// Read the response's body to its end.
    Drain,
    /// Return this to whoever asked for the dispatch.
    Finish(Result<RespBody, DispatchError>),
    /// Nothing: the event did not belong to this stage.
    Idle,
}

pub ghost enum ActionView {
    Send(RequestView),
    Drain,
    Finish(Result<RespBodyView, Seq<char>>),
    Idle,
}

impl View for Action {
    type V = ActionView;

    open spec fn view(&self) -> ActionView {
        match *self {
            Action::Send(request) => ActionView::Send(request@),
            Action::Drain => ActionView::Drain,
            Action::Finish(Ok(resp)) => ActionView::Finish(Ok(resp@)),
            Action::Finish(Err(err)) => ActionView::Finish(Err(err@)),
            Action::Idle => ActionView::Idle,
        }
    }
}

impl Stage {
    /// No event changes anything from here on.
    pub open spec fn is_final(self) -> bool {
        self is Completed || self is Failed
    }
}

/// The transition relation: from `stage`, on `event`, the dispatch moves to
/// `next` and asks for `action`.
///
/// A response moves on to the reading of its body, whatever its status. A
/// failed call ends the dispatch with the failure. A drained body ends it
/// with the captured response. Any other event leaves the stage as it is
/// and asks for nothing.
pub open spec fn transition(stage: Stage, event: EventView, next: Stage, action: ActionView) -> bool {
    match (stage, event) {
        (Stage::Dispatched, EventView::Responded { status }) => {
            &&& next == Stage::Draining { status }
            &&& action == ActionView::Drain
        },
        (Stage::Dispatched, EventView::Failed { detail }) => {
            &&& next == Stage::Failed
            &&& action == ActionView::Finish(Err(invocation_cause(detail)))
        },
        (Stage::Draining { status }, EventView::Drained { bytes }) => {
            &&& next == Stage::Completed
            &&& action matches ActionView::Finish(Ok(resp))
            &&& resp.reflects(status, bytes)
        },
        _ => next == stage && action == ActionView::Idle,
    }
}

/// Starts a dispatch: the one request of this dispatch is to be sent.
pub fn begin(request: Request) -> (out: (Stage, Action))
    ensures
        out.0 == Stage::Dispatched,
        out.1@ == ActionView::Send(request@),
{
    (Stage::Dispatched, Action::Send(request))
}

/// Takes one event and says where the dispatch stands after it and what is
/// to be done.
pub fn step(stage: Stage, event: Event) -> (out: (Stage, Action))
    ensures
        transition(stage, event@, out.0, out.1@),
{
    match stage {
        Stage::Dispatched => match event {
            Event::Responded { status } => (Stage::Draining { status }, Action::Drain),
            Event::Failed { detail } => (
                Stage::Failed,
                Action::Finish(Err(DispatchError::invocation(detail.as_str()))),
            ),
            Event::Drained { .. } => (stage, Action::Idle),
        },
        Stage::Draining { status } => match event {
            Event::Drained { bytes } => (
                Stage::Completed,
                Action::Finish(Ok(RespBody::capture(status, bytes.as_slice()))),
            ),
            _ => (stage, Action::Idle),
        },
        _ => (stage, Action::Idle),
    }
}

/// Equal events from equal stages lead to equal stages and equal actions:
/// two dispatches that are told the same are answered the same.
pub proof fn lemma_transition_is_a_function(
    stage: Stage,
    event: EventView,
    next1: Stage,
    action1: ActionView,
    next2: Stage,
    action2: ActionView,
)
    requires
        transition(stage, event, next1, action1),
        transition(stage, event, next2, action2),
    ensures
        next1 == next2,
        action1 == action2,
{
}

/// A service that answers leads to a captured response, whatever the status
/// it answered with: the body is read, then the result is handed out with
/// the status kept and the body decoded, and no failure is reported.
pub proof fn lemma_any_status_completes(
    status: u16,
    bytes: Seq<u8>,
    mid: Stage,
    first: ActionView,
    end: Stage,
    last: ActionView,
)
    requires
        transition(Stage::Dispatched, EventView::Responded { status }, mid, first),
        transition(mid, EventView::Drained { bytes }, end, last),
    ensures
        first == ActionView::Drain,
        end == Stage::Completed,
        last == ActionView::Finish(Ok(RespBodyView { status, body: lossy_text(bytes) })),
        last->Finish_0->Ok_0.reflects(status, bytes),
{
}

/// Where the service's body is the UTF-8 encoding of a text, the result
/// holds exactly that text; an empty body gives the empty text.
pub proof fn lemma_answer_text_is_kept(
    status: u16,
    text: Seq<char>,
    mid: Stage,
    first: ActionView,
    end: Stage,
    last: ActionView,
)
    requires
        transition(Stage::Dispatched, EventView::Responded { status }, mid, first),
        transition(mid, EventView::Drained { bytes: encode_utf8(text) }, end, last),
    ensures
        last == ActionView::Finish(Ok(RespBodyView { status, body: text })),
        encode_utf8(Seq::<char>::empty()) == Seq::<u8>::empty(),
{
    lemma_capture_keeps_text(last->Finish_0->Ok_0, status, text);
}

/// A failure is reported exactly when the service's call did not complete,
/// and then with that call's own description.
pub proof fn lemma_failure_iff_call_failed(
    stage: Stage,
    event: EventView,
    next: Stage,
    action: ActionView,
)
    requires
        transition(stage, event, next, action),
    ensures
        action is Finish && action->Finish_0 is Err <==> stage is Dispatched && event is Failed,
        next is Failed <==> stage is Failed || (stage is Dispatched && event is Failed),
        stage is Dispatched && event is Failed ==> action == ActionView::Finish(
            Err(invocation_cause(event->detail)),
        ),
{
}

/// Once the result or the failure was handed out, no event changes the
/// stage or asks for anything: each dispatch reports once.
pub proof fn lemma_final_stage_is_silent(
    stage: Stage,
    event: EventView,
    next: Stage,
    action: ActionView,
)
    requires
        stage.is_final(),
        transition(stage, event, next, action),
    ensures
        next == stage,
        action == ActionView::Idle,
{
}

/// No event asks for a request to be sent: the one that `begin` asks for is
/// the only one of its dispatch.
pub proof fn lemma_nothing_is_sent_twice(
    stage: Stage,
    event: EventView,
    next: Stage,
    action: ActionView,
)
    requires
        transition(stage, event, next, action),
    ensures
        !(action is Send),
{
}

} // verus!
