//! The life of one inbound request, as states and events.
//!
//! A request is received, posted to the thread that owns its capability, and
//! executed there. A capability that answers at once brings it to
//! `RepliedSync`; one that was handed a response sink leaves it in
//! `AwaitingCallback` until the sink is invoked. A request whose capability or
//! connection goes away first is abandoned. A response frame is produced on
//! two transitions only, and on each path at most one of them is taken.

use vstd::prelude::*;

verus! {

/// Where an inbound request stands.
#[derive(Clone, Copy, Debug, PartialEq, Eq, Structural)]
pub enum RequestState {
    Received,
    Posted,
    Executing,
    RepliedSync,
    AwaitingCallback,
    RepliedAsync,
    Abandoned,
}

/// What can happen to an inbound request.
#[derive(Clone, Copy, Debug, PartialEq, Eq, Structural)]
pub enum RequestEvent {
    /// The command was posted to the owning thread.
    Post,
    /// The owning thread began to execute the command.
    Start,
    /// The capability returned its result.
    Return,
    /// The capability was handed a response sink and returned without a result.
    Defer,
    /// The response sink was invoked.
    Invoke,
    /// The capability was torn down, or the connection was lost.
    Drop,
}

/// Whether nothing can happen to a request any more.
pub open spec fn is_terminal(state: RequestState) -> bool {
    state is RepliedSync || state is RepliedAsync || state is Abandoned
}

/// The state after an event. An event that does not apply leaves the state as
/// it is.
pub open spec fn next_state(state: RequestState, event: RequestEvent) -> RequestState {
    match (state, event) {
        (RequestState::Received, RequestEvent::Post) => RequestState::Posted,
        (RequestState::Posted, RequestEvent::Start) => RequestState::Executing,
        (RequestState::Executing, RequestEvent::Return) => RequestState::RepliedSync,
        (RequestState::Executing, RequestEvent::Defer) => RequestState::AwaitingCallback,
        (RequestState::AwaitingCallback, RequestEvent::Invoke) => RequestState::RepliedAsync,
        (RequestState::Received, RequestEvent::Drop) => RequestState::Abandoned,
        (RequestState::Posted, RequestEvent::Drop) => RequestState::Abandoned,
        (RequestState::Executing, RequestEvent::Drop) => RequestState::Abandoned,
        (RequestState::AwaitingCallback, RequestEvent::Drop) => RequestState::Abandoned,
        _ => state,
    }
}

/// Whether an event in a state produces a response frame.
pub open spec fn emits_response(state: RequestState, event: RequestEvent) -> bool {
    ||| state is Executing && event is Return
    ||| state is AwaitingCallback && event is Invoke
}

/// The state after a sequence of events.
pub open spec fn state_after(state: RequestState, events: Seq<RequestEvent>) -> RequestState
    decreases events.len(),
{
    if events.len() == 0 {
        state
    } else {
        next_state(state_after(state, events.drop_last()), events.last())
    }
}

/// How many response frames a sequence of events produces.
pub open spec fn responses_during(state: RequestState, events: Seq<RequestEvent>) -> nat
    decreases events.len(),
{
    if events.len() == 0 {
        0
    } else {
        let before = state_after(state, events.drop_last());
        responses_during(state, events.drop_last()) + if emits_response(before, events.last()) {
            1nat
        } else {
            0nat
        }
    }
}

/// How many response frames a request in a given state has produced.
pub open spec fn responses_so_far(state: RequestState) -> nat {
    if state is RepliedSync || state is RepliedAsync {
        1
    } else {
        0
    }
}

/// Applies an event to a state, and says whether a response frame is to be
/// sent.
pub fn advance(state: RequestState, event: RequestEvent) -> (result: (RequestState, bool))
    ensures
        result.0 == next_state(state, event),
        result.1 == emits_response(state, event),
{
    match (state, event) {
        (RequestState::Received, RequestEvent::Post) => (RequestState::Posted, false),
        (RequestState::Posted, RequestEvent::Start) => (RequestState::Executing, false),
        (RequestState::Executing, RequestEvent::Return) => (RequestState::RepliedSync, true),
        (RequestState::Executing, RequestEvent::Defer) => (RequestState::AwaitingCallback, false),
        (RequestState::AwaitingCallback, RequestEvent::Invoke) => (
            RequestState::RepliedAsync,
            true,
        ),
        (RequestState::Received, RequestEvent::Drop) => (RequestState::Abandoned, false),
        (RequestState::Posted, RequestEvent::Drop) => (RequestState::Abandoned, false),
        (RequestState::Executing, RequestEvent::Drop) => (RequestState::Abandoned, false),
        (RequestState::AwaitingCallback, RequestEvent::Drop) => (RequestState::Abandoned, false),
        _ => (state, false),
    }
}

/// Whatever happens to a request, and in whatever order, the response frames
/// it has produced are those its state accounts for: one if it was answered,
/// none otherwise. So no request is answered twice, and an abandoned request
/// is never answered.
pub proof fn lemma_responses_follow_state(events: Seq<RequestEvent>)
    ensures
        responses_during(RequestState::Received, events) == responses_so_far(
            state_after(RequestState::Received, events),
        ),
        responses_during(RequestState::Received, events) <= 1,
    decreases events.len(),
{
    if events.len() > 0 {
        lemma_responses_follow_state(events.drop_last());
    }
}

/// A request that was answered or abandoned stays as it is, and produces no
/// further frame, whatever happens afterwards: a second invocation of a
/// response sink has no effect.
pub proof fn lemma_terminal_states_absorb(state: RequestState, events: Seq<RequestEvent>)
    requires
        is_terminal(state),
    ensures
        state_after(state, events) == state,
        responses_during(state, events) == 0,
    decreases events.len(),
{
    if events.len() > 0 {
        lemma_terminal_states_absorb(state, events.drop_last());
    }
}

} // verus!
