//! The session registry: which capability answers at which address, and what
//! becomes of a frame that arrives.

use crate::apps_service_delegate::{
    after_run, command_of, completion_frame, invocation_frame, requested_command, sink_replies,
    step_of_run, sync_reply, AppsServiceDelegate, AppsServiceDelegateTask, CommandView,
    OutcomeView, StepView, TaskView, ThreadBound,
};
use crate::errors::BridgeError;
use crate::frame::{frame_bytes, Frame, FrameKind, FrameView};
use crate::dispatch::RequestState;
use crate::payload::{payload_bytes, MessageView};
use crate::transport::{after_sending, TransportView};
use crate::schema::{lemma_decode_inverts_encode, well_formed, Direction};
use crate::TrackerId;
use std::collections::HashMap;
use vstd::prelude::*;

verus! {

/// The address of a session as one number: the service in the upper half, the
/// object in the lower.
pub open spec fn address_key(service_id: TrackerId, object_id: TrackerId) -> u64 {
    (service_id as u64 * 0x1_0000_0000 + object_id as u64) as u64
}

/// The address of a session as one number.
fn make_address_key(service_id: TrackerId, object_id: TrackerId) -> (key: u64)
    ensures
        key == address_key(service_id, object_id),
{
    (service_id as u64) * 0x1_0000_0000u64 + (object_id as u64)
}

/// What is to be done with a frame that arrived.
#[derive(Debug, PartialEq, Eq)]
pub enum Dispatch {
    /// Post the task to the thread that owns its capability.
    Post(AppsServiceDelegateTask),
    /// Hand the event to the session.
    Event(AppsServiceDelegate),
    /// The frame answers a request of this side: it belongs to the pending
    /// requests, whatever its address.
    Response(u64),
    /// Drop the frame, for the reason given. The connection stands.
    Dropped(BridgeError),
}

/// What is to be done with a frame, as values.
pub enum DispatchView {
    Post(TaskView),
    Event(AppsServiceDelegate),
    Response(u64),
    Dropped(BridgeError),
}

impl View for Dispatch {
    type V = DispatchView;

    open spec fn view(&self) -> DispatchView {
        match self {
            Dispatch::Post(task) => DispatchView::Post(task@),
            Dispatch::Event(session) => DispatchView::Event(*session),
            Dispatch::Response(id) => DispatchView::Response(*id),
            Dispatch::Dropped(reason) => DispatchView::Dropped(*reason),
        }
    }
}

/// The session at an address, if one is registered there.
pub open spec fn session_at(
    sessions: Map<(TrackerId, TrackerId), ThreadBound>,
    service_id: TrackerId,
    object_id: TrackerId,
) -> Option<AppsServiceDelegate> {
    if sessions.contains_key((service_id, object_id)) {
        Some(
            AppsServiceDelegate { xpcom: sessions[(service_id, object_id)], service_id, object_id },
        )
    } else {
        None
    }
}

/// What becomes of a frame. A response is set aside for the pending
/// requests. Any other frame goes to the session at its address: an event as
/// it is, a request as the task that carries its command. A frame for an
/// address without session is dropped, and so is a request whose payload asks
/// for no command of the session.
pub open spec fn routed(
    sessions: Map<(TrackerId, TrackerId), ThreadBound>,
    frame: FrameView,
) -> DispatchView {
    match frame.kind {
        FrameKind::Response(id) => DispatchView::Response(id),
        FrameKind::Event => match session_at(sessions, frame.service_id, frame.object_id) {
            Some(session) => DispatchView::Event(session),
            None => DispatchView::Dropped(BridgeError::UnknownAddress),
        },
        FrameKind::Request(id) => match session_at(sessions, frame.service_id, frame.object_id) {
            Some(session) => match requested_command(frame.payload) {
                Ok(command) => DispatchView::Post(session.task_for(command, id)),
                Err(e) => DispatchView::Dropped(BridgeError::DecodeError(e)),
            },
            None => DispatchView::Dropped(BridgeError::UnknownAddress),
        },
    }
}

/// A request or an event for an address without session is dropped, whatever
/// it carries.
pub proof fn lemma_unknown_address_is_dropped(
    sessions: Map<(TrackerId, TrackerId), ThreadBound>,
    frame: FrameView,
)
    requires
        !(frame.kind is Response),
        !sessions.contains_key((frame.service_id, frame.object_id)),
    ensures
        routed(sessions, frame) == DispatchView::Dropped(BridgeError::UnknownAddress),
{
}

/// What becomes of a frame depends on the session at its own address alone:
/// sessions at other addresses may come and go without a difference to it.
pub proof fn lemma_other_sessions_do_not_matter(
    sessions: Map<(TrackerId, TrackerId), ThreadBound>,
    others: Map<(TrackerId, TrackerId), ThreadBound>,
    frame: FrameView,
)
    requires
        session_at(sessions, frame.service_id, frame.object_id) == session_at(
            others,
            frame.service_id,
            frame.object_id,
        ),
    ensures
        routed(sessions, frame) == routed(others, frame),
{
}

/// A request with a payload that a command of the session was encoded to is
/// posted as one task, which carries that command, the identifier of the
/// request and the address of the session.
pub proof fn lemma_valid_request_is_posted(
    sessions: Map<(TrackerId, TrackerId), ThreadBound>,
    frame: FrameView,
    request_id: u64,
    message: MessageView,
)
    requires
        sessions.contains_key((frame.service_id, frame.object_id)),
        frame.kind == FrameKind::Request(request_id),
        well_formed(Direction::ToClient, message),
        command_of(message) is Some,
        frame.payload == payload_bytes(message),
    ensures
        routed(sessions, frame) == DispatchView::Post(
            TaskView {
                xpcom: sessions[(frame.service_id, frame.object_id)],
                command: command_of(message).unwrap(),
                service_id: frame.service_id,
                object_id: frame.object_id,
                request_id,
                state: RequestState::Posted,
            },
        ),
{
    lemma_decode_inverts_encode(Direction::ToClient, message);
}

/// The answer to a command: the message that the invocation of its sink
/// chose, or for a command without sink the message that the outcome of the
/// call gives.
pub open spec fn answer_of(
    command: CommandView,
    outcome: OutcomeView,
    resolved: bool,
) -> MessageView {
    match sink_replies(command) {
        Some((success, error)) => if resolved {
            success
        } else {
            error
        },
        None => sync_reply(command, outcome).unwrap(),
    }
}

/// From a request to its response. A request for a command of a registered
/// session is posted as one task; run on the thread that owns the capability,
/// the task asks for one call; and when the call has returned, or the sink
/// that went with it is first invoked, an open transport that lets the answer
/// through is longer by exactly one frame: the response from the session's
/// address, with the identifier of the request and the answer as its payload.
pub proof fn lemma_request_is_answered_on_the_wire(
    sessions: Map<(TrackerId, TrackerId), ThreadBound>,
    frame: FrameView,
    request_id: u64,
    message: MessageView,
    outcome: OutcomeView,
    resolved: bool,
    transport: TransportView,
)
    requires
        sessions.contains_key((frame.service_id, frame.object_id)),
        frame.kind == FrameKind::Request(request_id),
        well_formed(Direction::ToClient, message),
        command_of(message) is Some,
        frame.payload == payload_bytes(message),
        transport.open,
        payload_bytes(answer_of(command_of(message).unwrap(), outcome, resolved)).len()
            <= transport.limit,
    ensures
        ({
            let owner = sessions[(frame.service_id, frame.object_id)].owning_thread;
            let response = FrameView {
                service_id: frame.service_id,
                object_id: frame.object_id,
                kind: FrameKind::Response(request_id),
                payload: payload_bytes(
                    answer_of(command_of(message).unwrap(), outcome, resolved),
                ),
            };
            let answered = TransportView {
                outbound: transport.outbound + frame_bytes(response),
                ..transport
            };
            routed(sessions, frame) matches DispatchView::Post(task) && match step_of_run(
                task,
                owner,
            ) {
                StepView::Call => after_sending(
                    transport,
                    completion_frame(after_run(task, owner), outcome),
                ) == answered,
                StepView::CallWithSink(sink) => after_sending(
                    transport,
                    invocation_frame(sink, resolved),
                ) == answered,
                StepView::Idle => false,
            }
        }),
{
    lemma_valid_request_is_posted(sessions, frame, request_id, message);
}

/// The sessions of one connection, by address.
pub struct SessionRegistry {
    sessions: HashMap<u64, ThreadBound>,
}

impl View for SessionRegistry {
    type V = Map<(TrackerId, TrackerId), ThreadBound>;

    /// The capability registered at each address, the service first.
    closed spec fn view(&self) -> Map<(TrackerId, TrackerId), ThreadBound> {
        Map::new(
            |a: (TrackerId, TrackerId)| self.sessions@.contains_key(address_key(a.0, a.1)),
            |a: (TrackerId, TrackerId)| self.sessions@[address_key(a.0, a.1)],
        )
    }
}

impl SessionRegistry {
    /// A registry without sessions.
    pub fn new() -> (registry: Self)
        ensures
            registry@ == Map::<(TrackerId, TrackerId), ThreadBound>::empty(),
    {
        let registry = SessionRegistry { sessions: HashMap::new() };
        registry
    }

    /// Installs the session of `capability` at the address, in place of the
    /// one that was there, which is returned.
    pub fn register(
        &mut self,
        service_id: TrackerId,
        object_id: TrackerId,
        capability: ThreadBound,
    ) -> (previous: Option<ThreadBound>)
        ensures
            final(self)@ == old(self)@.insert((service_id, object_id), capability),
            previous == if old(self)@.contains_key((service_id, object_id)) {
                Some(old(self)@[(service_id, object_id)])
            } else {
                None
            },
    {
        broadcast use vstd::std_specs::hash::group_hash_axioms;

        let key = make_address_key(service_id, object_id);
        let previous = self.sessions.insert(key, capability);
        previous
    }

    /// Removes the session at the address, and returns its capability. Tasks
    /// of the session that are under way are not touched.
    pub fn unregister(&mut self, service_id: TrackerId, object_id: TrackerId) -> (removed: Option<
        ThreadBound,
    >)
        ensures
            final(self)@ == old(self)@.remove((service_id, object_id)),
            removed == if old(self)@.contains_key((service_id, object_id)) {
                Some(old(self)@[(service_id, object_id)])
            } else {
                None
            },
    {
        broadcast use vstd::std_specs::hash::group_hash_axioms;

        let key = make_address_key(service_id, object_id);
        let removed = self.sessions.remove(&key);
        removed
    }

    /// Removes every session, as when the connection closes.
    pub fn clear(&mut self)
        ensures
            final(self)@ == Map::<(TrackerId, TrackerId), ThreadBound>::empty(),
    {
        self.sessions.clear();
    }

    /// The session at the address, if there is one.
    pub fn session(&self, service_id: TrackerId, object_id: TrackerId) -> (session: Option<
        AppsServiceDelegate,
    >)
        ensures
            session == session_at(self@, service_id, object_id),
    {
        broadcast use vstd::std_specs::hash::group_hash_axioms;

        let key = make_address_key(service_id, object_id);
        match self.sessions.get(&key) {
            Some(capability) => Some(AppsServiceDelegate::new(*capability, service_id, object_id)),
            None => None,
        }
    }

    /// Decides what becomes of a frame. The registry itself is never changed
    /// by a frame.
    pub fn dispatch(&self, frame: &Frame) -> (dispatch: Dispatch)
        ensures
            dispatch@ == routed(self@, frame@),
    {
        let request_id = match frame.kind {
            FrameKind::Response(id) => {
                return Dispatch::Response(id);
            },
            FrameKind::Request(id) => Some(id),
            FrameKind::Event => None,
        };
        let session = match self.session(frame.service_id, frame.object_id) {
            Some(session) => session,
            None => {
                return Dispatch::Dropped(BridgeError::UnknownAddress);
            },
        };
        match request_id {
            Some(id) => match session.on_request(frame, id) {
                Ok(task) => Dispatch::Post(task),
                Err(e) => Dispatch::Dropped(BridgeError::DecodeError(e)),
            },
            None => {
                session.on_event(frame.payload.as_slice());
                Dispatch::Event(session)
            },
        }
    }
}

} // verus!
