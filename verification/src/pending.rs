//! The requester's side: the requests that are in flight, and how each of
//! them ends.
//!
//! A request is in flight from the moment its frame is queued until the
//! response with its identifier arrives, or until the connection is closed.
//! Responses are matched by identifier alone, so they may arrive in any order.

use crate::errors::{DecodeError, RequestError};
use crate::frame::{Frame, FrameKind, FrameView};
use crate::messages::{GeckoBridgeFromClient, GeckoBridgeToClient};
use crate::payload::{payload_bytes, MessageView};
use crate::schema::{answer_indices, answers_to, parse_payload, Direction};
use crate::transport::{after_send, send_result, Transport, TransportView};
use crate::TrackerId;
use vstd::prelude::*;

verus! {

/// A request in flight: its identifier, and the index of the variant that was
/// sent, which decides what may answer it.
#[derive(Clone, Copy, Debug, PartialEq, Eq, Structural)]
pub struct PendingRequest {
    pub request_id: u64,
    pub request_index: u32,
}

/// How a request ended.
#[derive(Debug, PartialEq, Eq)]
pub enum Outcome {
    /// The success variant arrived.
    Success(GeckoBridgeToClient),
    /// The error variant arrived.
    Error(GeckoBridgeToClient),
}

/// What a response frame did to the requests in flight.
#[derive(Debug, PartialEq, Eq)]
pub enum Completion {
    /// The request with this identifier ended, and is in flight no more.
    Resolved(u64, Outcome),
    /// No request with this identifier is in flight. The frame is dropped.
    Unmatched(u64),
    /// The payload is no answer to the request with this identifier. The
    /// frame is dropped and the request stays in flight.
    Dropped(u64, DecodeError),
    /// The frame is no response.
    NotAResponse,
}

/// How a request ended, as values.
pub enum OutcomeView {
    Success(MessageView),
    Error(MessageView),
}

impl View for Outcome {
    type V = OutcomeView;

    open spec fn view(&self) -> OutcomeView {
        match self {
            Outcome::Success(m) => OutcomeView::Success(m@),
            Outcome::Error(m) => OutcomeView::Error(m@),
        }
    }
}

/// What a response frame did, as values.
pub enum CompletionView {
    Resolved(u64, OutcomeView),
    Unmatched(u64),
    Dropped(u64, DecodeError),
    NotAResponse,
}

impl View for Completion {
    type V = CompletionView;

    open spec fn view(&self) -> CompletionView {
        match self {
            Completion::Resolved(id, outcome) => CompletionView::Resolved(*id, outcome@),
            Completion::Unmatched(id) => CompletionView::Unmatched(*id),
            Completion::Dropped(id, e) => CompletionView::Dropped(*id, *e),
            Completion::NotAResponse => CompletionView::NotAResponse,
        }
    }
}

/// The request with the given identifier, if one is in flight.
pub open spec fn lookup(pending: Seq<PendingRequest>, request_id: u64) -> Option<PendingRequest>
    decreases pending.len(),
{
    if pending.len() == 0 {
        None
    } else if pending.last().request_id == request_id {
        Some(pending.last())
    } else {
        lookup(pending.drop_last(), request_id)
    }
}

/// The requests in flight but for those with the given identifier, in the
/// same order.
pub open spec fn without(pending: Seq<PendingRequest>, request_id: u64) -> Seq<PendingRequest>
    decreases pending.len(),
{
    if pending.len() == 0 {
        pending
    } else if pending.last().request_id == request_id {
        without(pending.drop_last(), request_id)
    } else {
        without(pending.drop_last(), request_id).push(pending.last())
    }
}

/// The identifiers of the requests in flight, in the same order.
pub open spec fn identifiers(pending: Seq<PendingRequest>) -> Seq<u64> {
    Seq::new(pending.len(), |i: int| pending[i].request_id)
}

/// What a payload means as the answer to the request that was sent as the
/// variant `request_index`: how the request ended, or why the payload is no
/// answer to it.
pub open spec fn settle(request_index: u32, payload: Seq<u8>) -> Result<OutcomeView, DecodeError> {
    match parse_payload(Direction::ToClient, payload) {
        Ok(m) => match answer_indices(Direction::FromClient, request_index) {
            Some((success, error)) => {
                if m.index == success {
                    Ok(OutcomeView::Success(m))
                } else if m.index == error {
                    Ok(OutcomeView::Error(m))
                } else {
                    Err(DecodeError::Unexpected(m.index))
                }
            },
            None => Err(DecodeError::Unexpected(m.index)),
        },
        Err(e) => Err(e),
    }
}

/// What a frame does to the requests in flight.
pub open spec fn completion_of(pending: Seq<PendingRequest>, frame: FrameView) -> CompletionView {
    match frame.kind {
        FrameKind::Response(id) => match lookup(pending, id) {
            Some(p) => match settle(p.request_index, frame.payload) {
                Ok(outcome) => CompletionView::Resolved(id, outcome),
                Err(e) => CompletionView::Dropped(id, e),
            },
            None => CompletionView::Unmatched(id),
        },
        _ => CompletionView::NotAResponse,
    }
}

/// The requests in flight after a frame: the request that the frame resolved
/// is gone, and nothing else has changed.
pub open spec fn after_response(pending: Seq<PendingRequest>, frame: FrameView) -> Seq<
    PendingRequest,
> {
    match completion_of(pending, frame) {
        CompletionView::Resolved(id, _) => without(pending, id),
        _ => pending,
    }
}

/// The identifier after `id`: identifiers start over after the last one.
pub open spec fn following(id: u64) -> u64 {
    if id == u64::MAX {
        0
    } else {
        (id + 1) as u64
    }
}

/// Whether a request can be sent under an identifier: the message must be a
/// request, the identifier must be free, and the frame must be one that the
/// transport sends.
pub open spec fn request_result(
    pending: Seq<PendingRequest>,
    request_id: u64,
    service_id: TrackerId,
    object_id: TrackerId,
    request: MessageView,
    transport: TransportView,
) -> Result<u64, RequestError> {
    if answer_indices(Direction::FromClient, request.index) is None {
        Err(RequestError::NotARequest(request.index))
    } else if lookup(pending, request_id) is Some {
        Err(RequestError::IdInUse(request_id))
    } else {
        match send_result(transport, request_frame(service_id, object_id, request_id, request)) {
            Ok(_) => Ok(request_id),
            Err(e) => Err(RequestError::Transport(e)),
        }
    }
}

/// The frame that carries a request.
pub open spec fn request_frame(
    service_id: TrackerId,
    object_id: TrackerId,
    request_id: u64,
    request: MessageView,
) -> FrameView {
    FrameView {
        service_id,
        object_id,
        kind: FrameKind::Request(request_id),
        payload: payload_bytes(request),
    }
}

/// Whether no two requests share an identifier.
pub open spec fn distinct(pending: Seq<PendingRequest>) -> bool {
    forall|i: int, j: int|
        0 <= i < pending.len() && 0 <= j < pending.len() && i != j ==> (
        #[trigger] pending[i]).request_id != (#[trigger] pending[j]).request_id
}

/// Taking an identifier away leaves only requests that were there, so it
/// keeps identifiers distinct.
proof fn lemma_without_keeps_distinct(pending: Seq<PendingRequest>, request_id: u64)
    requires
        distinct(pending),
    ensures
        distinct(without(pending, request_id)),
        forall|k: int|
            0 <= k < without(pending, request_id).len() ==> exists|i: int|
                0 <= i < pending.len() && pending[i] == #[trigger] without(pending, request_id)[k],
    decreases pending.len(),
{
    if pending.len() > 0 {
        lemma_without_keeps_distinct(pending.drop_last(), request_id);
    }
}

/// A request under an unused identifier keeps identifiers distinct.
proof fn lemma_push_keeps_distinct(pending: Seq<PendingRequest>, p: PendingRequest)
    requires
        distinct(pending),
        lookup(pending, p.request_id) is None,
    ensures
        distinct(pending.push(p)),
{
    lemma_lookup_absent_converse(pending, p.request_id);
}

/// Taking one identifier away does not disturb what is found under another.
proof fn lemma_lookup_after_without(pending: Seq<PendingRequest>, gone: u64, kept: u64)
    requires
        gone != kept,
    ensures
        lookup(without(pending, gone), kept) == lookup(pending, kept),
        without(without(pending, gone), kept) == without(without(pending, kept), gone),
    decreases pending.len(),
{
    if pending.len() > 0 {
        let init = pending.drop_last();
        let last = pending.last();
        lemma_lookup_after_without(init, gone, kept);
        if last.request_id != gone {
            assert(without(pending, gone).drop_last() =~= without(init, gone));
        }
        if last.request_id != kept {
            assert(without(pending, kept).drop_last() =~= without(init, kept));
        }
    }
}

/// Responses are matched by identifier, not by the order in which they
/// arrive: two responses to different requests resolve the same requests in
/// the same way whichever arrives first, and leave the same requests in
/// flight.
pub proof fn lemma_answers_are_matched_by_identifier(
    pending: Seq<PendingRequest>,
    one: FrameView,
    other: FrameView,
)
    requires
        one.kind is Response,
        other.kind is Response,
        one.kind != other.kind,
    ensures
        completion_of(after_response(pending, one), other) == completion_of(pending, other),
        completion_of(after_response(pending, other), one) == completion_of(pending, one),
        after_response(after_response(pending, one), other) == after_response(
            after_response(pending, other),
            one,
        ),
{
    let a = one.kind->Response_0;
    let b = other.kind->Response_0;
    lemma_lookup_after_without(pending, a, b);
    lemma_lookup_after_without(pending, b, a);
}

/// A request that was resolved is in flight no more: a second response with
/// its identifier matches nothing.
pub proof fn lemma_resolved_request_is_gone(pending: Seq<PendingRequest>, frame: FrameView)
    requires
        completion_of(pending, frame) is Resolved,
    ensures
        completion_of(after_response(pending, frame), frame) == CompletionView::Unmatched(
            frame.kind->Response_0,
        ),
{
    lemma_without_finds_nothing(pending, frame.kind->Response_0);
}

/// Nothing is found under an identifier that was taken away.
proof fn lemma_without_finds_nothing(pending: Seq<PendingRequest>, request_id: u64)
    ensures
        lookup(without(pending, request_id), request_id) is None,
    decreases pending.len(),
{
    if pending.len() > 0 {
        lemma_without_finds_nothing(pending.drop_last(), request_id);
        if pending.last().request_id != request_id {
            assert(without(pending, request_id).drop_last() =~= without(
                pending.drop_last(),
                request_id,
            ));
        }
    }
}

/// When the connection closes, each request in flight ends once: no
/// identifier is reported twice, and afterwards no response matches anything.
pub proof fn lemma_close_ends_each_request_once(pending: Seq<PendingRequest>, frame: FrameView)
    requires
        distinct(pending),
    ensures
        identifiers(pending).no_duplicates(),
        identifiers(pending).len() == pending.len(),
        completion_of(Seq::empty(), frame) is Unmatched || completion_of(Seq::empty(), frame)
            is NotAResponse,
{
}

/// The requests in flight on one connection.
pub struct PendingRequests {
    entries: Vec<PendingRequest>,
    next_id: u64,
}

impl View for PendingRequests {
    type V = Seq<PendingRequest>;

    /// The requests in flight, in the order in which they were sent.
    closed spec fn view(&self) -> Seq<PendingRequest> {
        self.entries@
    }
}

impl PendingRequests {
    /// The identifier that the next request will carry.
    pub closed spec fn next_id(self) -> u64 {
        self.next_id
    }

    /// No request in flight; identifiers start at zero.
    pub fn new() -> (pending: Self)
        ensures
            pending@ == Seq::<PendingRequest>::empty(),
            pending.next_id() == 0,
    {
        PendingRequests { entries: Vec::new(), next_id: 0 }
    }

    /// No request in flight; the next request carries the given identifier.
    pub fn starting_at(next_id: u64) -> (pending: Self)
        ensures
            pending@ == Seq::<PendingRequest>::empty(),
            pending.next_id() == next_id,
    {
        PendingRequests { entries: Vec::new(), next_id }
    }

    /// How many requests are in flight.
    pub fn len(&self) -> (n: usize)
        ensures
            n == self@.len(),
    {
        self.entries.len()
    }

    /// The request with the given identifier, if it is in flight.
    pub fn get(&self, request_id: u64) -> (found: Option<PendingRequest>)
        ensures
            found == lookup(self@, request_id),
    {
        let mut i: usize = self.entries.len();
        assert(self.entries@.take(i as int) =~= self.entries@);
        while i > 0
            invariant
                i <= self.entries.len(),
                lookup(self.entries@, request_id) == lookup(
                    self.entries@.take(i as int),
                    request_id,
                ),
            decreases i,
        {
            let ghost front = self.entries@.take(i as int);
            i = i - 1;
            assert(front.drop_last() =~= self.entries@.take(i as int));
            if self.entries[i].request_id == request_id {
                return Some(self.entries[i]);
            }
        }
        None
    }

    /// Takes the requests with the given identifier out of flight.
    fn forget(&mut self, request_id: u64)
        ensures
            final(self)@ == without(old(self)@, request_id),
            final(self).next_id() == old(self).next_id(),
    {
        let mut kept: Vec<PendingRequest> = Vec::new();
        let mut i: usize = 0;
        while i < self.entries.len()
            invariant
                i <= self.entries.len(),
                self.entries@ == old(self).entries@,
                self.next_id == old(self).next_id,
                kept@ == without(self.entries@.take(i as int), request_id),
            decreases self.entries.len() - i,
        {
            let ghost front = self.entries@.take(i + 1);
            assert(front.drop_last() =~= self.entries@.take(i as int));
            if self.entries[i].request_id != request_id {
                kept.push(self.entries[i]);
            }
            i = i + 1;
        }
        assert(self.entries@.take(i as int) =~= self.entries@);
        self.entries = kept;
    }

    /// Sends a request to the object at the address under the given
    /// identifier, and records it as in flight. Nothing is sent or recorded
    /// of a message that is no request, under an identifier that is in use, or
    /// when the frame cannot be queued.
    pub fn send_request_with_id(
        &mut self,
        request_id: u64,
        service_id: TrackerId,
        object_id: TrackerId,
        request: &GeckoBridgeFromClient,
        transport: &mut Transport,
    ) -> (result: Result<u64, RequestError>)
        ensures
            result == request_result(
                old(self)@,
                request_id,
                service_id,
                object_id,
                request@,
                old(transport)@,
            ),
            result is Ok ==> final(self)@ == old(self)@.push(
                PendingRequest { request_id, request_index: request@.index },
            ) && final(transport)@ == after_send(
                old(transport)@,
                request_frame(service_id, object_id, request_id, request@),
            ),
            result is Err ==> final(self)@ == old(self)@ && final(transport)@ == old(transport)@,
            final(self).next_id() == old(self).next_id(),
            distinct(old(self)@) ==> distinct(final(self)@),
    {
        let index = request.variant_index();
        if answers_to(Direction::FromClient, index).is_none() {
            return Err(RequestError::NotARequest(index));
        }
        if self.get(request_id).is_some() {
            return Err(RequestError::IdInUse(request_id));
        }
        let frame = Frame {
            service_id,
            object_id,
            kind: FrameKind::Request(request_id),
            payload: request.encode(),
        };
        match transport.send_message(&frame) {
            Ok(()) => {},
            Err(e) => {
                return Err(RequestError::Transport(e));
            },
        }
        proof {
            if distinct(self@) {
                lemma_push_keeps_distinct(
                    self@,
                    PendingRequest { request_id, request_index: index },
                );
            }
        }
        self.entries.push(PendingRequest { request_id, request_index: index });
        Ok(request_id)
    }

    /// Sends a request to the object at the address under the next
    /// identifier, which is returned, and records it as in flight. The
    /// identifier is used up only if the request was sent.
    pub fn send_request(
        &mut self,
        service_id: TrackerId,
        object_id: TrackerId,
        request: &GeckoBridgeFromClient,
        transport: &mut Transport,
    ) -> (result: Result<u64, RequestError>)
        ensures
            result == request_result(
                old(self)@,
                old(self).next_id(),
                service_id,
                object_id,
                request@,
                old(transport)@,
            ),
            result matches Ok(id) ==> final(self)@ == old(self)@.push(
                PendingRequest { request_id: id, request_index: request@.index },
            ) && final(self).next_id() == following(id) && final(transport)@ == after_send(
                old(transport)@,
                request_frame(service_id, object_id, id, request@),
            ),
            result is Err ==> final(self)@ == old(self)@ && final(transport)@ == old(transport)@,
            result is Err ==> final(self).next_id() == old(self).next_id(),
            distinct(old(self)@) ==> distinct(final(self)@),
    {
        let id = self.next_id;
        let result = self.send_request_with_id(id, service_id, object_id, request, transport);
        if result.is_ok() {
            self.next_id = if id == u64::MAX {
                0
            } else {
                id + 1
            };
        }
        result
    }

    /// Takes a response frame. The request that it answers ends, and is in
    /// flight no more; a frame that answers no request in flight is dropped,
    /// and so is one whose payload is no answer to its request, which stays in
    /// flight.
    pub fn on_response(&mut self, frame: &Frame) -> (completion: Completion)
        ensures
            completion@ == completion_of(old(self)@, frame@),
            final(self)@ == after_response(old(self)@, frame@),
            final(self).next_id() == old(self).next_id(),
            distinct(old(self)@) ==> distinct(final(self)@),
    {
        let id = match frame.kind {
            FrameKind::Response(id) => id,
            _ => {
                return Completion::NotAResponse;
            },
        };
        let pending = match self.get(id) {
            Some(pending) => pending,
            None => {
                return Completion::Unmatched(id);
            },
        };
        let message = match GeckoBridgeToClient::decode(frame.payload.as_slice()) {
            Ok(message) => message,
            Err(e) => {
                return Completion::Dropped(id, e);
            },
        };
        let index = message.variant_index();
        let outcome = match answers_to(Direction::FromClient, pending.request_index) {
            Some((success, error)) => {
                if index == success {
                    Outcome::Success(message)
                } else if index == error {
                    Outcome::Error(message)
                } else {
                    return Completion::Dropped(id, DecodeError::Unexpected(index));
                }
            },
            None => {
                return Completion::Dropped(id, DecodeError::Unexpected(index));
            },
        };
        proof {
            if distinct(self@) {
                lemma_without_keeps_distinct(self@, id);
            }
        }
        self.forget(id);
        Completion::Resolved(id, outcome)
    }

    /// Ends every request in flight, because the connection is closed. The
    /// identifiers of the requests that ended so are returned, in the order in
    /// which they were sent; none is in flight afterwards, so none ends twice.
    pub fn close(&mut self) -> (closed: Vec<u64>)
        ensures
            closed@ == identifiers(old(self)@),
            final(self)@ == Seq::<PendingRequest>::empty(),
            final(self).next_id() == old(self).next_id(),
    {
        let mut closed: Vec<u64> = Vec::new();
        let mut i: usize = 0;
        while i < self.entries.len()
            invariant
                i <= self.entries.len(),
                self.entries@ == old(self).entries@,
                self.next_id == old(self).next_id,
                closed@ == identifiers(self.entries@.take(i as int)),
            decreases self.entries.len() - i,
        {
            closed.push(self.entries[i].request_id);
            i = i + 1;
        }
        self.entries = Vec::new();
        closed
    }
}

/// An identifier under which nothing is found is held by no request.
proof fn lemma_lookup_absent_converse(pending: Seq<PendingRequest>, request_id: u64)
    requires
        lookup(pending, request_id) is None,
    ensures
        forall|i: int| 0 <= i < pending.len() ==> (#[trigger] pending[i]).request_id != request_id,
    decreases pending.len(),
{
    if pending.len() > 0 {
        let init = pending.drop_last();
        lemma_lookup_absent_converse(init, request_id);
        assert forall|i: int| 0 <= i < pending.len() implies (#[trigger] pending[i]).request_id
            != request_id by {
            if i < pending.len() - 1 {
                assert(init[i] == pending[i]);
            }
        }
    }
}

} // verus!
