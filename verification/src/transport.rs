//! The two byte streams of a connection, as the bridge sees them: frames
//! queued for writing, and frames reassembled from what was read.
//!
//! The socket itself is the caller's. It hands in the bytes that it read and
//! takes out the bytes to write; whoever shares a transport between threads
//! locks around each call, so that a frame is queued whole or not at all.

use crate::errors::{ProtocolError, TransportError};
use crate::frame::{
    frame_bytes, lemma_stream_reads_back, parse_frame, stream_bytes, take_frames, Frame,
    FrameReader, FrameView, Parsed,
};
use vstd::prelude::*;

verus! {

/// A transport as values.
pub struct TransportView {
    /// Whether the connection stands.
    pub open: bool,
    /// The bytes queued for writing and not taken out yet.
    pub outbound: Seq<u8>,
    /// The bytes that were read and belong to no frame handed out yet.
    pub inbound: Seq<u8>,
    /// The longest payload that is sent, and that is accepted from the peer.
    pub limit: u32,
}

/// What the inbound stream has next.
#[derive(Debug, PartialEq, Eq)]
pub enum Inbound {
    /// The next frame.
    Frame(Frame),
    /// Nothing yet: the next frame has not arrived whole.
    Pending,
    /// Nothing any more: the connection is closed and every frame was handed
    /// out.
    Closed,
}

/// Whether a frame can be sent on a transport: the connection must stand, and
/// the payload must be within the limit of the connection.
pub open spec fn send_result(t: TransportView, f: FrameView) -> Result<(), TransportError> {
    if !t.open {
        Err(TransportError::Closed)
    } else if f.payload.len() > t.limit {
        Err(TransportError::PayloadTooLarge)
    } else {
        Ok(())
    }
}

/// The transport after a frame was sent on it: the frame's bytes are queued
/// behind what was queued before, unless the frame could not be sent.
pub open spec fn after_send(t: TransportView, f: FrameView) -> TransportView {
    if send_result(t, f) is Ok {
        TransportView { outbound: t.outbound + frame_bytes(f), ..t }
    } else {
        t
    }
}

/// The transport after a frame was sent on it, if one was.
pub open spec fn after_sending(t: TransportView, frame: Option<FrameView>) -> TransportView {
    match frame {
        Some(f) => after_send(t, f),
        None => t,
    }
}

/// The transport after the frames were sent on it, one after another.
pub open spec fn after_sends(t: TransportView, frames: Seq<FrameView>) -> TransportView
    decreases frames.len(),
{
    if frames.len() == 0 {
        t
    } else {
        after_send(after_sends(t, frames.drop_last()), frames.last())
    }
}

/// What the inbound stream has next, as values.
pub enum InboundView {
    Frame(FrameView),
    Pending,
    Closed,
}

impl View for Inbound {
    type V = InboundView;

    open spec fn view(&self) -> InboundView {
        match self {
            Inbound::Frame(frame) => InboundView::Frame(frame@),
            Inbound::Pending => InboundView::Pending,
            Inbound::Closed => InboundView::Closed,
        }
    }
}

/// What the inbound stream of a transport has next. A frame that has arrived
/// whole is handed out, whether the connection stands or not. Short of that,
/// an open connection has nothing yet; a closed one has nothing any more, and
/// is in error if it ended inside a frame. A malformed stream is in error.
pub open spec fn next_inbound(t: TransportView) -> Result<InboundView, ProtocolError> {
    match parse_frame(t.inbound, t.limit) {
        Parsed::Complete(f, _) => Ok(InboundView::Frame(f)),
        Parsed::Malformed(e) => Err(e),
        Parsed::Incomplete => {
            if t.open {
                Ok(InboundView::Pending)
            } else if t.inbound.len() == 0 {
                Ok(InboundView::Closed)
            } else {
                Err(ProtocolError::Truncated)
            }
        },
    }
}

/// The transport after its inbound stream was asked for what it has next: a
/// frame that was handed out is gone from the stream, and a malformed stream
/// has closed the connection.
pub open spec fn after_next(t: TransportView) -> TransportView {
    match parse_frame(t.inbound, t.limit) {
        Parsed::Complete(_, rest) => TransportView { inbound: rest, ..t },
        Parsed::Malformed(_) => TransportView { open: false, ..t },
        Parsed::Incomplete => t,
    }
}

/// Any number of sends on an open transport queue exactly the frames sent,
/// each whole and in the order of the sends.
pub proof fn lemma_sends_queue_whole_frames(t: TransportView, frames: Seq<FrameView>)
    requires
        t.open,
        forall|i: int| 0 <= i < frames.len() ==> (#[trigger] frames[i]).payload.len() <= t.limit,
    ensures
        after_sends(t, frames) == (TransportView {
            outbound: t.outbound + stream_bytes(frames),
            ..t
        }),
    decreases frames.len(),
{
    if frames.len() > 0 {
        lemma_sends_queue_whole_frames(t, frames.drop_last());
        assert(after_sends(t, frames).outbound =~= t.outbound + stream_bytes(frames));
    }
}

/// What any number of sends put on the wire is read at the other end, if it
/// accepts payloads as long as those sent, as exactly the frames sent, in the
/// order of the sends, with nothing left over: frames never run into each
/// other.
pub proof fn lemma_sent_frames_are_received(t: TransportView, frames: Seq<FrameView>, limit: u32)
    requires
        t.open,
        t.outbound.len() == 0,
        forall|i: int| 0 <= i < frames.len() ==> (#[trigger] frames[i]).payload.len() <= t.limit,
        forall|i: int| 0 <= i < frames.len() ==> (#[trigger] frames[i]).payload.len() <= limit,
    ensures
        take_frames(after_sends(t, frames).outbound, limit, frames.len()) == Some(
            (frames, Seq::<u8>::empty()),
        ),
{
    lemma_sends_queue_whole_frames(t, frames);
    lemma_stream_reads_back(frames, Seq::empty(), limit);
}

/// One end of a connection.
pub struct Transport {
    outbound: Vec<u8>,
    inbound: FrameReader,
    open: bool,
}

impl View for Transport {
    type V = TransportView;

    closed spec fn view(&self) -> TransportView {
        TransportView {
            open: self.open,
            outbound: self.outbound@,
            inbound: self.inbound.buffered(),
            limit: self.inbound.limit(),
        }
    }
}

impl Transport {
    /// An open transport with nothing queued and nothing read, on which
    /// payloads of up to `limit` bytes travel.
    pub fn new(limit: u32) -> (transport: Self)
        ensures
            transport@ == (TransportView {
                open: true,
                outbound: Seq::empty(),
                inbound: Seq::empty(),
                limit,
            }),
    {
        Transport { outbound: Vec::new(), inbound: FrameReader::new(limit), open: true }
    }

    /// Whether the connection stands.
    pub fn is_open(&self) -> (open: bool)
        ensures
            open == self@.open,
    {
        self.open
    }

    /// Queues a frame for writing. Nothing is queued on a closed connection,
    /// nor of a frame whose payload is beyond the limit of the connection.
    pub fn send_message(&mut self, frame: &Frame) -> (result: Result<(), TransportError>)
        ensures
            result == send_result(old(self)@, frame@),
            final(self)@ == after_send(old(self)@, frame@),
    {
        if !self.open {
            return Err(TransportError::Closed);
        }
        if frame.payload.len() > self.inbound.max_payload() as usize {
            return Err(TransportError::PayloadTooLarge);
        }
        match frame.append_to(&mut self.outbound) {
            Ok(()) => Ok(()),
            Err(e) => Err(e),
        }
    }

    /// Takes out the bytes queued for writing.
    pub fn take_outbound(&mut self) -> (bytes: Vec<u8>)
        ensures
            bytes@ == old(self)@.outbound,
            final(self)@ == (TransportView { outbound: Seq::empty(), ..old(self)@ }),
    {
        let mut bytes = Vec::new();
        bytes.append(&mut self.outbound);
        bytes
    }

    /// Takes in bytes that were read from the peer.
    pub fn receive(&mut self, chunk: &[u8])
        ensures
            final(self)@ == (TransportView {
                inbound: old(self)@.inbound + chunk@,
                ..old(self)@
            }),
    {
        self.inbound.feed(chunk);
    }

    /// Records that the connection is gone: the peer hung up, or the socket
    /// failed. Frames that had arrived whole can still be taken.
    pub fn disconnect(&mut self)
        ensures
            final(self)@ == (TransportView { open: false, ..old(self)@ }),
    {
        self.open = false;
    }

    /// Hands out the next frame of the inbound stream. A malformed stream
    /// closes the connection, and so does a stream that ended inside a frame.
    pub fn next_frame(&mut self) -> (result: Result<Inbound, ProtocolError>)
        ensures
            result matches Ok(inbound) ==> next_inbound(old(self)@) == Ok::<
                InboundView,
                ProtocolError,
            >(inbound@),
            result matches Err(e) ==> next_inbound(old(self)@) == Err::<InboundView, ProtocolError>(
                e,
            ),
            final(self)@ == after_next(old(self)@),
    {
        match self.inbound.next_frame() {
            Ok(Some(frame)) => Ok(Inbound::Frame(frame)),
            Ok(None) => {
                if self.open {
                    Ok(Inbound::Pending)
                } else {
                    match self.inbound.finish() {
                        Ok(()) => Ok(Inbound::Closed),
                        Err(e) => Err(e),
                    }
                }
            },
            Err(e) => {
                self.open = false;
                Err(e)
            },
        }
    }
}

} // verus!
