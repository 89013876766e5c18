//! Frames: the unit that travels over the transport, its layout in bytes, and
//! the reassembly of frames from a byte stream.
//!
//! A frame on the wire is the service, the object, one byte for the kind (`0`
//! request, `1` response, `2` event), the request identifier for a request or
//! a response, the length of the payload as a `u32`, and the payload.

use crate::errors::{ProtocolError, TransportError};
use crate::wire::{
    lemma_bytes_of_take_byte, lemma_bytes_of_take_raw, lemma_bytes_of_take_u32,
    lemma_bytes_of_take_u64, lemma_take_byte_of_bytes, lemma_take_is_stable,
    lemma_take_raw_of_bytes, lemma_take_u32_of_bytes, lemma_take_u64_of_bytes, put_raw, put_u32,
    put_u64, take_byte, take_raw, take_u32, take_u64, u32_bytes, u64_bytes, Reader,
};
use crate::TrackerId;
use vstd::prelude::*;

verus! {

/// What a frame is for.
#[derive(Clone, Copy, Debug, PartialEq, Eq, Structural)]
pub enum FrameKind {
    /// Asks for an answer, which will carry the same identifier.
    Request(u64),
    /// Answers the request with this identifier.
    Response(u64),
    /// Expects no answer.
    Event,
}

/// One message on the transport.
#[derive(Debug, PartialEq, Eq)]
pub struct Frame {
    pub service_id: TrackerId,
    pub object_id: TrackerId,
    pub kind: FrameKind,
    pub payload: Vec<u8>,
}

/// A frame as values.
pub struct FrameView {
    pub service_id: TrackerId,
    pub object_id: TrackerId,
    pub kind: FrameKind,
    pub payload: Seq<u8>,
}

impl View for Frame {
    type V = FrameView;

    open spec fn view(&self) -> FrameView {
        FrameView {
            service_id: self.service_id,
            object_id: self.object_id,
            kind: self.kind,
            payload: self.payload@,
        }
    }
}

/// What reading the front of a byte stream as a frame gives.
pub enum Parsed {
    /// More bytes are needed before anything can be said.
    Incomplete,
    /// The bytes are not the start of any frame.
    Malformed(ProtocolError),
    /// A frame, and the bytes that follow it.
    Complete(FrameView, Seq<u8>),
}

/// The bytes of the kind of a frame: its tag, and the identifier if it has one.
pub open spec fn kind_bytes(kind: FrameKind) -> Seq<u8> {
    match kind {
        FrameKind::Request(id) => seq![0u8] + u64_bytes(id),
        FrameKind::Response(id) => seq![1u8] + u64_bytes(id),
        FrameKind::Event => seq![2u8],
    }
}

/// Whether the frame can be written: its payload length fits the length field.
pub open spec fn frame_fits(f: FrameView) -> bool {
    f.payload.len() <= u32::MAX
}

/// The bytes of a frame on the wire.
pub open spec fn frame_bytes(f: FrameView) -> Seq<u8> {
    u32_bytes(f.service_id) + (u32_bytes(f.object_id) + (kind_bytes(f.kind) + (u32_bytes(
        f.payload.len() as u32,
    ) + f.payload)))
}

/// What reading the front of a byte stream as the kind of a frame gives.
pub enum ParsedKind {
    Incomplete,
    Unknown(u8),
    Kind(FrameKind, Seq<u8>),
}

/// Reads the kind of a frame off the front of `b`.
pub open spec fn parse_kind(b: Seq<u8>) -> ParsedKind {
    match take_byte(b) {
        Some((tag, rest)) => {
            if tag == 2 {
                ParsedKind::Kind(FrameKind::Event, rest)
            } else if tag > 2 {
                ParsedKind::Unknown(tag)
            } else {
                match take_u64(rest) {
                    Some((id, after)) => if tag == 0 {
                        ParsedKind::Kind(FrameKind::Request(id), after)
                    } else {
                        ParsedKind::Kind(FrameKind::Response(id), after)
                    },
                    None => ParsedKind::Incomplete,
                }
            }
        },
        None => ParsedKind::Incomplete,
    }
}

/// Reads the length and the payload of a frame off the front of `b`.
pub open spec fn parse_payload_part(
    service_id: TrackerId,
    object_id: TrackerId,
    kind: FrameKind,
    b: Seq<u8>,
    limit: u32,
) -> Parsed {
    match take_u32(b) {
        Some((len, rest)) => {
            if len > limit {
                Parsed::Malformed(ProtocolError::PayloadTooLong(len))
            } else {
                match take_raw(rest, len as nat) {
                    Some((payload, after)) => Parsed::Complete(
                        FrameView { service_id, object_id, kind, payload },
                        after,
                    ),
                    None => Parsed::Incomplete,
                }
            }
        },
        None => Parsed::Incomplete,
    }
}

/// Reads the front of a byte stream as a frame. A payload longer than `limit`
/// is refused as soon as its length is known.
pub open spec fn parse_frame(b: Seq<u8>, limit: u32) -> Parsed {
    match take_u32(b) {
        Some((service_id, r1)) => match take_u32(r1) {
            Some((object_id, r2)) => match parse_kind(r2) {
                ParsedKind::Kind(kind, r3) => parse_payload_part(
                    service_id,
                    object_id,
                    kind,
                    r3,
                    limit,
                ),
                ParsedKind::Unknown(tag) => Parsed::Malformed(ProtocolError::UnknownKind(tag)),
                ParsedKind::Incomplete => Parsed::Incomplete,
            },
            None => Parsed::Incomplete,
        },
        None => Parsed::Incomplete,
    }
}

/// The kind of a frame, written and followed by anything, is read back.
pub proof fn lemma_parse_kind_of_bytes(kind: FrameKind, rest: Seq<u8>)
    ensures
        parse_kind(kind_bytes(kind) + rest) == ParsedKind::Kind(kind, rest),
{
    match kind {
        FrameKind::Request(id) => {
            lemma_take_byte_of_bytes(0, u64_bytes(id) + rest);
            lemma_take_u64_of_bytes(id, rest);
            assert(kind_bytes(kind) + rest =~= seq![0u8] + (u64_bytes(id) + rest));
        },
        FrameKind::Response(id) => {
            lemma_take_byte_of_bytes(1, u64_bytes(id) + rest);
            lemma_take_u64_of_bytes(id, rest);
            assert(kind_bytes(kind) + rest =~= seq![1u8] + (u64_bytes(id) + rest));
        },
        FrameKind::Event => {
            lemma_take_byte_of_bytes(2, rest);
        },
    }
}

/// What was read as the kind of a frame is what writing that kind gives.
pub proof fn lemma_bytes_of_parse_kind(b: Seq<u8>)
    requires
        parse_kind(b) is Kind,
    ensures
        b == kind_bytes(parse_kind(b)->Kind_0) + parse_kind(b)->Kind_1,
{
    let (tag, rest) = take_byte(b).unwrap();
    lemma_bytes_of_take_byte(b);
    if tag == 2 {
    } else {
        let (id, after) = take_u64(rest).unwrap();
        lemma_bytes_of_take_u64(rest);
    }
}

/// A frame written and followed by anything is read back, leaving what
/// followed, if its payload is within the limit.
pub proof fn lemma_parse_frame_of_bytes(f: FrameView, rest: Seq<u8>, limit: u32)
    requires
        f.payload.len() <= limit,
    ensures
        parse_frame(frame_bytes(f) + rest, limit) == Parsed::Complete(f, rest),
{
    let len = f.payload.len() as u32;
    let t4 = f.payload + rest;
    let t3 = u32_bytes(len) + t4;
    let t2 = kind_bytes(f.kind) + t3;
    let t1 = u32_bytes(f.object_id) + t2;
    lemma_take_u32_of_bytes(f.service_id, t1);
    lemma_take_u32_of_bytes(f.object_id, t2);
    lemma_parse_kind_of_bytes(f.kind, t3);
    lemma_take_u32_of_bytes(len, t4);
    lemma_take_raw_of_bytes(f.payload, rest);
    assert(frame_bytes(f) + rest =~= u32_bytes(f.service_id) + t1);
}

/// What was read as a frame is what writing that frame gives, then the rest;
/// and its payload is within the limit.
pub proof fn lemma_bytes_of_parse_frame(b: Seq<u8>, limit: u32)
    requires
        parse_frame(b, limit) is Complete,
    ensures
        b == frame_bytes(parse_frame(b, limit)->Complete_0) + parse_frame(b, limit)->Complete_1,
        parse_frame(b, limit)->Complete_0.payload.len() <= limit,
{
    let r1 = take_u32(b).unwrap().1;
    let r2 = take_u32(r1).unwrap().1;
    let r3 = parse_kind(r2)->Kind_1;
    let (len, r4) = take_u32(r3).unwrap();
    lemma_bytes_of_take_u32(b);
    lemma_bytes_of_take_u32(r1);
    lemma_bytes_of_parse_kind(r2);
    lemma_bytes_of_take_u32(r3);
    lemma_bytes_of_take_raw(r4, len as nat);
}

/// A frame that has arrived whole stays the same frame whatever arrives after
/// it.
pub proof fn lemma_complete_frame_is_stable(b: Seq<u8>, more: Seq<u8>, limit: u32)
    requires
        parse_frame(b, limit) is Complete,
    ensures
        parse_frame(b + more, limit) == Parsed::Complete(
            parse_frame(b, limit)->Complete_0,
            parse_frame(b, limit)->Complete_1 + more,
        ),
{
    let f = parse_frame(b, limit)->Complete_0;
    let after = parse_frame(b, limit)->Complete_1;
    lemma_bytes_of_parse_frame(b, limit);
    lemma_parse_frame_of_bytes(f, after + more, limit);
    assert(b + more =~= frame_bytes(f) + (after + more));
}

/// No two frames that can be written share their bytes.
pub proof fn lemma_frame_bytes_are_injective(f1: FrameView, f2: FrameView)
    requires
        frame_fits(f1),
        frame_fits(f2),
        frame_bytes(f1) == frame_bytes(f2),
    ensures
        f1 == f2,
{
    lemma_parse_frame_of_bytes(f1, Seq::empty(), u32::MAX);
    lemma_parse_frame_of_bytes(f2, Seq::empty(), u32::MAX);
}

/// A stream that is malformed stays malformed in the same way whatever
/// arrives after it: no later bytes mend it.
pub proof fn lemma_malformed_frame_is_stable(b: Seq<u8>, more: Seq<u8>, limit: u32)
    requires
        parse_frame(b, limit) is Malformed,
    ensures
        parse_frame(b + more, limit) == parse_frame(b, limit),
{
    let r1 = take_u32(b).unwrap().1;
    let r2 = take_u32(r1).unwrap().1;
    lemma_take_is_stable(b, more);
    lemma_take_is_stable(r1, more);
    lemma_take_is_stable(r2, more);
    match parse_kind(r2) {
        ParsedKind::Kind(kind, r3) => {
            let tag_rest = take_byte(r2).unwrap().1;
            lemma_take_is_stable(tag_rest, more);
            lemma_take_is_stable(r3, more);
        },
        _ => {},
    }
}

/// The bytes of frames written one after another.
pub open spec fn stream_bytes(frames: Seq<FrameView>) -> Seq<u8>
    decreases frames.len(),
{
    if frames.len() == 0 {
        Seq::empty()
    } else {
        stream_bytes(frames.drop_last()) + frame_bytes(frames.last())
    }
}

/// Reads `n` frames off the front of a byte stream, one after another.
pub open spec fn take_frames(b: Seq<u8>, limit: u32, n: nat) -> Option<(Seq<FrameView>, Seq<u8>)>
    decreases n,
{
    if n == 0 {
        Some((Seq::empty(), b))
    } else {
        match take_frames(b, limit, (n - 1) as nat) {
            Some((frames, rest)) => match parse_frame(rest, limit) {
                Parsed::Complete(f, after) => Some((frames.push(f), after)),
                _ => None,
            },
            None => None,
        }
    }
}

/// Frames written one after another are read back one by one, in the order
/// in which they were written, each as it was written: no frame runs into
/// its neighbour.
pub proof fn lemma_stream_reads_back(frames: Seq<FrameView>, rest: Seq<u8>, limit: u32)
    requires
        forall|i: int| 0 <= i < frames.len() ==> (#[trigger] frames[i]).payload.len() <= limit,
    ensures
        take_frames(stream_bytes(frames) + rest, limit, frames.len()) == Some((frames, rest)),
    decreases frames.len(),
{
    if frames.len() > 0 {
        let init = frames.drop_last();
        let after = frame_bytes(frames.last()) + rest;
        lemma_stream_reads_back(init, after, limit);
        lemma_parse_frame_of_bytes(frames.last(), rest, limit);
        assert(stream_bytes(frames) + rest =~= stream_bytes(init) + after);
    }
}

impl Frame {
    /// The bytes of the frame on the wire. A payload too long for the length
    /// field is refused.
    pub fn encode(&self) -> (result: Result<Vec<u8>, TransportError>)
        ensures
            frame_fits(self@) ==> (result matches Ok(bytes) && bytes@ == frame_bytes(self@)),
            !frame_fits(self@) ==> result == Err::<Vec<u8>, TransportError>(
                TransportError::PayloadTooLarge,
            ),
    {
        let mut out = Vec::new();
        match self.append_to(&mut out) {
            Ok(()) => Ok(out),
            Err(e) => Err(e),
        }
    }

    /// Appends the bytes of the frame to `out`, or leaves `out` as it is where
    /// the payload is too long for the length field.
    pub fn append_to(&self, out: &mut Vec<u8>) -> (result: Result<(), TransportError>)
        ensures
            frame_fits(self@) ==> result is Ok && final(out)@ == old(out)@ + frame_bytes(self@),
            !frame_fits(self@) ==> result == Err::<(), TransportError>(
                TransportError::PayloadTooLarge,
            ) && final(out)@ == old(out)@,
    {
        if self.payload.len() > 0xffff_ffff {
            return Err(TransportError::PayloadTooLarge);
        }
        put_u32(out, self.service_id);
        put_u32(out, self.object_id);
        match self.kind {
            FrameKind::Request(id) => {
                out.push(0);
                put_u64(out, id);
            },
            FrameKind::Response(id) => {
                out.push(1);
                put_u64(out, id);
            },
            FrameKind::Event => {
                out.push(2);
            },
        }
        put_u32(out, self.payload.len() as u32);
        put_raw(out, self.payload.as_slice());
        Ok(())
    }
}

/// What reading a frame off a reader gave.
enum Step {
    Incomplete,
    Malformed(ProtocolError),
    Complete(Frame),
}

/// Reads a frame off the reader. Where no frame is read, what the reader has
/// left is not specified.
fn read_frame(reader: &mut Reader, limit: u32) -> (step: Step)
    ensures
        step matches Step::Complete(frame) ==> parse_frame(old(reader).remaining(), limit)
            == Parsed::Complete(frame@, final(reader).remaining()),
        step matches Step::Malformed(e) ==> parse_frame(old(reader).remaining(), limit)
            == Parsed::Malformed(e),
        step is Incomplete ==> parse_frame(old(reader).remaining(), limit) is Incomplete,
{
    let service_id = match reader.u32() {
        Some(v) => v,
        None => {
            return Step::Incomplete;
        },
    };
    let object_id = match reader.u32() {
        Some(v) => v,
        None => {
            return Step::Incomplete;
        },
    };
    let tag = match reader.byte() {
        Some(v) => v,
        None => {
            return Step::Incomplete;
        },
    };
    if tag > 2 {
        return Step::Malformed(ProtocolError::UnknownKind(tag));
    }
    let kind = if tag == 2 {
        FrameKind::Event
    } else {
        let id = match reader.u64() {
            Some(v) => v,
            None => {
                return Step::Incomplete;
            },
        };
        if tag == 0 {
            FrameKind::Request(id)
        } else {
            FrameKind::Response(id)
        }
    };
    let len = match reader.u32() {
        Some(v) => v,
        None => {
            return Step::Incomplete;
        },
    };
    if len > limit {
        return Step::Malformed(ProtocolError::PayloadTooLong(len));
    }
    if len as u64 > reader.left() as u64 {
        proof {
            reveal(take_raw);
        }
        return Step::Incomplete;
    }
    match reader.raw(len as usize) {
        Some(payload) => Step::Complete(Frame { service_id, object_id, kind, payload }),
        None => Step::Incomplete,
    }
}

/// Reassembles frames from the chunks of a byte stream.
pub struct FrameReader {
    buffer: Vec<u8>,
    limit: u32,
}

impl FrameReader {
    /// The bytes that have arrived and belong to no frame handed out yet.
    pub closed spec fn buffered(self) -> Seq<u8> {
        self.buffer@
    }

    /// The longest payload that is accepted.
    pub closed spec fn limit(self) -> u32 {
        self.limit
    }

    /// A reader with nothing buffered, which accepts payloads of up to `limit`
    /// bytes.
    pub fn new(limit: u32) -> (reader: Self)
        ensures
            reader.buffered() == Seq::<u8>::empty(),
            reader.limit() == limit,
    {
        FrameReader { buffer: Vec::new(), limit }
    }

    /// Takes in a chunk of the stream.
    pub fn feed(&mut self, chunk: &[u8])
        ensures
            final(self).buffered() == old(self).buffered() + chunk@,
            final(self).limit() == old(self).limit(),
    {
        put_raw(&mut self.buffer, chunk);
    }

    /// The longest payload that is accepted.
    pub fn max_payload(&self) -> (limit: u32)
        ensures
            limit == self.limit(),
    {
        self.limit
    }

    /// How many bytes are buffered.
    pub fn pending(&self) -> (n: usize)
        ensures
            n == self.buffered().len(),
    {
        self.buffer.len()
    }

    /// Hands out the next frame if it has arrived whole. A malformed stream is
    /// reported, and stays reported: nothing is skipped to find a later frame.
    pub fn next_frame(&mut self) -> (result: Result<Option<Frame>, ProtocolError>)
        ensures
            final(self).limit() == old(self).limit(),
            result matches Ok(Some(frame)) ==> parse_frame(old(self).buffered(), old(self).limit())
                == Parsed::Complete(frame@, final(self).buffered()),
            result matches Ok(None) ==> parse_frame(old(self).buffered(), old(self).limit())
                is Incomplete,
            result matches Err(e) ==> parse_frame(old(self).buffered(), old(self).limit())
                == Parsed::Malformed(e),
            !(result matches Ok(Some(_))) ==> final(self).buffered() == old(self).buffered(),
    {
        let total = self.buffer.len();
        let mut reader = Reader::new(self.buffer.as_slice());
        let step = read_frame(&mut reader, self.limit);
        match step {
            Step::Complete(frame) => {
                proof {
                    lemma_bytes_of_parse_frame(self.buffer@, self.limit);
                }
                let used = total - reader.left();
                let rest = self.buffer.split_off(used);
                self.buffer = rest;
                assert(self.buffer@ =~= parse_frame(old(self).buffered(), old(self).limit())
                    ->Complete_1);
                Ok(Some(frame))
            },
            Step::Malformed(e) => Err(e),
            Step::Incomplete => Ok(None),
        }
    }

    /// Called when the peer has closed the stream: whether the stream ended
    /// between two frames.
    pub fn finish(&self) -> (result: Result<(), ProtocolError>)
        ensures
            self.buffered().len() == 0 ==> result is Ok,
            self.buffered().len() > 0 ==> result == Err::<(), ProtocolError>(
                ProtocolError::Truncated,
            ),
    {
        if self.buffer.len() == 0 {
            Ok(())
        } else {
            Err(ProtocolError::Truncated)
        }
    }
}

} // verus!
