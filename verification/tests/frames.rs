use gecko_bridge::errors::{ProtocolError, TransportError};
use gecko_bridge::frame::{Frame, FrameKind, FrameReader};
use gecko_bridge::transport::{Inbound, Transport};

fn frame(service_id: u32, object_id: u32, kind: FrameKind, payload: &[u8]) -> Frame {
    Frame { service_id, object_id, kind, payload: payload.to_vec() }
}

#[test]
fn request_frame_layout() {
    let bytes = frame(2, 7, FrameKind::Request(42), &[9, 8]).encode().unwrap();
    assert_eq!(
        bytes,
        vec![0, 0, 0, 2, 0, 0, 0, 7, 0, 0, 0, 0, 0, 0, 0, 0, 42, 0, 0, 0, 2, 9, 8]
    );
}

#[test]
fn response_frame_layout() {
    let bytes = frame(1, 0x0102_0304, FrameKind::Response(0x0a0b_0c0d_0e0f_1011), &[])
        .encode()
        .unwrap();
    assert_eq!(
        bytes,
        vec![
            0, 0, 0, 1, 1, 2, 3, 4, 1, 0x0a, 0x0b, 0x0c, 0x0d, 0x0e, 0x0f, 0x10, 0x11, 0, 0, 0,
            0
        ]
    );
}

#[test]
fn event_frame_has_no_identifier() {
    let bytes = frame(3, 4, FrameKind::Event, &[5]).encode().unwrap();
    assert_eq!(bytes, vec![0, 0, 0, 3, 0, 0, 0, 4, 2, 0, 0, 0, 1, 5]);
}

#[test]
fn reader_returns_what_was_written() {
    let sent = vec![
        frame(2, 7, FrameKind::Request(1), b"abc"),
        frame(2, 7, FrameKind::Event, b""),
        frame(9, 9, FrameKind::Response(u64::MAX), &[0; 300]),
    ];
    let mut reader = FrameReader::new(1024);
    for f in &sent {
        reader.feed(&f.encode().unwrap());
    }
    for f in sent {
        assert_eq!(reader.next_frame(), Ok(Some(f)));
    }
    assert_eq!(reader.next_frame(), Ok(None));
    assert_eq!(reader.pending(), 0);
    assert_eq!(reader.finish(), Ok(()));
}

#[test]
fn frames_are_reassembled_from_any_chunking() {
    let sent = vec![
        frame(2, 7, FrameKind::Request(1), b"abc"),
        frame(2, 8, FrameKind::Response(2), b"defgh"),
        frame(2, 9, FrameKind::Event, b"i"),
    ];
    let mut stream = Vec::new();
    for f in &sent {
        stream.extend_from_slice(&f.encode().unwrap());
    }
    for chunk in 1..stream.len() {
        let mut reader = FrameReader::new(64);
        let mut got = Vec::new();
        for piece in stream.chunks(chunk) {
            reader.feed(piece);
            while let Some(f) = reader.next_frame().unwrap() {
                got.push(f);
            }
        }
        assert_eq!(got, sent);
        assert_eq!(reader.finish(), Ok(()));
    }
}

#[test]
fn partial_frame_is_pending_and_then_truncated_at_the_end() {
    let bytes = frame(2, 7, FrameKind::Request(1), b"abc").encode().unwrap();
    for cut in 1..bytes.len() {
        let mut reader = FrameReader::new(64);
        reader.feed(&bytes[..cut]);
        assert_eq!(reader.next_frame(), Ok(None));
        assert_eq!(reader.pending(), cut);
        assert_eq!(reader.finish(), Err(ProtocolError::Truncated));
    }
}

#[test]
fn unknown_kind_is_a_protocol_error() {
    let mut reader = FrameReader::new(64);
    reader.feed(&[0, 0, 0, 2, 0, 0, 0, 7, 3]);
    assert_eq!(reader.next_frame(), Err(ProtocolError::UnknownKind(3)));
    // the error stays: nothing is skipped
    reader.feed(&frame(2, 7, FrameKind::Event, b"").encode().unwrap());
    assert_eq!(reader.next_frame(), Err(ProtocolError::UnknownKind(3)));
}

#[test]
fn length_beyond_the_limit_is_a_protocol_error() {
    let bytes = frame(2, 7, FrameKind::Event, &[0; 11]).encode().unwrap();
    let mut reader = FrameReader::new(10);
    reader.feed(&bytes[..13]);
    assert_eq!(reader.next_frame(), Err(ProtocolError::PayloadTooLong(11)));
    let mut reader = FrameReader::new(11);
    reader.feed(&bytes);
    assert_eq!(reader.next_frame(), Ok(Some(frame(2, 7, FrameKind::Event, &[0; 11]))));
}

#[test]
fn send_queues_whole_frames_in_order() {
    let mut transport = Transport::new(64);
    let a = frame(2, 7, FrameKind::Response(1), b"a");
    let b = frame(2, 7, FrameKind::Response(2), b"bb");
    assert_eq!(transport.send_message(&a), Ok(()));
    assert_eq!(transport.send_message(&b), Ok(()));
    let mut expected = a.encode().unwrap();
    expected.extend_from_slice(&b.encode().unwrap());
    assert_eq!(transport.take_outbound(), expected);
    assert_eq!(transport.take_outbound(), Vec::<u8>::new());
}

#[test]
fn send_on_a_closed_transport_fails_and_queues_nothing() {
    let mut transport = Transport::new(64);
    transport.disconnect();
    assert!(!transport.is_open());
    assert_eq!(
        transport.send_message(&frame(2, 7, FrameKind::Event, b"")),
        Err(TransportError::Closed)
    );
    assert_eq!(transport.take_outbound(), Vec::<u8>::new());
}

#[test]
fn payload_beyond_the_limit_is_not_sent() {
    let mut transport = Transport::new(4);
    assert_eq!(
        transport.send_message(&frame(2, 7, FrameKind::Event, &[0; 5])),
        Err(TransportError::PayloadTooLarge)
    );
    assert_eq!(transport.take_outbound(), Vec::<u8>::new());
    assert_eq!(transport.send_message(&frame(2, 7, FrameKind::Event, &[0; 4])), Ok(()));
    assert_eq!(transport.take_outbound().len(), 17);
}

#[test]
fn inbound_stream_ends_with_closed() {
    let mut transport = Transport::new(64);
    let f = frame(2, 7, FrameKind::Event, b"x");
    transport.receive(&f.encode().unwrap());
    transport.disconnect();
    assert_eq!(transport.next_frame(), Ok(Inbound::Frame(f)));
    assert_eq!(transport.next_frame(), Ok(Inbound::Closed));
    assert_eq!(transport.next_frame(), Ok(Inbound::Closed));
}

#[test]
fn inbound_stream_is_pending_while_open() {
    let mut transport = Transport::new(64);
    assert_eq!(transport.next_frame(), Ok(Inbound::Pending));
    transport.receive(&[0, 0]);
    assert_eq!(transport.next_frame(), Ok(Inbound::Pending));
    transport.disconnect();
    assert_eq!(transport.next_frame(), Err(ProtocolError::Truncated));
}

#[test]
fn malformed_stream_closes_the_transport() {
    let mut transport = Transport::new(64);
    transport.receive(&[0, 0, 0, 2, 0, 0, 0, 7, 200]);
    assert_eq!(transport.next_frame(), Err(ProtocolError::UnknownKind(200)));
    assert!(!transport.is_open());
    assert_eq!(
        transport.send_message(&frame(2, 7, FrameKind::Event, b"")),
        Err(TransportError::Closed)
    );
}
