use gecko_bridge::errors::{DecodeError, RequestError, TransportError};
use gecko_bridge::frame::{Frame, FrameKind};
use gecko_bridge::messages::{GeckoBridgeFromClient, GeckoBridgeToClient, ObjectRef};
use gecko_bridge::pending::{Completion, Outcome, PendingRequest, PendingRequests};
use gecko_bridge::transport::Transport;

fn set_delegate() -> GeckoBridgeFromClient {
    GeckoBridgeFromClient::GeckoFeaturesSetAppsServiceDelegate(ObjectRef { id: 7 })
}

fn answer(id: u64, message: GeckoBridgeToClient) -> Frame {
    Frame { service_id: 1, object_id: 0, kind: FrameKind::Response(id), payload: message.encode() }
}

#[test]
fn request_is_framed_and_recorded() {
    let mut pending = PendingRequests::new();
    let mut transport = Transport::new(64);
    assert_eq!(pending.send_request(1, 0, &set_delegate(), &mut transport), Ok(0));
    assert_eq!(pending.send_request(1, 0, &set_delegate(), &mut transport), Ok(1));
    assert_eq!(pending.len(), 2);
    assert_eq!(pending.get(1), Some(PendingRequest { request_id: 1, request_index: 5 }));
    assert_eq!(pending.get(2), None);
    let mut expected = Vec::new();
    for id in 0..2 {
        let frame = Frame {
            service_id: 1,
            object_id: 0,
            kind: FrameKind::Request(id),
            payload: set_delegate().encode(),
        };
        expected.extend_from_slice(&frame.encode().unwrap());
    }
    assert_eq!(transport.take_outbound(), expected);
}

#[test]
fn an_answer_is_no_request() {
    let mut pending = PendingRequests::new();
    let mut transport = Transport::new(64);
    assert_eq!(
        pending.send_request(
            1,
            0,
            &GeckoBridgeFromClient::AppsServiceDelegateOnBootSuccess,
            &mut transport
        ),
        Err(RequestError::NotARequest(12))
    );
    assert_eq!(pending.len(), 0);
    assert_eq!(transport.take_outbound(), Vec::<u8>::new());
}

#[test]
fn request_on_a_closed_transport_is_not_recorded() {
    let mut pending = PendingRequests::new();
    let mut transport = Transport::new(64);
    transport.disconnect();
    assert_eq!(
        pending.send_request(1, 0, &set_delegate(), &mut transport),
        Err(RequestError::Transport(TransportError::Closed))
    );
    assert_eq!(pending.len(), 0);
    // the identifier was not used up
    let mut open = Transport::new(64);
    assert_eq!(pending.send_request(1, 0, &set_delegate(), &mut open), Ok(0));
}

#[test]
fn identifier_in_use_is_refused() {
    let mut pending = PendingRequests::new();
    let mut transport = Transport::new(64);
    assert_eq!(pending.send_request_with_id(9, 1, 0, &set_delegate(), &mut transport), Ok(9));
    let queued = transport.take_outbound();
    assert!(!queued.is_empty());
    assert_eq!(
        pending.send_request_with_id(9, 1, 0, &set_delegate(), &mut transport),
        Err(RequestError::IdInUse(9))
    );
    assert_eq!(pending.len(), 1);
    assert_eq!(transport.take_outbound(), Vec::<u8>::new());
    // the identifiers that the counter hands out are not touched
    assert_eq!(pending.send_request(1, 0, &set_delegate(), &mut transport), Ok(0));
}

#[test]
fn identifiers_start_over_after_the_last() {
    let mut pending = PendingRequests::starting_at(u64::MAX);
    let mut transport = Transport::new(64);
    assert_eq!(pending.send_request(1, 0, &set_delegate(), &mut transport), Ok(u64::MAX));
    assert_eq!(pending.send_request(1, 0, &set_delegate(), &mut transport), Ok(0));
    assert_eq!(pending.close(), vec![u64::MAX, 0]);
}

#[test]
fn request_beyond_the_limit_is_not_recorded() {
    let mut pending = PendingRequests::new();
    let mut transport = Transport::new(16);
    let request =
        GeckoBridgeFromClient::GeckoFeaturesCharPrefChanged("name".to_string(), "v".to_string());
    assert_eq!(request.encode().len(), 25);
    assert_eq!(
        pending.send_request(1, 0, &request, &mut transport),
        Err(RequestError::Transport(TransportError::PayloadTooLarge))
    );
    assert_eq!(pending.len(), 0);
    assert_eq!(transport.take_outbound(), Vec::<u8>::new());
}

#[test]
fn success_and_error_answers_resolve() {
    let mut pending = PendingRequests::new();
    let mut transport = Transport::new(64);
    let a = pending.send_request(1, 0, &set_delegate(), &mut transport).unwrap();
    let b = pending.send_request(1, 0, &set_delegate(), &mut transport).unwrap();
    assert_eq!(
        pending.on_response(&answer(
            a,
            GeckoBridgeToClient::GeckoFeaturesSetAppsServiceDelegateSuccess
        )),
        Completion::Resolved(
            a,
            Outcome::Success(GeckoBridgeToClient::GeckoFeaturesSetAppsServiceDelegateSuccess)
        )
    );
    assert_eq!(
        pending.on_response(&answer(
            b,
            GeckoBridgeToClient::GeckoFeaturesSetAppsServiceDelegateError
        )),
        Completion::Resolved(
            b,
            Outcome::Error(GeckoBridgeToClient::GeckoFeaturesSetAppsServiceDelegateError)
        )
    );
    assert_eq!(pending.len(), 0);
}

#[test]
fn answer_to_another_request_is_dropped_and_the_request_stays() {
    let mut pending = PendingRequests::new();
    let mut transport = Transport::new(64);
    let id = pending.send_request(1, 0, &set_delegate(), &mut transport).unwrap();
    assert_eq!(
        pending.on_response(&answer(
            id,
            GeckoBridgeToClient::GeckoFeaturesSetPowerManagerDelegateSuccess
        )),
        Completion::Dropped(id, DecodeError::Unexpected(16))
    );
    let garbage =
        Frame { service_id: 1, object_id: 0, kind: FrameKind::Response(id), payload: vec![1] };
    assert_eq!(pending.on_response(&garbage), Completion::Dropped(id, DecodeError::Malformed));
    assert_eq!(pending.len(), 1);
    assert!(matches!(
        pending.on_response(&answer(
            id,
            GeckoBridgeToClient::GeckoFeaturesSetAppsServiceDelegateSuccess
        )),
        Completion::Resolved(_, Outcome::Success(_))
    ));
}

#[test]
fn stale_answer_is_unmatched() {
    let mut pending = PendingRequests::new();
    let mut transport = Transport::new(64);
    let id = pending.send_request(1, 0, &set_delegate(), &mut transport).unwrap();
    let frame = answer(id, GeckoBridgeToClient::GeckoFeaturesSetAppsServiceDelegateSuccess);
    assert!(matches!(pending.on_response(&frame), Completion::Resolved(..)));
    assert_eq!(pending.on_response(&frame), Completion::Unmatched(id));
    assert_eq!(
        pending.on_response(&answer(
            99,
            GeckoBridgeToClient::GeckoFeaturesSetAppsServiceDelegateSuccess
        )),
        Completion::Unmatched(99)
    );
}

#[test]
fn only_responses_complete_requests() {
    let mut pending = PendingRequests::new();
    let event = Frame { service_id: 1, object_id: 0, kind: FrameKind::Event, payload: vec![] };
    assert_eq!(pending.on_response(&event), Completion::NotAResponse);
    let request =
        Frame { service_id: 1, object_id: 0, kind: FrameKind::Request(0), payload: vec![] };
    assert_eq!(pending.on_response(&request), Completion::NotAResponse);
}

#[test]
fn close_ends_every_request_once() {
    let mut pending = PendingRequests::new();
    let mut transport = Transport::new(64);
    for _ in 0..3 {
        pending.send_request(1, 0, &set_delegate(), &mut transport).unwrap();
    }
    assert!(matches!(
        pending.on_response(&answer(
            1,
            GeckoBridgeToClient::GeckoFeaturesSetAppsServiceDelegateSuccess
        )),
        Completion::Resolved(..)
    ));
    assert_eq!(pending.close(), vec![0, 2]);
    assert_eq!(pending.close(), Vec::<u64>::new());
    assert_eq!(pending.len(), 0);
    assert_eq!(
        pending.on_response(&answer(
            0,
            GeckoBridgeToClient::GeckoFeaturesSetAppsServiceDelegateSuccess
        )),
        Completion::Unmatched(0)
    );
}
