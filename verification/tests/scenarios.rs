use gecko_bridge::apps_service_delegate::{AppResponseXpcom, TaskStep, ThreadBound};
use gecko_bridge::dispatch::RequestState;
use gecko_bridge::frame::{Frame, FrameKind};
use gecko_bridge::messages::{GeckoBridgeFromClient, GeckoBridgeToClient, JsonValue, ObjectRef};
use gecko_bridge::pending::{Completion, Outcome, PendingRequests};
use gecko_bridge::registry::{Dispatch, SessionRegistry};
use gecko_bridge::transport::{Inbound, Transport};

const OWNER: u64 = 10;

fn on_install(id: u64) -> Frame {
    Frame {
        service_id: 2,
        object_id: 7,
        kind: FrameKind::Request(id),
        payload: GeckoBridgeToClient::AppsServiceDelegateOnInstall(
            "app://x".to_string(),
            JsonValue::new("{}".to_string()),
        )
        .encode(),
    }
}

fn sink_for(registry: &SessionRegistry, frame: &Frame) -> AppResponseXpcom {
    let mut task = match registry.dispatch(frame) {
        Dispatch::Post(task) => task,
        other => panic!("expected a task, got {:?}", other),
    };
    match task.run(OWNER) {
        TaskStep::CallWithSink(sink) => sink,
        other => panic!("expected a sink, got {:?}", other),
    }
}

fn drain(transport: &mut Transport) -> Vec<Frame> {
    let mut frames = Vec::new();
    while let Ok(Inbound::Frame(frame)) = transport.next_frame() {
        frames.push(frame);
    }
    frames
}

#[test]
fn install_request_is_resolved_with_its_identifier() {
    // the peer's end and ours, joined by copying bytes
    let mut peer = Transport::new(1024);
    let mut ours = Transport::new(1024);
    let mut registry = SessionRegistry::new();
    registry.register(2, 7, ThreadBound { object: 1, owning_thread: OWNER });

    peer.send_message(&on_install(42)).unwrap();
    ours.receive(&peer.take_outbound());
    let inbound = drain(&mut ours);
    assert_eq!(inbound, vec![on_install(42)]);

    let mut sink = sink_for(&registry, &inbound[0]);
    sink.resolve(&mut ours).unwrap();

    peer.receive(&ours.take_outbound());
    assert_eq!(
        drain(&mut peer),
        vec![Frame {
            service_id: 2,
            object_id: 7,
            kind: FrameKind::Response(42),
            payload: GeckoBridgeFromClient::AppsServiceDelegateOnInstallSuccess.encode(),
        }]
    );
}

#[test]
fn requests_resolved_out_of_order_keep_their_identifiers() {
    let mut ours = Transport::new(1024);
    let mut registry = SessionRegistry::new();
    registry.register(2, 7, ThreadBound { object: 1, owning_thread: OWNER });
    let mut first = sink_for(&registry, &on_install(1));
    let mut second = sink_for(&registry, &on_install(2));

    second.resolve(&mut ours).unwrap();
    first.reject(&mut ours).unwrap();

    let mut peer = Transport::new(1024);
    peer.receive(&ours.take_outbound());
    let answers = drain(&mut peer);
    assert_eq!(answers.len(), 2);
    assert_eq!(answers[0].kind, FrameKind::Response(2));
    assert_eq!(
        answers[0].payload,
        GeckoBridgeFromClient::AppsServiceDelegateOnInstallSuccess.encode()
    );
    assert_eq!(answers[1].kind, FrameKind::Response(1));
    assert_eq!(
        answers[1].payload,
        GeckoBridgeFromClient::AppsServiceDelegateOnInstallError.encode()
    );
}

#[test]
fn requester_matches_answers_by_identifier() {
    let mut pending = PendingRequests::new();
    let mut transport = Transport::new(1024);
    let request = GeckoBridgeFromClient::GeckoFeaturesSetPowerManagerDelegate(ObjectRef { id: 3 });
    let one = pending.send_request(1, 0, &request, &mut transport).unwrap();
    let two = pending.send_request(1, 0, &request, &mut transport).unwrap();
    let answer = |id: u64, message: GeckoBridgeToClient| Frame {
        service_id: 1,
        object_id: 0,
        kind: FrameKind::Response(id),
        payload: message.encode(),
    };
    assert_eq!(
        pending.on_response(&answer(
            two,
            GeckoBridgeToClient::GeckoFeaturesSetPowerManagerDelegateError
        )),
        Completion::Resolved(
            two,
            Outcome::Error(GeckoBridgeToClient::GeckoFeaturesSetPowerManagerDelegateError)
        )
    );
    assert_eq!(
        pending.on_response(&answer(
            one,
            GeckoBridgeToClient::GeckoFeaturesSetPowerManagerDelegateSuccess
        )),
        Completion::Resolved(
            one,
            Outcome::Success(GeckoBridgeToClient::GeckoFeaturesSetPowerManagerDelegateSuccess)
        )
    );
}

#[test]
fn connection_loss_closes_the_pending_request_once() {
    let mut pending = PendingRequests::new();
    let mut transport = Transport::new(1024);
    let request = GeckoBridgeFromClient::GeckoFeaturesSetAppsServiceDelegate(ObjectRef { id: 3 });
    let id = pending.send_request(1, 0, &request, &mut transport).unwrap();

    transport.disconnect();
    assert_eq!(transport.next_frame(), Ok(Inbound::Closed));
    assert_eq!(pending.close(), vec![id]);
    assert_eq!(pending.close(), Vec::<u64>::new());
}

#[test]
fn connection_loss_abandons_the_awaited_callback() {
    let mut ours = Transport::new(1024);
    let mut registry = SessionRegistry::new();
    registry.register(2, 7, ThreadBound { object: 1, owning_thread: OWNER });
    let mut sink = sink_for(&registry, &on_install(9));

    ours.disconnect();
    sink.abandon();
    assert_eq!(sink.state(), RequestState::Abandoned);
    sink.resolve(&mut ours).unwrap();
    assert_eq!(ours.take_outbound(), Vec::<u8>::new());
}
