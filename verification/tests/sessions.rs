use gecko_bridge::apps_service_delegate::{
    AppsServiceCommand, AppsServiceDelegate, CallOutcome, TaskStep, ThreadBound,
};
use gecko_bridge::dispatch::{advance, RequestEvent, RequestState};
use gecko_bridge::errors::{BridgeError, DecodeError};
use gecko_bridge::frame::{Frame, FrameKind};
use gecko_bridge::messages::{GeckoBridgeFromClient, GeckoBridgeToClient, JsonValue};
use gecko_bridge::registry::{Dispatch, SessionRegistry};
use gecko_bridge::transport::Transport;

const UI_THREAD: u64 = 1;
const READER_THREAD: u64 = 2;

fn capability() -> ThreadBound {
    ThreadBound { object: 100, owning_thread: UI_THREAD }
}

fn request(service_id: u32, object_id: u32, id: u64, command: GeckoBridgeToClient) -> Frame {
    Frame { service_id, object_id, kind: FrameKind::Request(id), payload: command.encode() }
}

fn response(service_id: u32, object_id: u32, id: u64, reply: GeckoBridgeFromClient) -> Vec<u8> {
    Frame { service_id, object_id, kind: FrameKind::Response(id), payload: reply.encode() }
        .encode()
        .unwrap()
}

fn on_install() -> GeckoBridgeToClient {
    GeckoBridgeToClient::AppsServiceDelegateOnInstall(
        "app://x".to_string(),
        JsonValue::new("{}".to_string()),
    )
}

#[test]
fn register_supersedes_and_unregister_removes() {
    let mut registry = SessionRegistry::new();
    assert_eq!(registry.session(2, 7), None);
    assert_eq!(registry.register(2, 7, capability()), None);
    let newer = ThreadBound { object: 101, owning_thread: 3 };
    assert_eq!(registry.register(2, 7, newer), Some(capability()));
    assert_eq!(
        registry.session(2, 7),
        Some(AppsServiceDelegate { xpcom: newer, service_id: 2, object_id: 7 })
    );
    assert_eq!(registry.session(7, 2), None);
    assert_eq!(registry.unregister(2, 7), Some(newer));
    assert_eq!(registry.unregister(2, 7), None);
    assert_eq!(registry.session(2, 7), None);
}

#[test]
fn clear_removes_every_session() {
    let mut registry = SessionRegistry::new();
    registry.register(2, 7, capability());
    registry.register(3, 1, capability());
    registry.clear();
    assert_eq!(registry.session(2, 7), None);
    assert_eq!(registry.session(3, 1), None);
    assert_eq!(
        registry.dispatch(&request(2, 7, 1, on_install())),
        Dispatch::Dropped(BridgeError::UnknownAddress)
    );
}

#[test]
fn addresses_do_not_collide() {
    let mut registry = SessionRegistry::new();
    let a = ThreadBound { object: 1, owning_thread: 1 };
    let b = ThreadBound { object: 2, owning_thread: 1 };
    registry.register(0, 1, a);
    registry.register(1, 0, b);
    registry.register(u32::MAX, u32::MAX, a);
    assert_eq!(registry.session(0, 1).unwrap().xpcom, a);
    assert_eq!(registry.session(1, 0).unwrap().xpcom, b);
    assert_eq!(registry.session(0, 0), None);
    assert_eq!(registry.session(u32::MAX, u32::MAX).unwrap().xpcom, a);
}

#[test]
fn frame_for_unknown_address_is_dropped() {
    let mut registry = SessionRegistry::new();
    registry.register(2, 7, capability());
    let frame = request(2, 8, 1, on_install());
    assert_eq!(registry.dispatch(&frame), Dispatch::Dropped(BridgeError::UnknownAddress));
    // the other session is untouched and still answers
    assert!(matches!(registry.dispatch(&request(2, 7, 1, on_install())), Dispatch::Post(_)));
    let event = Frame { service_id: 5, object_id: 5, kind: FrameKind::Event, payload: vec![] };
    assert_eq!(registry.dispatch(&event), Dispatch::Dropped(BridgeError::UnknownAddress));
}

#[test]
fn undecodable_request_is_dropped() {
    let mut registry = SessionRegistry::new();
    registry.register(2, 7, capability());
    let truncated =
        Frame { service_id: 2, object_id: 7, kind: FrameKind::Request(1), payload: vec![0, 0] };
    assert_eq!(
        registry.dispatch(&truncated),
        Dispatch::Dropped(BridgeError::DecodeError(DecodeError::Malformed))
    );
    let future = Frame {
        service_id: 2,
        object_id: 7,
        kind: FrameKind::Request(1),
        payload: vec![0, 0, 0, 99],
    };
    assert_eq!(
        registry.dispatch(&future),
        Dispatch::Dropped(BridgeError::DecodeError(DecodeError::Unsupported(99)))
    );
    // a message of the schema that is no command of the session
    let other = request(2, 7, 1, GeckoBridgeToClient::WakelockUnlock);
    assert_eq!(
        registry.dispatch(&other),
        Dispatch::Dropped(BridgeError::DecodeError(DecodeError::Unexpected(40)))
    );
}

#[test]
fn events_go_to_the_session_and_responses_are_set_aside() {
    let mut registry = SessionRegistry::new();
    registry.register(2, 7, capability());
    let event = Frame { service_id: 2, object_id: 7, kind: FrameKind::Event, payload: vec![1] };
    assert_eq!(
        registry.dispatch(&event),
        Dispatch::Event(AppsServiceDelegate { xpcom: capability(), service_id: 2, object_id: 7 })
    );
    let answer =
        Frame { service_id: 0, object_id: 0, kind: FrameKind::Response(5), payload: vec![] };
    assert_eq!(registry.dispatch(&answer), Dispatch::Response(5));
}

#[test]
fn on_request_unpacks_every_command() {
    let delegate = AppsServiceDelegate::new(capability(), 2, 7);
    let json = |s: &str| JsonValue::new(s.to_string());
    let cases = vec![
        (GeckoBridgeToClient::AppsServiceDelegateGetUa, AppsServiceCommand::GetUa),
        (
            GeckoBridgeToClient::AppsServiceDelegateOnBoot("u".to_string(), json("{}")),
            AppsServiceCommand::OnBoot("u".to_string(), "{}".to_string()),
        ),
        (GeckoBridgeToClient::AppsServiceDelegateOnBootDone, AppsServiceCommand::OnBootDone),
        (
            GeckoBridgeToClient::AppsServiceDelegateOnClear(
                "u".to_string(),
                "data".to_string(),
                json("[]"),
            ),
            AppsServiceCommand::OnClear("u".to_string(), "data".to_string(), "[]".to_string()),
        ),
        (
            GeckoBridgeToClient::AppsServiceDelegateOnInstall("u".to_string(), json("1")),
            AppsServiceCommand::OnInstall("u".to_string(), "1".to_string()),
        ),
        (
            GeckoBridgeToClient::AppsServiceDelegateOnUpdate("u".to_string(), json("2")),
            AppsServiceCommand::OnUpdate("u".to_string(), "2".to_string()),
        ),
        (
            GeckoBridgeToClient::AppsServiceDelegateOnUninstall("u".to_string()),
            AppsServiceCommand::OnUninstall("u".to_string()),
        ),
        (
            GeckoBridgeToClient::AppsServiceDelegateOnLaunch("u".to_string()),
            AppsServiceCommand::OnLaunch("u".to_string()),
        ),
    ];
    for (message, command) in cases {
        let task = delegate.on_request(&request(2, 7, 11, message), 11).unwrap();
        assert_eq!(task.command(), &command);
        assert_eq!(task.request_id(), 11);
        assert_eq!(task.xpcom(), capability());
        assert_eq!(task.state(), RequestState::Posted);
    }
    assert_eq!(delegate.get_ids(), (2, 7));
    assert_eq!(delegate.as_xpcom(), &capability());
}

#[test]
fn task_runs_only_on_the_owning_thread() {
    let delegate = AppsServiceDelegate::new(capability(), 2, 7);
    let mut task = delegate
        .on_request(&request(2, 7, 3, GeckoBridgeToClient::AppsServiceDelegateOnBootDone), 3)
        .unwrap();
    assert_eq!(task.run(READER_THREAD), TaskStep::Idle);
    assert_eq!(task.state(), RequestState::Posted);
    assert_eq!(task.run(UI_THREAD), TaskStep::Call);
    assert_eq!(task.state(), RequestState::Executing);
    // a task runs once
    assert_eq!(task.run(UI_THREAD), TaskStep::Idle);
    assert_eq!(capability().get(UI_THREAD), Some(100));
    assert_eq!(capability().get(READER_THREAD), None);
    assert_eq!(capability().owning_thread(), UI_THREAD);
}

#[test]
fn synchronous_commands_are_answered_once() {
    let cases = vec![
        (
            GeckoBridgeToClient::AppsServiceDelegateOnBoot(
                "u".to_string(),
                JsonValue::new("{}".to_string()),
            ),
            CallOutcome::Done,
            GeckoBridgeFromClient::AppsServiceDelegateOnBootSuccess,
        ),
        (
            GeckoBridgeToClient::AppsServiceDelegateOnBootDone,
            CallOutcome::Failed,
            GeckoBridgeFromClient::AppsServiceDelegateOnBootDoneSuccess,
        ),
        (
            GeckoBridgeToClient::AppsServiceDelegateOnLaunch("u".to_string()),
            CallOutcome::Done,
            GeckoBridgeFromClient::AppsServiceDelegateOnLaunchSuccess,
        ),
        (
            GeckoBridgeToClient::AppsServiceDelegateGetUa,
            CallOutcome::Text("Mozilla/5.0".to_string()),
            GeckoBridgeFromClient::AppsServiceDelegateGetUaSuccess("Mozilla/5.0".to_string()),
        ),
        (
            GeckoBridgeToClient::AppsServiceDelegateGetUa,
            CallOutcome::Failed,
            GeckoBridgeFromClient::AppsServiceDelegateGetUaError,
        ),
        (
            GeckoBridgeToClient::AppsServiceDelegateGetUa,
            CallOutcome::Done,
            GeckoBridgeFromClient::AppsServiceDelegateGetUaError,
        ),
    ];
    let delegate = AppsServiceDelegate::new(capability(), 2, 7);
    for (message, outcome, reply) in cases {
        let mut transport = Transport::new(64);
        let mut task = delegate.on_request(&request(2, 7, 77, message), 77).unwrap();
        assert_eq!(task.run(UI_THREAD), TaskStep::Call);
        task.complete(outcome, &mut transport);
        assert_eq!(task.state(), RequestState::RepliedSync);
        assert_eq!(transport.take_outbound(), response(2, 7, 77, reply));
        task.complete(CallOutcome::Done, &mut transport);
        assert_eq!(transport.take_outbound(), Vec::<u8>::new());
    }
}

#[test]
fn complete_before_run_sends_nothing() {
    let delegate = AppsServiceDelegate::new(capability(), 2, 7);
    let mut transport = Transport::new(64);
    let mut task = delegate
        .on_request(&request(2, 7, 1, GeckoBridgeToClient::AppsServiceDelegateGetUa), 1)
        .unwrap();
    task.complete(CallOutcome::Done, &mut transport);
    assert_eq!(task.state(), RequestState::Posted);
    assert_eq!(transport.take_outbound(), Vec::<u8>::new());
}

#[test]
fn callback_commands_are_answered_through_the_sink() {
    let json = || JsonValue::new("{}".to_string());
    let cases = vec![
        (
            GeckoBridgeToClient::AppsServiceDelegateOnClear(
                "u".to_string(),
                "data".to_string(),
                json(),
            ),
            GeckoBridgeFromClient::AppsServiceDelegateOnClearSuccess,
            GeckoBridgeFromClient::AppsServiceDelegateOnClearError,
        ),
        (
            GeckoBridgeToClient::AppsServiceDelegateOnInstall("u".to_string(), json()),
            GeckoBridgeFromClient::AppsServiceDelegateOnInstallSuccess,
            GeckoBridgeFromClient::AppsServiceDelegateOnInstallError,
        ),
        (
            GeckoBridgeToClient::AppsServiceDelegateOnUpdate("u".to_string(), json()),
            GeckoBridgeFromClient::AppsServiceDelegateOnUpdateSuccess,
            GeckoBridgeFromClient::AppsServiceDelegateOnUpdateError,
        ),
        (
            GeckoBridgeToClient::AppsServiceDelegateOnUninstall("u".to_string()),
            GeckoBridgeFromClient::AppsServiceDelegateOnUninstallSuccess,
            GeckoBridgeFromClient::AppsServiceDelegateOnUninstallError,
        ),
    ];
    let delegate = AppsServiceDelegate::new(capability(), 2, 7);
    for (message, success, error) in cases {
        for resolve in [true, false] {
            let mut transport = Transport::new(64);
            let mut task = delegate.on_request(&request(2, 7, 5, message.clone()), 5).unwrap();
            let mut sink = match task.run(UI_THREAD) {
                TaskStep::CallWithSink(sink) => sink,
                other => panic!("expected a sink, got {:?}", other),
            };
            assert_eq!(task.state(), RequestState::AwaitingCallback);
            assert_eq!(sink.state(), RequestState::AwaitingCallback);
            // the task itself does not answer
            task.complete(CallOutcome::Done, &mut transport);
            assert_eq!(transport.take_outbound(), Vec::<u8>::new());
            let expected = if resolve {
                assert_eq!(sink.resolve(&mut transport), Ok(()));
                success.clone()
            } else {
                assert_eq!(sink.reject(&mut transport), Ok(()));
                error.clone()
            };
            assert_eq!(sink.state(), RequestState::RepliedAsync);
            assert_eq!(transport.take_outbound(), response(2, 7, 5, expected));
        }
    }
}

#[test]
fn second_invocation_of_a_sink_has_no_effect() {
    let delegate = AppsServiceDelegate::new(capability(), 2, 7);
    let mut transport = Transport::new(64);
    let mut task = delegate.on_request(&request(2, 7, 5, on_install()), 5).unwrap();
    let mut sink = match task.run(UI_THREAD) {
        TaskStep::CallWithSink(sink) => sink,
        other => panic!("expected a sink, got {:?}", other),
    };
    assert_eq!(sink.resolve(&mut transport), Ok(()));
    let first = transport.take_outbound();
    assert!(!first.is_empty());
    assert_eq!(sink.resolve(&mut transport), Ok(()));
    assert_eq!(sink.reject(&mut transport), Ok(()));
    assert_eq!(transport.take_outbound(), Vec::<u8>::new());
    assert_eq!(sink.state(), RequestState::RepliedAsync);
}

#[test]
fn abandoned_sink_never_answers() {
    let delegate = AppsServiceDelegate::new(capability(), 2, 7);
    let mut transport = Transport::new(64);
    let mut task = delegate.on_request(&request(2, 7, 5, on_install()), 5).unwrap();
    let mut sink = match task.run(UI_THREAD) {
        TaskStep::CallWithSink(sink) => sink,
        other => panic!("expected a sink, got {:?}", other),
    };
    sink.abandon();
    assert_eq!(sink.state(), RequestState::Abandoned);
    assert_eq!(sink.resolve(&mut transport), Ok(()));
    assert_eq!(transport.take_outbound(), Vec::<u8>::new());
    assert_eq!(sink.state(), RequestState::Abandoned);
}

#[test]
fn reply_on_a_closed_transport_is_lost_and_not_retried() {
    let delegate = AppsServiceDelegate::new(capability(), 2, 7);
    let mut transport = Transport::new(64);
    let mut task = delegate
        .on_request(&request(2, 7, 1, GeckoBridgeToClient::AppsServiceDelegateGetUa), 1)
        .unwrap();
    assert_eq!(task.run(UI_THREAD), TaskStep::Call);
    transport.disconnect();
    task.complete(CallOutcome::Text("ua".to_string()), &mut transport);
    assert_eq!(task.state(), RequestState::RepliedSync);
    assert_eq!(transport.take_outbound(), Vec::<u8>::new());
}

#[test]
fn state_machine_transitions() {
    let table = [
        (RequestState::Received, RequestEvent::Post, RequestState::Posted, false),
        (RequestState::Posted, RequestEvent::Start, RequestState::Executing, false),
        (RequestState::Executing, RequestEvent::Return, RequestState::RepliedSync, true),
        (RequestState::Executing, RequestEvent::Defer, RequestState::AwaitingCallback, false),
        (RequestState::AwaitingCallback, RequestEvent::Invoke, RequestState::RepliedAsync, true),
        (RequestState::AwaitingCallback, RequestEvent::Drop, RequestState::Abandoned, false),
        (RequestState::Received, RequestEvent::Drop, RequestState::Abandoned, false),
        (RequestState::Posted, RequestEvent::Drop, RequestState::Abandoned, false),
        (RequestState::Executing, RequestEvent::Drop, RequestState::Abandoned, false),
        // events that do not apply change nothing
        (RequestState::Received, RequestEvent::Return, RequestState::Received, false),
        (RequestState::Posted, RequestEvent::Invoke, RequestState::Posted, false),
        (RequestState::RepliedSync, RequestEvent::Return, RequestState::RepliedSync, false),
        (RequestState::RepliedSync, RequestEvent::Drop, RequestState::RepliedSync, false),
        (RequestState::RepliedAsync, RequestEvent::Invoke, RequestState::RepliedAsync, false),
        (RequestState::Abandoned, RequestEvent::Invoke, RequestState::Abandoned, false),
        (RequestState::Abandoned, RequestEvent::Post, RequestState::Abandoned, false),
    ];
    for (state, event, next, emits) in table {
        assert_eq!(advance(state, event), (next, emits));
    }
}

#[test]
fn no_sequence_of_events_answers_twice() {
    let events = [
        RequestEvent::Post,
        RequestEvent::Start,
        RequestEvent::Return,
        RequestEvent::Defer,
        RequestEvent::Invoke,
        RequestEvent::Drop,
    ];
    // every sequence of five events
    for code in 0..6usize.pow(5) {
        let mut state = RequestState::Received;
        let mut frames = 0;
        let mut rest = code;
        for _ in 0..5 {
            let (next, emits) = advance(state, events[rest % 6]);
            rest /= 6;
            state = next;
            if emits {
                frames += 1;
            }
        }
        let answered =
            state == RequestState::RepliedSync || state == RequestState::RepliedAsync;
        assert_eq!(frames, if answered { 1 } else { 0 });
    }
}
