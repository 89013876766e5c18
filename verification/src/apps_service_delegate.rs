//! The session of the apps service delegate: from a request frame to the
//! command that is posted to the delegate's thread, and from the delegate's
//! answer to the response frame.
//!
//! The delegate itself is the caller's. The bridge decides which command a
//! request asks for, on which thread it may run, whether its answer comes at
//! once or through a response sink, and what is sent back; the caller makes
//! the calls in between.

use crate::dispatch::{advance, emits_response, next_state, RequestEvent, RequestState};
use crate::errors::{DecodeError, NsError};
use crate::frame::{Frame, FrameKind, FrameView};
use crate::messages::{GeckoBridgeFromClient, GeckoBridgeToClient};
use crate::payload::{payload_bytes, Body, MessageView};
use crate::schema::{answer_indices, parse_payload, Direction};
use crate::transport::{after_send, after_sending, Transport};
use crate::TrackerId;
use vstd::prelude::*;

verus! {

/// A capability that may only be used on the thread that owns it.
#[derive(Clone, Copy, Debug, PartialEq, Eq, Structural)]
pub struct ThreadBound {
    /// Names the capability to the caller.
    pub object: u64,
    /// The thread on which the capability lives.
    pub owning_thread: u64,
}

impl ThreadBound {
    /// The thread on which the capability lives.
    pub fn owning_thread(&self) -> (thread: u64)
        ensures
            thread == self.owning_thread,
    {
        self.owning_thread
    }

    /// The capability, if asked for on the thread that owns it.
    pub fn get(&self, current_thread: u64) -> (object: Option<u64>)
        ensures
            object == if current_thread == self.owning_thread {
                Some(self.object)
            } else {
                None
            },
    {
        if current_thread == self.owning_thread {
            Some(self.object)
        } else {
            None
        }
    }
}

/// A command for the apps service delegate.
#[derive(Debug, PartialEq, Eq)]
pub enum AppsServiceCommand {
    /// The manifest URL and the features of an application found at boot.
    OnBoot(String, String),
    OnBootDone,
    /// The manifest URL, what to clear, and the features.
    OnClear(String, String, String),
    /// The manifest URL and the features.
    OnInstall(String, String),
    /// The manifest URL and the features.
    OnUpdate(String, String),
    /// The manifest URL.
    OnUninstall(String),
    /// The manifest URL.
    OnLaunch(String),
    GetUa,
}

/// A command as values.
pub enum CommandView {
    OnBoot(Seq<char>, Seq<char>),
    OnBootDone,
    OnClear(Seq<char>, Seq<char>, Seq<char>),
    OnInstall(Seq<char>, Seq<char>),
    OnUpdate(Seq<char>, Seq<char>),
    OnUninstall(Seq<char>),
    OnLaunch(Seq<char>),
    GetUa,
}

impl View for AppsServiceCommand {
    type V = CommandView;

    open spec fn view(&self) -> CommandView {
        match self {
            AppsServiceCommand::OnBoot(a, b) => CommandView::OnBoot(a@, b@),
            AppsServiceCommand::OnBootDone => CommandView::OnBootDone,
            AppsServiceCommand::OnClear(a, b, c) => CommandView::OnClear(a@, b@, c@),
            AppsServiceCommand::OnInstall(a, b) => CommandView::OnInstall(a@, b@),
            AppsServiceCommand::OnUpdate(a, b) => CommandView::OnUpdate(a@, b@),
            AppsServiceCommand::OnUninstall(a) => CommandView::OnUninstall(a@),
            AppsServiceCommand::OnLaunch(a) => CommandView::OnLaunch(a@),
            AppsServiceCommand::GetUa => CommandView::GetUa,
        }
    }
}

/// The command that a message asks for, if it is one of the apps service
/// delegate's: these are the variants to the client with the indices twenty
/// to twenty-seven.
pub open spec fn command_of(m: MessageView) -> Option<CommandView> {
    match (m.index, m.body) {
        (20, Body::Unit) => Some(CommandView::GetUa),
        (21, Body::TextText(a, b)) => Some(CommandView::OnBoot(a, b)),
        (22, Body::Unit) => Some(CommandView::OnBootDone),
        (23, Body::TextTextText(a, b, c)) => Some(CommandView::OnClear(a, b, c)),
        (24, Body::TextText(a, b)) => Some(CommandView::OnInstall(a, b)),
        (25, Body::Text(a)) => Some(CommandView::OnLaunch(a)),
        (26, Body::Text(a)) => Some(CommandView::OnUninstall(a)),
        (27, Body::TextText(a, b)) => Some(CommandView::OnUpdate(a, b)),
        _ => None,
    }
}

/// The command that a request payload asks for. A payload that does not
/// decode asks for none, and neither does a message meant for another
/// delegate.
pub open spec fn requested_command(payload: Seq<u8>) -> Result<CommandView, DecodeError> {
    match parse_payload(Direction::ToClient, payload) {
        Ok(m) => match command_of(m) {
            Some(c) => Ok(c),
            None => Err(DecodeError::Unexpected(m.index)),
        },
        Err(e) => Err(e),
    }
}

/// What the capability's call came to.
#[derive(Debug, PartialEq, Eq)]
pub enum CallOutcome {
    /// The call returned.
    Done,
    /// The call returned this text.
    Text(String),
    /// The call reported a failure.
    Failed,
}

/// The outcome of a call as values.
pub enum OutcomeView {
    Done,
    Text(Seq<char>),
    Failed,
}

impl View for CallOutcome {
    type V = OutcomeView;

    open spec fn view(&self) -> OutcomeView {
        match self {
            CallOutcome::Done => OutcomeView::Done,
            CallOutcome::Text(a) => OutcomeView::Text(a@),
            CallOutcome::Failed => OutcomeView::Failed,
        }
    }
}

/// The answer to a command that is answered as soon as the call returns.
/// Asking for the user agent succeeds with the text that the call returned,
/// and fails otherwise; the others succeed whatever the call came to. The
/// remaining commands are answered through a response sink.
pub open spec fn sync_reply(command: CommandView, outcome: OutcomeView) -> Option<MessageView> {
    match command {
        CommandView::OnBoot(..) => Some(GeckoBridgeFromClient::AppsServiceDelegateOnBootSuccess@),
        CommandView::OnBootDone => Some(
            GeckoBridgeFromClient::AppsServiceDelegateOnBootDoneSuccess@,
        ),
        CommandView::OnLaunch(..) => Some(
            GeckoBridgeFromClient::AppsServiceDelegateOnLaunchSuccess@,
        ),
        CommandView::GetUa => match outcome {
            OutcomeView::Text(ua) => Some(MessageView { index: 10, body: Body::Text(ua) }),
            _ => Some(GeckoBridgeFromClient::AppsServiceDelegateGetUaError@),
        },
        _ => None,
    }
}

/// The two answers, success first, between which the sink of a command
/// chooses. Commands that are answered as soon as the call returns have none.
pub open spec fn sink_replies(command: CommandView) -> Option<(MessageView, MessageView)> {
    match command {
        CommandView::OnClear(..) => Some(
            (
                GeckoBridgeFromClient::AppsServiceDelegateOnClearSuccess@,
                GeckoBridgeFromClient::AppsServiceDelegateOnClearError@,
            ),
        ),
        CommandView::OnInstall(..) => Some(
            (
                GeckoBridgeFromClient::AppsServiceDelegateOnInstallSuccess@,
                GeckoBridgeFromClient::AppsServiceDelegateOnInstallError@,
            ),
        ),
        CommandView::OnUpdate(..) => Some(
            (
                GeckoBridgeFromClient::AppsServiceDelegateOnUpdateSuccess@,
                GeckoBridgeFromClient::AppsServiceDelegateOnUpdateError@,
            ),
        ),
        CommandView::OnUninstall(..) => Some(
            (
                GeckoBridgeFromClient::AppsServiceDelegateOnUninstallSuccess@,
                GeckoBridgeFromClient::AppsServiceDelegateOnUninstallError@,
            ),
        ),
        _ => None,
    }
}

/// Every command is answered in exactly one of the two ways, and every
/// answer that the session produces is one that the schema pairs with the
/// message that asked for the command.
pub proof fn lemma_replies_answer_the_command(m: MessageView, outcome: OutcomeView)
    requires
        command_of(m) is Some,
    ensures
        answer_indices(Direction::ToClient, m.index) is Some,
        sync_reply(command_of(m).unwrap(), outcome) is Some <==> sink_replies(
            command_of(m).unwrap(),
        ) is None,
        sync_reply(command_of(m).unwrap(), outcome) matches Some(reply) ==> reply.index
            == answer_indices(Direction::ToClient, m.index).unwrap().0 || reply.index
            == answer_indices(Direction::ToClient, m.index).unwrap().1,
        sink_replies(command_of(m).unwrap()) matches Some((success, error)) ==> success.index
            == answer_indices(Direction::ToClient, m.index).unwrap().0 && error.index
            == answer_indices(Direction::ToClient, m.index).unwrap().1,
{
}

impl AppsServiceCommand {
    /// The command that a message asks for, if it is one of the apps service
    /// delegate's.
    pub fn from_message(message: GeckoBridgeToClient) -> (command: Option<Self>)
        ensures
            command_of(message@) matches Some(c) ==> command matches Some(x) && x@ == c,
            command_of(message@) is None ==> command is None,
    {
        match message {
            GeckoBridgeToClient::AppsServiceDelegateGetUa => Some(AppsServiceCommand::GetUa),
            GeckoBridgeToClient::AppsServiceDelegateOnBoot(manifest_url, value) => Some(
                AppsServiceCommand::OnBoot(manifest_url, value.into_string()),
            ),
            GeckoBridgeToClient::AppsServiceDelegateOnBootDone => Some(
                AppsServiceCommand::OnBootDone,
            ),
            GeckoBridgeToClient::AppsServiceDelegateOnClear(manifest_url, clear_type, value) => {
                Some(AppsServiceCommand::OnClear(manifest_url, clear_type, value.into_string()))
            },
            GeckoBridgeToClient::AppsServiceDelegateOnInstall(manifest_url, value) => Some(
                AppsServiceCommand::OnInstall(manifest_url, value.into_string()),
            ),
            GeckoBridgeToClient::AppsServiceDelegateOnUpdate(manifest_url, value) => Some(
                AppsServiceCommand::OnUpdate(manifest_url, value.into_string()),
            ),
            GeckoBridgeToClient::AppsServiceDelegateOnUninstall(manifest_url) => Some(
                AppsServiceCommand::OnUninstall(manifest_url),
            ),
            GeckoBridgeToClient::AppsServiceDelegateOnLaunch(manifest_url) => Some(
                AppsServiceCommand::OnLaunch(manifest_url),
            ),
            _ => None,
        }
    }

    /// A copy of the command.
    pub fn duplicate(&self) -> (copy: Self)
        ensures
            copy@ == self@,
    {
        match self {
            AppsServiceCommand::OnBoot(a, b) => AppsServiceCommand::OnBoot(a.clone(), b.clone()),
            AppsServiceCommand::OnBootDone => AppsServiceCommand::OnBootDone,
            AppsServiceCommand::OnClear(a, b, c) => AppsServiceCommand::OnClear(
                a.clone(),
                b.clone(),
                c.clone(),
            ),
            AppsServiceCommand::OnInstall(a, b) => AppsServiceCommand::OnInstall(
                a.clone(),
                b.clone(),
            ),
            AppsServiceCommand::OnUpdate(a, b) => AppsServiceCommand::OnUpdate(
                a.clone(),
                b.clone(),
            ),
            AppsServiceCommand::OnUninstall(a) => AppsServiceCommand::OnUninstall(a.clone()),
            AppsServiceCommand::OnLaunch(a) => AppsServiceCommand::OnLaunch(a.clone()),
            AppsServiceCommand::GetUa => AppsServiceCommand::GetUa,
        }
    }
}

/// A task as values.
pub struct TaskView {
    pub xpcom: ThreadBound,
    pub command: CommandView,
    pub service_id: TrackerId,
    pub object_id: TrackerId,
    pub request_id: u64,
    pub state: RequestState,
}

/// A response sink as values.
pub struct SinkView {
    pub task: TaskView,
    pub success: MessageView,
    pub error: MessageView,
}

/// What running a task asks of the caller, as values.
pub enum StepView {
    Idle,
    Call,
    CallWithSink(SinkView),
}

/// The frame that answers the request of a task: a response from the
/// session's address, with the identifier of the request.
pub open spec fn response_frame(task: TaskView, reply: MessageView) -> FrameView {
    FrameView {
        service_id: task.service_id,
        object_id: task.object_id,
        kind: FrameKind::Response(task.request_id),
        payload: payload_bytes(reply),
    }
}

/// A task with another state.
pub open spec fn in_state(task: TaskView, state: RequestState) -> TaskView {
    TaskView { state, ..task }
}

/// Whether a task runs on a thread: only a posted task does, and only on the
/// thread that owns its capability.
pub open spec fn runs_on(task: TaskView, current_thread: u64) -> bool {
    task.state is Posted && current_thread == task.xpcom.owning_thread
}

/// The task after it was run on a thread. A task that runs starts to
/// execute; if its command is answered through a sink, it goes on to await
/// the callback.
pub open spec fn after_run(task: TaskView, current_thread: u64) -> TaskView {
    if !runs_on(task, current_thread) {
        task
    } else if sink_replies(task.command) is Some {
        in_state(
            task,
            next_state(next_state(task.state, RequestEvent::Start), RequestEvent::Defer),
        )
    } else {
        in_state(task, next_state(task.state, RequestEvent::Start))
    }
}

/// What running a task on a thread asks of the caller.
pub open spec fn step_of_run(task: TaskView, current_thread: u64) -> StepView {
    if !runs_on(task, current_thread) {
        StepView::Idle
    } else {
        match sink_replies(task.command) {
            Some((success, error)) => StepView::CallWithSink(
                SinkView { task: after_run(task, current_thread), success, error },
            ),
            None => StepView::Call,
        }
    }
}

/// The task after it was handed what the capability's call came to.
pub open spec fn after_complete(task: TaskView, outcome: OutcomeView) -> TaskView {
    if sync_reply(task.command, outcome) is Some {
        in_state(task, next_state(task.state, RequestEvent::Return))
    } else {
        task
    }
}

/// The frame that is sent when a task is handed what the capability's call
/// came to, if one is sent.
pub open spec fn completion_frame(task: TaskView, outcome: OutcomeView) -> Option<FrameView> {
    match sync_reply(task.command, outcome) {
        Some(reply) => if emits_response(task.state, RequestEvent::Return) {
            Some(response_frame(task, reply))
        } else {
            None
        },
        None => None,
    }
}

/// The sink after it was invoked.
pub open spec fn after_invocation(sink: SinkView) -> SinkView {
    SinkView {
        task: in_state(sink.task, next_state(sink.task.state, RequestEvent::Invoke)),
        ..sink
    }
}

/// The frame that is sent when a sink is invoked, if one is sent: the success
/// message when the sink is resolved, the error message when it is rejected.
pub open spec fn invocation_frame(sink: SinkView, resolved: bool) -> Option<FrameView> {
    if emits_response(sink.task.state, RequestEvent::Invoke) {
        Some(
            response_frame(
                sink.task,
                if resolved {
                    sink.success
                } else {
                    sink.error
                },
            ),
        )
    } else {
        None
    }
}

/// The sink after its request was given up.
pub open spec fn after_abandon(sink: SinkView) -> SinkView {
    SinkView {
        task: in_state(sink.task, next_state(sink.task.state, RequestEvent::Drop)),
        ..sink
    }
}

/// A request for a command that is answered at once is answered exactly
/// once: the task runs on the owning thread and there only, the first
/// completion sends one response from the session's address with the
/// identifier of the request, and nothing that follows sends another or runs
/// the task again.
pub proof fn lemma_sync_request_is_answered_once(
    delegate: AppsServiceDelegate,
    command: CommandView,
    request_id: u64,
    outcome: OutcomeView,
    later: OutcomeView,
    thread: u64,
)
    requires
        sink_replies(command) is None,
    ensures
        ({
            let posted = delegate.task_for(command, request_id);
            let executing = after_run(posted, delegate.xpcom.owning_thread);
            let done = after_complete(executing, outcome);
            &&& thread != delegate.xpcom.owning_thread ==> step_of_run(posted, thread) is Idle
                && after_run(posted, thread) == posted
            &&& step_of_run(posted, delegate.xpcom.owning_thread) is Call
            &&& sync_reply(command, outcome) is Some
            &&& completion_frame(executing, outcome) == Some(
                FrameView {
                    service_id: delegate.service_id,
                    object_id: delegate.object_id,
                    kind: FrameKind::Response(request_id),
                    payload: payload_bytes(sync_reply(command, outcome).unwrap()),
                },
            )
            &&& completion_frame(posted, outcome) is None
            &&& completion_frame(done, later) is None
            &&& after_complete(done, later) == done
            &&& step_of_run(executing, thread) is Idle
            &&& step_of_run(done, thread) is Idle
        }),
{
}

/// A request for a command that is answered through a sink is answered once
/// at most: the task hands out one sink and does not answer itself, the
/// first invocation of the sink sends one response from the session's
/// address with the identifier of the request and the message that the
/// invocation chose, and no invocation that follows sends another.
pub proof fn lemma_sink_answers_once(
    delegate: AppsServiceDelegate,
    command: CommandView,
    request_id: u64,
    outcome: OutcomeView,
    first: bool,
    second: bool,
)
    requires
        sink_replies(command) is Some,
    ensures
        ({
            let posted = delegate.task_for(command, request_id);
            let waiting = after_run(posted, delegate.xpcom.owning_thread);
            let (success, error) = sink_replies(command).unwrap();
            let sink = SinkView { task: waiting, success, error };
            &&& step_of_run(posted, delegate.xpcom.owning_thread) == StepView::CallWithSink(sink)
            &&& completion_frame(waiting, outcome) is None
            &&& invocation_frame(sink, first) == Some(
                FrameView {
                    service_id: delegate.service_id,
                    object_id: delegate.object_id,
                    kind: FrameKind::Response(request_id),
                    payload: payload_bytes(
                        if first {
                            success
                        } else {
                            error
                        },
                    ),
                },
            )
            &&& invocation_frame(after_invocation(sink), second) is None
        }),
{
}

/// Once a sink was invoked, invoking it again sends nothing and changes
/// nothing, whatever state it was in before.
pub proof fn lemma_second_invocation_has_no_effect(sink: SinkView, second: bool)
    ensures
        invocation_frame(after_invocation(sink), second) is None,
        after_invocation(after_invocation(sink)) == after_invocation(sink),
{
}

/// A sink whose request was given up never sends anything.
pub proof fn lemma_abandoned_sink_is_silent(sink: SinkView, resolved: bool)
    requires
        sink.task.state is AwaitingCallback,
    ensures
        invocation_frame(after_abandon(sink), resolved) is None,
        after_invocation(after_abandon(sink)) == after_abandon(sink),
{
}

/// One command on its way to the delegate, with all that is needed to answer
/// the request that asked for it.
#[derive(Debug, PartialEq, Eq)]
pub struct AppsServiceDelegateTask {
    xpcom: ThreadBound,
    command: AppsServiceCommand,
    service_id: TrackerId,
    object_id: TrackerId,
    request_id: u64,
    state: RequestState,
}

impl View for AppsServiceDelegateTask {
    type V = TaskView;

    closed spec fn view(&self) -> TaskView {
        TaskView {
            xpcom: self.xpcom,
            command: self.command@,
            service_id: self.service_id,
            object_id: self.object_id,
            request_id: self.request_id,
            state: self.state,
        }
    }
}

/// What the caller is to do with a task that it ran.
#[derive(Debug, PartialEq, Eq)]
pub enum TaskStep {
    /// Nothing: the task is not on the thread that owns the capability, or it
    /// has run before.
    Idle,
    /// Call the capability as the command says, then hand what the call came
    /// to to `complete`.
    Call,
    /// Call the capability as the command says and hand it the sink. The
    /// answer is sent when the capability invokes the sink.
    CallWithSink(AppResponseXpcom),
}

impl View for TaskStep {
    type V = StepView;

    open spec fn view(&self) -> StepView {
        match self {
            TaskStep::Idle => StepView::Idle,
            TaskStep::Call => StepView::Call,
            TaskStep::CallWithSink(sink) => StepView::CallWithSink(sink@),
        }
    }
}

/// The response sink of one request: it answers the request with one of two
/// messages, once.
#[derive(Debug, PartialEq, Eq)]
pub struct AppResponseXpcom {
    task: AppsServiceDelegateTask,
    success: GeckoBridgeFromClient,
    error: GeckoBridgeFromClient,
}

impl View for AppResponseXpcom {
    type V = SinkView;

    closed spec fn view(&self) -> SinkView {
        SinkView { task: self.task@, success: self.success@, error: self.error@ }
    }
}

impl AppsServiceDelegateTask {
    /// The command to carry out.
    pub fn command(&self) -> (command: &AppsServiceCommand)
        ensures
            command@ == self@.command,
    {
        &self.command
    }

    /// The capability to call.
    pub fn xpcom(&self) -> (xpcom: ThreadBound)
        ensures
            xpcom == self@.xpcom,
    {
        self.xpcom
    }

    /// The identifier of the request that is answered.
    pub fn request_id(&self) -> (request_id: u64)
        ensures
            request_id == self@.request_id,
    {
        self.request_id
    }

    /// Where the request stands.
    pub fn state(&self) -> (state: RequestState)
        ensures
            state == self@.state,
    {
        self.state
    }

    /// A copy of the task.
    fn duplicate(&self) -> (copy: Self)
        ensures
            copy@ == self@,
    {
        AppsServiceDelegateTask {
            xpcom: self.xpcom,
            command: self.command.duplicate(),
            service_id: self.service_id,
            object_id: self.object_id,
            request_id: self.request_id,
            state: self.state,
        }
    }

    /// Sends `payload` as the answer to the request. If the frame cannot be
    /// sent, the answer is lost: it is not tried again.
    fn reply(&self, payload: &GeckoBridgeFromClient, transport: &mut Transport)
        ensures
            final(transport)@ == after_send(old(transport)@, response_frame(self@, payload@)),
    {
        let message = Frame {
            service_id: self.service_id,
            object_id: self.object_id,
            kind: FrameKind::Response(self.request_id),
            payload: payload.encode(),
        };
        let _ = transport.send_message(&message);
    }

    /// A sink that answers the same request.
    fn apps_response(&self, success: GeckoBridgeFromClient, error: GeckoBridgeFromClient) -> (sink:
        AppResponseXpcom)
        ensures
            sink@ == (SinkView { task: self@, success: success@, error: error@ }),
    {
        AppResponseXpcom::new(self.duplicate(), success, error)
    }

    /// Runs the task on the current thread. Only a posted task on the thread
    /// that owns the capability runs; the result says which call the caller
    /// is to make then.
    pub fn run(&mut self, current_thread: u64) -> (step: TaskStep)
        ensures
            step@ == step_of_run(old(self)@, current_thread),
            final(self)@ == after_run(old(self)@, current_thread),
    {
        if self.state != RequestState::Posted {
            return TaskStep::Idle;
        }
        if self.xpcom.get(current_thread).is_none() {
            return TaskStep::Idle;
        }
        let (executing, _) = advance(self.state, RequestEvent::Start);
        let (waiting, _) = advance(executing, RequestEvent::Defer);
        match &self.command {
            AppsServiceCommand::OnClear(..) => {
                self.state = waiting;
                TaskStep::CallWithSink(
                    self.apps_response(
                        GeckoBridgeFromClient::AppsServiceDelegateOnClearSuccess,
                        GeckoBridgeFromClient::AppsServiceDelegateOnClearError,
                    ),
                )
            },
            AppsServiceCommand::OnInstall(..) => {
                self.state = waiting;
                TaskStep::CallWithSink(
                    self.apps_response(
                        GeckoBridgeFromClient::AppsServiceDelegateOnInstallSuccess,
                        GeckoBridgeFromClient::AppsServiceDelegateOnInstallError,
                    ),
                )
            },
            AppsServiceCommand::OnUpdate(..) => {
                self.state = waiting;
                TaskStep::CallWithSink(
                    self.apps_response(
                        GeckoBridgeFromClient::AppsServiceDelegateOnUpdateSuccess,
                        GeckoBridgeFromClient::AppsServiceDelegateOnUpdateError,
                    ),
                )
            },
            AppsServiceCommand::OnUninstall(..) => {
                self.state = waiting;
                TaskStep::CallWithSink(
                    self.apps_response(
                        GeckoBridgeFromClient::AppsServiceDelegateOnUninstallSuccess,
                        GeckoBridgeFromClient::AppsServiceDelegateOnUninstallError,
                    ),
                )
            },
            _ => {
                self.state = executing;
                TaskStep::Call
            },
        }
    }

    /// Takes what the capability's call came to, and answers the request if
    /// the task is executing a command that is answered at once. A task in any
    /// other state sends nothing, so a request is answered once at most.
    pub fn complete(&mut self, outcome: CallOutcome, transport: &mut Transport)
        ensures
            final(self)@ == after_complete(old(self)@, outcome@),
            final(transport)@ == after_sending(
                old(transport)@,
                completion_frame(old(self)@, outcome@),
            ),
    {
        let payload = match &self.command {
            AppsServiceCommand::OnBoot(..) => {
                GeckoBridgeFromClient::AppsServiceDelegateOnBootSuccess
            },
            AppsServiceCommand::OnBootDone => {
                GeckoBridgeFromClient::AppsServiceDelegateOnBootDoneSuccess
            },
            AppsServiceCommand::OnLaunch(..) => {
                GeckoBridgeFromClient::AppsServiceDelegateOnLaunchSuccess
            },
            AppsServiceCommand::GetUa => match outcome {
                CallOutcome::Text(ua) => GeckoBridgeFromClient::AppsServiceDelegateGetUaSuccess(ua),
                _ => GeckoBridgeFromClient::AppsServiceDelegateGetUaError,
            },
            _ => {
                return ;
            },
        };
        let (next, answers) = advance(self.state, RequestEvent::Return);
        if answers {
            self.reply(&payload, transport);
        }
        self.state = next;
    }

    /// Gives the request up: its capability was torn down, or the connection
    /// was lost. An answered request stays answered.
    pub fn abandon(&mut self)
        ensures
            final(self)@ == in_state(old(self)@, next_state(old(self)@.state, RequestEvent::Drop)),
    {
        let (next, _) = advance(self.state, RequestEvent::Drop);
        self.state = next;
    }
}

impl AppResponseXpcom {
    /// A sink that answers the request of `task` with `success` when it is
    /// resolved and with `error` when it is rejected.
    pub fn new(
        task: AppsServiceDelegateTask,
        success: GeckoBridgeFromClient,
        error: GeckoBridgeFromClient,
    ) -> (sink: Self)
        ensures
            sink@ == (SinkView { task: task@, success: success@, error: error@ }),
    {
        AppResponseXpcom { task, success, error }
    }

    /// Where the request stands.
    pub fn state(&self) -> (state: RequestState)
        ensures
            state == self@.task.state,
    {
        self.task.state
    }

    /// Answers the request with the success message. Only the first
    /// invocation of a sink that awaits its callback sends anything; any later
    /// one changes nothing, and neither does one after the request was given
    /// up.
    pub fn resolve(&mut self, transport: &mut Transport) -> (result: Result<(), NsError>)
        ensures
            result is Ok,
            final(self)@ == after_invocation(old(self)@),
            final(transport)@ == after_sending(
                old(transport)@,
                invocation_frame(old(self)@, true),
            ),
    {
        let (next, answers) = advance(self.task.state, RequestEvent::Invoke);
        if answers {
            self.task.reply(&self.success, transport);
        }
        self.task.state = next;
        Ok(())
    }

    /// Answers the request with the error message. Only the first invocation
    /// of a sink that awaits its callback sends anything; any later one
    /// changes nothing, and neither does one after the request was given up.
    pub fn reject(&mut self, transport: &mut Transport) -> (result: Result<(), NsError>)
        ensures
            result is Ok,
            final(self)@ == after_invocation(old(self)@),
            final(transport)@ == after_sending(
                old(transport)@,
                invocation_frame(old(self)@, false),
            ),
    {
        let (next, answers) = advance(self.task.state, RequestEvent::Invoke);
        if answers {
            self.task.reply(&self.error, transport);
        }
        self.task.state = next;
        Ok(())
    }

    /// Gives the request up: the capability was torn down without invoking
    /// the sink, or the connection was lost. Nothing is sent, now or later.
    pub fn abandon(&mut self)
        ensures
            final(self)@ == after_abandon(old(self)@),
    {
        self.task.abandon();
    }
}

/// The session of the apps service delegate: its address, and the capability
/// that carries out its commands.
#[derive(Clone, Copy, Debug, PartialEq, Eq, Structural)]
pub struct AppsServiceDelegate {
    pub xpcom: ThreadBound,
    pub service_id: TrackerId,
    pub object_id: TrackerId,
}

impl AppsServiceDelegate {
    /// The session of the capability `xpcom` at the given address.
    pub fn new(xpcom: ThreadBound, service_id: TrackerId, object_id: TrackerId) -> (delegate:
        Self)
        ensures
            delegate == (AppsServiceDelegate { xpcom, service_id, object_id }),
    {
        AppsServiceDelegate { xpcom, service_id, object_id }
    }

    /// The task that `on_request` makes of a request for `command`.
    pub open spec fn task_for(self, command: CommandView, request_id: u64) -> TaskView {
        TaskView {
            xpcom: self.xpcom,
            command,
            service_id: self.service_id,
            object_id: self.object_id,
            request_id,
            state: RequestState::Posted,
        }
    }

    /// The task that carries `command` to the delegate. The caller posts it to
    /// the thread that owns the capability.
    pub fn post_task(&self, command: AppsServiceCommand, request_id: u64) -> (task:
        AppsServiceDelegateTask)
        ensures
            task@ == self.task_for(command@, request_id),
    {
        AppsServiceDelegateTask {
            xpcom: self.xpcom,
            command,
            service_id: self.service_id,
            object_id: self.object_id,
            request_id,
            state: RequestState::Posted,
        }
    }

    /// Unpacks a request. A payload that asks for one of the delegate's
    /// commands gives the task to post; any other is to be dropped, for the
    /// reason given.
    pub fn on_request(&self, request: &Frame, request_id: u64) -> (task: Result<
        AppsServiceDelegateTask,
        DecodeError,
    >)
        ensures
            requested_command(request@.payload) matches Ok(c) ==> task matches Ok(t) && t@
                == self.task_for(c, request_id),
            requested_command(request@.payload) matches Err(e) ==> task matches Err(x) && x == e,
    {
        match GeckoBridgeToClient::decode(request.payload.as_slice()) {
            Ok(message) => {
                let index = message.variant_index();
                match AppsServiceCommand::from_message(message) {
                    Some(command) => Ok(self.post_task(command, request_id)),
                    None => Err(DecodeError::Unexpected(index)),
                }
            },
            Err(e) => Err(e),
        }
    }

    /// Takes an event. The delegate has no use for events.
    pub fn on_event(&self, _event: &[u8]) {
    }

    /// The address of the session: the service, then the object.
    pub fn get_ids(&self) -> (ids: (TrackerId, TrackerId))
        ensures
            ids == (self.service_id, self.object_id),
    {
        (self.service_id, self.object_id)
    }

    /// The capability of the session.
    pub fn as_xpcom(&self) -> (xpcom: &ThreadBound)
        ensures
            *xpcom == self.xpcom,
    {
        &self.xpcom
    }
}

} // verus!
