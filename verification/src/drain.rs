//! What a worker does with the events of its agent threads.
//!
//! Each thread's events are gone through in their order. An event that needs
//! the user is entered in the registry of its kind and turned into a question
//! for the parent; the answer, or the default where none comes, is then
//! submitted to the thread. A command that ended is recorded.

use crate::agent::Event;
use crate::agent::EventMsg;
use crate::agent::ExecCommandEndEvent;
use crate::agent::Op;
use crate::agent::OpView;
use crate::ident::AgentTreeRequestKey;
use crate::ident::RequestKeyView;
use crate::ident::ThreadId;
use crate::ipc::AgentTreeIpcMessage;
use crate::ipc::IpcMessageView;
use crate::ipc::NeedExecApproval;
use crate::ipc::NeedExecApprovalView;
use crate::ipc::NeedPatchApproval;
use crate::ipc::NeedPatchApprovalView;
use crate::ipc::NeedUserInput;
use crate::ipc::NeedUserInputView;
use crate::ipc::RequestUserInputResponse;
use crate::ipc::RequestUserInputResponseView;
use crate::ipc::ReviewDecision;
use crate::ipc::ReviewDecisionView;
use crate::ipc::WorkerCommandResult;
use crate::ipc::WorkerCommandResultView;
use crate::ipc::WorkerLog;
use crate::ipc::WorkerLogLevel;
use crate::ipc::WorkerLogView;
use crate::json::JsonView;
use crate::output::clip_output;
use crate::output::clipped;
use crate::output::OUTPUT_LIMIT;
use crate::registry::PendingRegistry;
use crate::slot::abandon;
use crate::slot::decision_or_default;
use crate::slot::register;
use crate::slot::response_or_empty;
use crate::text::join_texts;
use crate::text::joined;
use tokio::sync::oneshot::Receiver;
use tokio::sync::oneshot::Sender;
use vstd::prelude::*;
use vstd::string::*;

verus! {

/// What the tasks of one worker share: the outstanding requests of each
/// kind, and the commands that have ended so far.
pub struct WorkerShared {
    pub pending_user_input: PendingRegistry<Sender<RequestUserInputResponse>>,
    pub pending_exec_approval: PendingRegistry<Sender<ReviewDecision>>,
    pub pending_patch_approval: PendingRegistry<Sender<ReviewDecision>>,
    pub commands: Vec<WorkerCommandResult>,
    /// Whether the input has ended, so that no answer can arrive any more.
    pub input_closed: bool,
}

impl WorkerShared {
    /// Whether each registry is well formed.
    pub open spec fn well_formed(&self) -> bool {
        &&& self.pending_user_input.well_formed()
        &&& self.pending_exec_approval.well_formed()
        &&& self.pending_patch_approval.well_formed()
    }

    /// Nothing outstanding, nothing recorded.
    pub fn new() -> (shared: WorkerShared)
        ensures
            shared.well_formed(),
            shared.pending_user_input@.dom() == Set::<RequestKeyView>::empty(),
            shared.pending_exec_approval@.dom() == Set::<RequestKeyView>::empty(),
            shared.pending_patch_approval@.dom() == Set::<RequestKeyView>::empty(),
            shared.commands@.len() == 0,
            !shared.input_closed,
    {
        WorkerShared {
            pending_user_input: PendingRegistry::new(),
            pending_exec_approval: PendingRegistry::new(),
            pending_patch_approval: PendingRegistry::new(),
            commands: Vec::new(),
            input_closed: false,
        }
    }
}

impl WorkerShared {
    /// Gives up the request of the given kind under `key`, for which no
    /// question could be sent.
    pub fn abandon(&mut self, kind: InteractiveKind, key: &AgentTreeRequestKey) -> (found: bool)
        requires
            old(self).well_formed(),
        ensures
            final(self).well_formed(),
            final(self).commands == old(self).commands,
            final(self).input_closed == old(self).input_closed,
            match kind {
                InteractiveKind::UserInput => {
                    &&& final(self).pending_user_input@ == old(self).pending_user_input@.remove(
                        key@,
                    )
                    &&& final(self).pending_exec_approval == old(self).pending_exec_approval
                    &&& final(self).pending_patch_approval == old(self).pending_patch_approval
                    &&& found == old(self).pending_user_input@.contains_key(key@)
                },
                InteractiveKind::ExecApproval => {
                    &&& final(self).pending_exec_approval@ == old(
                        self,
                    ).pending_exec_approval@.remove(key@)
                    &&& final(self).pending_user_input == old(self).pending_user_input
                    &&& final(self).pending_patch_approval == old(self).pending_patch_approval
                    &&& found == old(self).pending_exec_approval@.contains_key(key@)
                },
                InteractiveKind::PatchApproval => {
                    &&& final(self).pending_patch_approval@ == old(
                        self,
                    ).pending_patch_approval@.remove(key@)
                    &&& final(self).pending_user_input == old(self).pending_user_input
                    &&& final(self).pending_exec_approval == old(self).pending_exec_approval
                    &&& found == old(self).pending_patch_approval@.contains_key(key@)
                },
            },
    {
        match kind {
            InteractiveKind::UserInput => abandon(&mut self.pending_user_input, key),
            InteractiveKind::ExecApproval => abandon(&mut self.pending_exec_approval, key),
            InteractiveKind::PatchApproval => abandon(&mut self.pending_patch_approval, key),
        }
    }
}

/// The kinds of request that need the user.
#[derive(Debug, Clone, Copy, PartialEq, Eq, Structural)]
pub enum InteractiveKind {
    UserInput,
    ExecApproval,
    PatchApproval,
}

/// How the log names a kind of request whose handling failed.
pub open spec fn failure_prefix(kind: InteractiveKind) -> Seq<char> {
    match kind {
        InteractiveKind::UserInput => "request_user_input failed: "@,
        InteractiveKind::ExecApproval => "exec approval failed: "@,
        InteractiveKind::PatchApproval => "patch approval failed: "@,
    }
}

/// The log line for a request whose question could not be sent or whose
/// answer could not be submitted. Such a failure does not end the drain.
pub fn handler_failure_log(kind: InteractiveKind, detail: &str) -> (message: AgentTreeIpcMessage)
    ensures
        message@ == failure_log(kind, detail@),
{
    let mut text = match kind {
        InteractiveKind::UserInput => String::from_str("request_user_input failed: "),
        InteractiveKind::ExecApproval => String::from_str("exec approval failed: "),
        InteractiveKind::PatchApproval => String::from_str("patch approval failed: "),
    };
    text.append(detail);
    AgentTreeIpcMessage::Log(WorkerLog { level: WorkerLogLevel::Error, message: text })
}

/// The record of a command that ended.
pub open spec fn command_record(
    command: Seq<Seq<char>>,
    exit_code: i32,
    formatted_output: Seq<char>,
) -> WorkerCommandResultView {
    WorkerCommandResultView {
        command: joined(command, " "@),
        exit_code: Some(exit_code),
        output: clipped(formatted_output, OUTPUT_LIMIT as int),
    }
}

/// Makes the record of a command that ended: its arguments joined by single
/// spaces, its exit code, its output cut to the limit.
pub fn record_command(ended: &ExecCommandEndEvent) -> (record: WorkerCommandResult)
    ensures
        record@ == command_record(
            ended.command.deep_view(),
            ended.exit_code,
            ended.formatted_output@,
        ),
{
    WorkerCommandResult {
        command: join_texts(&ended.command, " "),
        exit_code: Some(ended.exit_code),
        output: clip_output(ended.formatted_output.as_str(), OUTPUT_LIMIT),
    }
}

/// What the drain of a thread does next.
#[allow(inconsistent_fields)]
pub enum DrainStep {
    /// Send the question; then await the answer and submit what `answer_*`
    /// makes of it.
    AskUserInput {
        need: AgentTreeIpcMessage,
        event_id: String,
        waiter: Receiver<RequestUserInputResponse>,
    },
    AskExecApproval {
        need: AgentTreeIpcMessage,
        event_id: String,
        waiter: Receiver<ReviewDecision>,
    },
    AskPatchApproval {
        need: AgentTreeIpcMessage,
        event_id: String,
        waiter: Receiver<ReviewDecision>,
    },
    /// A request that is not put to the parent, because the input has ended
    /// or a request is outstanding under the same key: log the failure and
    /// submit the default answer, so that the thread is not left waiting.
    Refused { kind: InteractiveKind, log: AgentTreeIpcMessage, answer: Op },
    /// A command was recorded.
    Recorded,
    /// The event asks nothing of the worker.
    Ignored,
}

/// The detail of the log line for a request under a key that is outstanding.
pub open spec fn duplicate_detail() -> Seq<char> {
    "request key is already outstanding"@
}

/// The operation that answers a request for user input: the answers that
/// came, or none where the slot was dropped unfilled.
pub fn answer_user_input(event_id: String, received: Option<RequestUserInputResponse>) -> (op: Op)
    ensures
        op@ == (OpView::UserInputAnswer {
            id: event_id@,
            response: RequestUserInputResponseView {
                answers: match received {
                    Some(r) => r@.answers,
                    None => Map::<Seq<char>, JsonView>::empty(),
                },
            },
        }),
{
    Op::UserInputAnswer { id: event_id, response: response_or_empty(received) }
}

/// The operation that answers a request for approval of a command: the
/// decision that came, or the default where the slot was dropped unfilled.
pub fn answer_exec_approval(event_id: String, received: Option<ReviewDecision>) -> (op: Op)
    ensures
        op@ == (OpView::ExecApproval {
            id: event_id@,
            decision: match received {
                Some(d) => d@,
                None => ReviewDecisionView::Denied,
            },
        }),
{
    Op::ExecApproval { id: event_id, decision: decision_or_default(received) }
}

/// The operation that answers a request for approval of a patch: the
/// decision that came, or the default where the slot was dropped unfilled.
pub fn answer_patch_approval(event_id: String, received: Option<ReviewDecision>) -> (op: Op)
    ensures
        op@ == (OpView::PatchApproval {
            id: event_id@,
            decision: match received {
                Some(d) => d@,
                None => ReviewDecisionView::Denied,
            },
        }),
{
    Op::PatchApproval { id: event_id, decision: decision_or_default(received) }
}

/// Why a request is answered with the default at once, if it is: the input
/// has ended, or a request is outstanding under the same key.
pub open spec fn refusal(input_closed: bool, outstanding: bool) -> Option<Seq<char>> {
    if input_closed {
        Some(closed_detail())
    } else if outstanding {
        Some(duplicate_detail())
    } else {
        None
    }
}

/// The detail of the log line for a request raised after the input ended.
pub open spec fn closed_detail() -> Seq<char> {
    "the input is closed"@
}

/// The log line for a request of a kind whose handling failed.
pub open spec fn failure_log(kind: InteractiveKind, detail: Seq<char>) -> IpcMessageView {
    IpcMessageView::Log(
        WorkerLogView { level: WorkerLogLevel::Error, message: failure_prefix(kind) + detail },
    )
}

/// The operation that answers a request of a kind with the default: no
/// answers, or the default decision.
pub open spec fn default_answer(kind: InteractiveKind, event_id: Seq<char>) -> OpView {
    match kind {
        InteractiveKind::UserInput => OpView::UserInputAnswer {
            id: event_id,
            response: RequestUserInputResponseView { answers: Map::empty() },
        },
        InteractiveKind::ExecApproval => OpView::ExecApproval {
            id: event_id,
            decision: ReviewDecisionView::Denied,
        },
        InteractiveKind::PatchApproval => OpView::PatchApproval {
            id: event_id,
            decision: ReviewDecisionView::Denied,
        },
    }
}

/// Whether a step is the refusal of a request of a kind, for the reason
/// given.
pub open spec fn is_refusal(
    step: DrainStep,
    of_kind: InteractiveKind,
    detail: Seq<char>,
    event_id: Seq<char>,
) -> bool {
    &&& step matches DrainStep::Refused { kind, log, answer }
    &&& kind == of_kind
    &&& log@ == failure_log(of_kind, detail)
    &&& answer@ == default_answer(of_kind, event_id)
}

/// The refusal of a request.
fn refuse(kind: InteractiveKind, detail: &str, event_id: String) -> (step: DrainStep)
    ensures
        is_refusal(step, kind, detail@, event_id@),
{
    let answer = match kind {
        InteractiveKind::UserInput => answer_user_input(event_id, None),
        InteractiveKind::ExecApproval => answer_exec_approval(event_id, None),
        InteractiveKind::PatchApproval => answer_patch_approval(event_id, None),
    };
    DrainStep::Refused { kind, log: handler_failure_log(kind, detail), answer }
}

/// The reason for which a request is refused, if it is.
fn reason(input_closed: bool, outstanding: bool) -> (why: Option<&'static str>)
    ensures
        match why {
            Some(detail) => refusal(input_closed, outstanding) == Some(detail@),
            None => refusal(input_closed, outstanding) is None,
        },
{
    if input_closed {
        Some("the input is closed")
    } else if outstanding {
        Some("request key is already outstanding")
    } else {
        None
    }
}

/// The key of the request that a question asks about.
pub open spec fn asked_key(message: IpcMessageView) -> Option<RequestKeyView> {
    match message {
        IpcMessageView::NeedUserInput(need) => Some(need.request_key),
        IpcMessageView::NeedExecApproval(need) => Some(need.request_key),
        IpcMessageView::NeedPatchApproval(need) => Some(need.request_key),
        _ => None,
    }
}

impl DrainStep {
    /// The key under which the step entered a request, if it entered one.
    pub open spec fn spec_entered_key(self) -> Option<RequestKeyView> {
        match self {
            DrainStep::AskUserInput { need, .. } => asked_key(need@),
            DrainStep::AskExecApproval { need, .. } => asked_key(need@),
            DrainStep::AskPatchApproval { need, .. } => asked_key(need@),
            _ => None,
        }
    }

    /// The key under which the step entered a request, if it entered one.
    pub fn entered_key(&self) -> (key: Option<AgentTreeRequestKey>)
        ensures
            key.deep_view() == self.spec_entered_key(),
    {
        let need = match self {
            DrainStep::AskUserInput { need, .. } => need,
            DrainStep::AskExecApproval { need, .. } => need,
            DrainStep::AskPatchApproval { need, .. } => need,
            _ => {
                return None;
            },
        };
        match need {
            AgentTreeIpcMessage::NeedUserInput(need) => Some(need.request_key.clone()),
            AgentTreeIpcMessage::NeedExecApproval(need) => Some(need.request_key.clone()),
            AgentTreeIpcMessage::NeedPatchApproval(need) => Some(need.request_key.clone()),
            _ => None,
        }
    }
}

/// Takes the failure of a step: the question could not be sent, or the
/// answer could not be submitted. The request that the step entered, if any,
/// is given up, and the failure becomes a line for the log. The drain goes
/// on.
pub fn on_handler_failure(
    shared: &mut WorkerShared,
    kind: InteractiveKind,
    entered: Option<&AgentTreeRequestKey>,
    detail: &str,
) -> (log: AgentTreeIpcMessage)
    requires
        old(shared).well_formed(),
    ensures
        final(shared).well_formed(),
        final(shared).commands == old(shared).commands,
        final(shared).input_closed == old(shared).input_closed,
        log@ == failure_log(kind, detail@),
        final(shared).pending_user_input@ == match (kind, entered) {
            (InteractiveKind::UserInput, Some(key)) => old(shared).pending_user_input@.remove(
                key@,
            ),
            _ => old(shared).pending_user_input@,
        },
        final(shared).pending_exec_approval@ == match (kind, entered) {
            (InteractiveKind::ExecApproval, Some(key)) => old(
                shared,
            ).pending_exec_approval@.remove(key@),
            _ => old(shared).pending_exec_approval@,
        },
        final(shared).pending_patch_approval@ == match (kind, entered) {
            (InteractiveKind::PatchApproval, Some(key)) => old(
                shared,
            ).pending_patch_approval@.remove(key@),
            _ => old(shared).pending_patch_approval@,
        },
{
    match entered {
        Some(key) => {
            shared.abandon(kind, key);
        },
        None => {},
    }
    handler_failure_log(kind, detail)
}

/// Takes one event of the thread `thread_id`.
///
/// A request that needs the user is entered under the key of the thread and
/// the event, and the step holds the question for the parent together with
/// the end at which the answer is awaited. Where the input has ended, or a
/// request is outstanding under the same key, the request is not entered: the
/// step holds a line for the log and the default answer, so that the thread
/// is not left waiting. A command that ended is appended to the commands.
/// Every other event changes nothing.
pub fn on_event(shared: &mut WorkerShared, thread_id: ThreadId, event: Event) -> (step: DrainStep)
    requires
        old(shared).well_formed(),
    ensures
        final(shared).well_formed(),
        final(shared).input_closed == old(shared).input_closed,
        match event.msg {
            EventMsg::RequestUserInput(args) => {
                let key = RequestKeyView { thread_id, event_id: event.id@ };
                &&& final(shared).commands == old(shared).commands
                &&& final(shared).pending_exec_approval == old(shared).pending_exec_approval
                &&& final(shared).pending_patch_approval == old(shared).pending_patch_approval
                &&& match refusal(
                    old(shared).input_closed,
                    old(shared).pending_user_input@.contains_key(key),
                ) {
                    Some(detail) => {
                        &&& final(shared).pending_user_input == old(shared).pending_user_input
                        &&& is_refusal(step, InteractiveKind::UserInput, detail, event.id@)
                    },
                    None => {
                        &&& final(shared).pending_user_input@.dom() == old(
                            shared,
                        ).pending_user_input@.dom().insert(key)
                        &&& forall|k: RequestKeyView|
                            old(shared).pending_user_input@.contains_key(k) ==> {
                                final(shared).pending_user_input@[k] == old(
                                    shared,
                                ).pending_user_input@[k]
                            }
                        &&& step matches DrainStep::AskUserInput { need, event_id, waiter }
                        &&& event_id@ == event.id@
                        &&& need@ == IpcMessageView::NeedUserInput(
                            NeedUserInputView { request_key: key, args: args@ },
                        )
                    },
                }
            },
            EventMsg::ExecApprovalRequest(ev) => {
                let key = RequestKeyView { thread_id, event_id: event.id@ };
                &&& final(shared).commands == old(shared).commands
                &&& final(shared).pending_user_input == old(shared).pending_user_input
                &&& final(shared).pending_patch_approval == old(shared).pending_patch_approval
                &&& match refusal(
                    old(shared).input_closed,
                    old(shared).pending_exec_approval@.contains_key(key),
                ) {
                    Some(detail) => {
                        &&& final(shared).pending_exec_approval == old(
                            shared,
                        ).pending_exec_approval
                        &&& is_refusal(step, InteractiveKind::ExecApproval, detail, event.id@)
                    },
                    None => {
                        &&& final(shared).pending_exec_approval@.dom() == old(
                            shared,
                        ).pending_exec_approval@.dom().insert(key)
                        &&& forall|k: RequestKeyView|
                            old(shared).pending_exec_approval@.contains_key(k) ==> {
                                final(shared).pending_exec_approval@[k] == old(
                                    shared,
                                ).pending_exec_approval@[k]
                            }
                        &&& step matches DrainStep::AskExecApproval { need, event_id, waiter }
                        &&& event_id@ == event.id@
                        &&& need@ == IpcMessageView::NeedExecApproval(
                            NeedExecApprovalView { request_key: key, event: ev@ },
                        )
                    },
                }
            },
            EventMsg::ApplyPatchApprovalRequest(ev) => {
                let key = RequestKeyView { thread_id, event_id: event.id@ };
                &&& final(shared).commands == old(shared).commands
                &&& final(shared).pending_user_input == old(shared).pending_user_input
                &&& final(shared).pending_exec_approval == old(shared).pending_exec_approval
                &&& match refusal(
                    old(shared).input_closed,
                    old(shared).pending_patch_approval@.contains_key(key),
                ) {
                    Some(detail) => {
                        &&& final(shared).pending_patch_approval == old(
                            shared,
                        ).pending_patch_approval
                        &&& is_refusal(step, InteractiveKind::PatchApproval, detail, event.id@)
                    },
                    None => {
                        &&& final(shared).pending_patch_approval@.dom() == old(
                            shared,
                        ).pending_patch_approval@.dom().insert(key)
                        &&& forall|k: RequestKeyView|
                            old(shared).pending_patch_approval@.contains_key(k) ==> {
                                final(shared).pending_patch_approval@[k] == old(
                                    shared,
                                ).pending_patch_approval@[k]
                            }
                        &&& step matches DrainStep::AskPatchApproval { need, event_id, waiter }
                        &&& event_id@ == event.id@
                        &&& need@ == IpcMessageView::NeedPatchApproval(
                            NeedPatchApprovalView { request_key: key, event: ev@ },
                        )
                    },
                }
            },
            EventMsg::ExecCommandEnd(ended) => {
                &&& step is Recorded
                &&& final(shared).pending_user_input == old(shared).pending_user_input
                &&& final(shared).pending_exec_approval == old(shared).pending_exec_approval
                &&& final(shared).pending_patch_approval == old(shared).pending_patch_approval
                &&& final(shared).commands.deep_view() == old(shared).commands.deep_view().push(
                    command_record(
                        ended.command.deep_view(),
                        ended.exit_code,
                        ended.formatted_output@,
                    ),
                )
            },
            EventMsg::Other => {
                &&& step is Ignored
                &&& *final(shared) == *old(shared)
            },
        },
{
    let Event { id, msg } = event;
    match msg {
        EventMsg::RequestUserInput(args) => {
            let request_key = AgentTreeRequestKey { thread_id, event_id: id.clone() };
            let outstanding = shared.pending_user_input.contains(&request_key);
            match reason(shared.input_closed, outstanding) {
                Some(detail) => refuse(InteractiveKind::UserInput, detail, id),
                None => {
                    let waiter = register(&mut shared.pending_user_input, request_key.clone());
                    DrainStep::AskUserInput {
                        need: AgentTreeIpcMessage::NeedUserInput(
                            NeedUserInput { request_key, args },
                        ),
                        event_id: id,
                        waiter,
                    }
                },
            }
        },
        EventMsg::ExecApprovalRequest(ev) => {
            let request_key = AgentTreeRequestKey { thread_id, event_id: id.clone() };
            let outstanding = shared.pending_exec_approval.contains(&request_key);
            match reason(shared.input_closed, outstanding) {
                Some(detail) => refuse(InteractiveKind::ExecApproval, detail, id),
                None => {
                    let waiter = register(&mut shared.pending_exec_approval, request_key.clone());
                    DrainStep::AskExecApproval {
                        need: AgentTreeIpcMessage::NeedExecApproval(
                            NeedExecApproval { request_key, event: ev },
                        ),
                        event_id: id,
                        waiter,
                    }
                },
            }
        },
        EventMsg::ApplyPatchApprovalRequest(ev) => {
            let request_key = AgentTreeRequestKey { thread_id, event_id: id.clone() };
            let outstanding = shared.pending_patch_approval.contains(&request_key);
            match reason(shared.input_closed, outstanding) {
                Some(detail) => refuse(InteractiveKind::PatchApproval, detail, id),
                None => {
                    let waiter = register(&mut shared.pending_patch_approval, request_key.clone());
                    DrainStep::AskPatchApproval {
                        need: AgentTreeIpcMessage::NeedPatchApproval(
                            NeedPatchApproval { request_key, event: ev },
                        ),
                        event_id: id,
                        waiter,
                    }
                },
            }
        },
        EventMsg::ExecCommandEnd(ended) => {
            let record = record_command(&ended);
            let ghost before = shared.commands.deep_view();
            shared.commands.push(record);
            assert(shared.commands.deep_view() =~= before.push(record@));
            DrainStep::Recorded
        },
        EventMsg::Other => DrainStep::Ignored,
    }
}

} // verus!
