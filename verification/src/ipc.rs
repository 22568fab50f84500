//! The messages that parent and worker exchange, one per line.

use crate::ident::AgentTreeRequestKey;
use crate::ident::RequestKeyView;
use crate::json::members_view;
use crate::json::Json;
use crate::json::JsonView;
use crate::json::Member;
use vstd::prelude::*;

verus! {

/// The task handed to a worker: the first message it reads.
#[derive(Debug, Clone, PartialEq, Eq)]
pub struct WorkRequest {
    /// The prompt; the worker's agent is started on it.
    pub task: String,
    /// Further prompt material, if any.
    pub context: Option<String>,
    /// Shell commands that the worker is encouraged to run.
    pub tests: Vec<String>,
    /// The git revision to branch the worktree from; `HEAD` where absent.
    pub base_ref: Option<String>,
}

/// The mathematical form of a work request.
pub struct WorkRequestView {
    pub task: Seq<char>,
    pub context: Option<Seq<char>>,
    pub tests: Seq<Seq<char>>,
    pub base_ref: Option<Seq<char>>,
}

impl DeepView for WorkRequest {
    type V = WorkRequestView;

    open spec fn deep_view(&self) -> WorkRequestView {
        WorkRequestView {
            task: self.task@,
            context: self.context.deep_view(),
            tests: self.tests.deep_view(),
            base_ref: self.base_ref.deep_view(),
        }
    }
}

impl View for WorkRequest {
    type V = WorkRequestView;

    open spec fn view(&self) -> WorkRequestView {
        self.deep_view()
    }
}

/// One command that the worker's agent ran to its end.
#[derive(Debug, Clone, PartialEq, Eq)]
pub struct WorkerCommandResult {
    /// The arguments as executed, joined by single spaces.
    pub command: String,
    /// The exit code, where known.
    pub exit_code: Option<i32>,
    /// What the command printed, cut to the output limit.
    pub output: String,
}

/// The mathematical form of a command record.
pub struct WorkerCommandResultView {
    pub command: Seq<char>,
    pub exit_code: Option<i32>,
    pub output: Seq<char>,
}

impl DeepView for WorkerCommandResult {
    type V = WorkerCommandResultView;

    open spec fn deep_view(&self) -> WorkerCommandResultView {
        WorkerCommandResultView {
            command: self.command@,
            exit_code: self.exit_code,
            output: self.output@,
        }
    }
}

impl View for WorkerCommandResult {
    type V = WorkerCommandResultView;

    open spec fn view(&self) -> WorkerCommandResultView {
        self.deep_view()
    }
}

/// What a worker hands back: the last message it writes.
#[derive(Debug, Clone, PartialEq, Eq)]
pub struct WorkerResult {
    /// The agent's final message, or empty, or a word for how the thread ended.
    pub summary: String,
    /// The changes in the worktree as one unified diff.
    pub diff: String,
    /// The commands in the order in which they ended.
    pub commands: Vec<WorkerCommandResult>,
    /// The scratch checkout, which from now on is the parent's.
    pub worktree_path: String,
}

/// The mathematical form of a worker's result.
pub struct WorkerResultView {
    pub summary: Seq<char>,
    pub diff: Seq<char>,
    pub commands: Seq<WorkerCommandResultView>,
    pub worktree_path: Seq<char>,
}

impl DeepView for WorkerResult {
    type V = WorkerResultView;

    open spec fn deep_view(&self) -> WorkerResultView {
        WorkerResultView {
            summary: self.summary@,
            diff: self.diff@,
            commands: self.commands.deep_view(),
            worktree_path: self.worktree_path@,
        }
    }
}

impl View for WorkerResult {
    type V = WorkerResultView;

    open spec fn view(&self) -> WorkerResultView {
        self.deep_view()
    }
}

/// One question put to the user.
#[derive(Debug, Clone, PartialEq, Eq)]
pub struct RequestUserInputQuestion {
    pub id: String,
    pub header: String,
    pub question: String,
    /// The choices on offer, as the agent gave them; `Null` where it gave none.
    pub options: Json,
}

/// The mathematical form of a question.
pub struct RequestUserInputQuestionView {
    pub id: Seq<char>,
    pub header: Seq<char>,
    pub question: Seq<char>,
    pub options: JsonView,
}

impl DeepView for RequestUserInputQuestion {
    type V = RequestUserInputQuestionView;

    open spec fn deep_view(&self) -> RequestUserInputQuestionView {
        RequestUserInputQuestionView {
            id: self.id@,
            header: self.header@,
            question: self.question@,
            options: self.options@,
        }
    }
}

impl View for RequestUserInputQuestion {
    type V = RequestUserInputQuestionView;

    open spec fn view(&self) -> RequestUserInputQuestionView {
        self.deep_view()
    }
}

/// The questions of one request for user input.
#[derive(Debug, Clone, PartialEq, Eq)]
pub struct RequestUserInputArgs {
    pub questions: Vec<RequestUserInputQuestion>,
}

/// The mathematical form of the questions of a request.
pub struct RequestUserInputArgsView {
    pub questions: Seq<RequestUserInputQuestionView>,
}

impl DeepView for RequestUserInputArgs {
    type V = RequestUserInputArgsView;

    open spec fn deep_view(&self) -> RequestUserInputArgsView {
        RequestUserInputArgsView { questions: self.questions.deep_view() }
    }
}

impl View for RequestUserInputArgs {
    type V = RequestUserInputArgsView;

    open spec fn view(&self) -> RequestUserInputArgsView {
        self.deep_view()
    }
}

/// The user's answers, by the id of the question. The empty response is what
/// an abandoned request is answered with.
#[derive(Debug, Clone, PartialEq, Eq)]
pub struct RequestUserInputResponse {
    /// Of two answers to one question the later counts.
    pub answers: Vec<Member>,
}

/// The mathematical form of a response: the answers by the id of the question.
pub struct RequestUserInputResponseView {
    pub answers: Map<Seq<char>, JsonView>,
}

impl DeepView for RequestUserInputResponse {
    type V = RequestUserInputResponseView;

    open spec fn deep_view(&self) -> RequestUserInputResponseView {
        RequestUserInputResponseView { answers: members_view(self.answers@) }
    }
}

impl View for RequestUserInputResponse {
    type V = RequestUserInputResponseView;

    open spec fn view(&self) -> RequestUserInputResponseView {
        self.deep_view()
    }
}

/// The user's decision on a command or a patch. The default, the decision
/// that an abandoned request is answered with, is `Denied`.
#[derive(Debug, Clone, PartialEq, Eq)]
pub enum ReviewDecision {
    Approved,
    ApprovedExecpolicyAmendment { proposed_execpolicy_amendment: Json },
    ApprovedForSession,
    Denied,
    Abort,
}

/// The mathematical form of a decision.
pub enum ReviewDecisionView {
    Approved,
    ApprovedExecpolicyAmendment { proposed_execpolicy_amendment: JsonView },
    ApprovedForSession,
    Denied,
    Abort,
}

impl DeepView for ReviewDecision {
    type V = ReviewDecisionView;

    open spec fn deep_view(&self) -> ReviewDecisionView {
        match self {
            ReviewDecision::Approved => ReviewDecisionView::Approved,
            ReviewDecision::ApprovedExecpolicyAmendment { proposed_execpolicy_amendment } =>
                ReviewDecisionView::ApprovedExecpolicyAmendment {
                    proposed_execpolicy_amendment: proposed_execpolicy_amendment@,
                },
            ReviewDecision::ApprovedForSession => ReviewDecisionView::ApprovedForSession,
            ReviewDecision::Denied => ReviewDecisionView::Denied,
            ReviewDecision::Abort => ReviewDecisionView::Abort,
        }
    }
}

impl View for ReviewDecision {
    type V = ReviewDecisionView;

    open spec fn view(&self) -> ReviewDecisionView {
        self.deep_view()
    }
}

impl Default for ReviewDecision {
    fn default() -> (decision: ReviewDecision)
        ensures
            decision@ == ReviewDecisionView::Denied,
    {
        ReviewDecision::Denied
    }
}

impl RequestUserInputResponse {
    /// The response that holds no answer.
    pub fn empty() -> (response: RequestUserInputResponse)
        ensures
            response@.answers == Map::<Seq<char>, JsonView>::empty(),
    {
        RequestUserInputResponse { answers: Vec::new() }
    }
}

/// A command that waits for the user's approval.
#[derive(Debug, Clone, PartialEq, Eq)]
pub struct ExecApprovalRequestEvent {
    pub command: Vec<String>,
    pub cwd: String,
    pub reason: Option<String>,
    /// The change of policy that the agent proposes; `Null` where it proposes
    /// none.
    pub proposed_execpolicy_amendment: Json,
}

/// The mathematical form of a command that waits for approval.
pub struct ExecApprovalRequestEventView {
    pub command: Seq<Seq<char>>,
    pub cwd: Seq<char>,
    pub reason: Option<Seq<char>>,
    pub proposed_execpolicy_amendment: JsonView,
}

impl DeepView for ExecApprovalRequestEvent {
    type V = ExecApprovalRequestEventView;

    open spec fn deep_view(&self) -> ExecApprovalRequestEventView {
        ExecApprovalRequestEventView {
            command: self.command.deep_view(),
            cwd: self.cwd@,
            reason: self.reason.deep_view(),
            proposed_execpolicy_amendment: self.proposed_execpolicy_amendment@,
        }
    }
}

impl View for ExecApprovalRequestEvent {
    type V = ExecApprovalRequestEventView;

    open spec fn view(&self) -> ExecApprovalRequestEventView {
        self.deep_view()
    }
}

/// A patch that waits for the user's approval.
#[derive(Debug, Clone, PartialEq, Eq)]
pub struct ApplyPatchApprovalRequestEvent {
    /// The changes by file, as the agent gave them.
    pub changes: Json,
    pub reason: Option<String>,
    pub grant_root: Option<String>,
}

/// The mathematical form of a patch that waits for approval.
pub struct ApplyPatchApprovalRequestEventView {
    pub changes: JsonView,
    pub reason: Option<Seq<char>>,
    pub grant_root: Option<Seq<char>>,
}

impl DeepView for ApplyPatchApprovalRequestEvent {
    type V = ApplyPatchApprovalRequestEventView;

    open spec fn deep_view(&self) -> ApplyPatchApprovalRequestEventView {
        ApplyPatchApprovalRequestEventView {
            changes: self.changes@,
            reason: self.reason.deep_view(),
            grant_root: self.grant_root.deep_view(),
        }
    }
}

impl View for ApplyPatchApprovalRequestEvent {
    type V = ApplyPatchApprovalRequestEventView;

    open spec fn view(&self) -> ApplyPatchApprovalRequestEventView {
        self.deep_view()
    }
}

/// The worker asks the user a set of questions.
#[derive(Debug, Clone, PartialEq, Eq)]
pub struct NeedUserInput {
    pub request_key: AgentTreeRequestKey,
    pub args: RequestUserInputArgs,
}

/// The mathematical form of a request for user input.
pub struct NeedUserInputView {
    pub request_key: RequestKeyView,
    pub args: RequestUserInputArgsView,
}

impl DeepView for NeedUserInput {
    type V = NeedUserInputView;

    open spec fn deep_view(&self) -> NeedUserInputView {
        NeedUserInputView { request_key: self.request_key@, args: self.args@ }
    }
}

impl View for NeedUserInput {
    type V = NeedUserInputView;

    open spec fn view(&self) -> NeedUserInputView {
        self.deep_view()
    }
}

/// The parent's answer to a `NeedUserInput`.
#[derive(Debug, Clone, PartialEq, Eq)]
pub struct UserInputAnswer {
    pub request_key: AgentTreeRequestKey,
    pub response: RequestUserInputResponse,
}

/// The mathematical form of an answer to a request for user input.
pub struct UserInputAnswerView {
    pub request_key: RequestKeyView,
    pub response: RequestUserInputResponseView,
}

impl DeepView for UserInputAnswer {
    type V = UserInputAnswerView;

    open spec fn deep_view(&self) -> UserInputAnswerView {
        UserInputAnswerView { request_key: self.request_key@, response: self.response@ }
    }
}

impl View for UserInputAnswer {
    type V = UserInputAnswerView;

    open spec fn view(&self) -> UserInputAnswerView {
        self.deep_view()
    }
}

/// The worker asks for approval of a command.
#[derive(Debug, Clone, PartialEq, Eq)]
pub struct NeedExecApproval {
    pub request_key: AgentTreeRequestKey,
    pub event: ExecApprovalRequestEvent,
}

/// The mathematical form of a request for approval of a command.
pub struct NeedExecApprovalView {
    pub request_key: RequestKeyView,
    pub event: ExecApprovalRequestEventView,
}

impl DeepView for NeedExecApproval {
    type V = NeedExecApprovalView;

    open spec fn deep_view(&self) -> NeedExecApprovalView {
        NeedExecApprovalView { request_key: self.request_key@, event: self.event@ }
    }
}

impl View for NeedExecApproval {
    type V = NeedExecApprovalView;

    open spec fn view(&self) -> NeedExecApprovalView {
        self.deep_view()
    }
}

/// The parent's answer to a `NeedExecApproval`.
#[derive(Debug, Clone, PartialEq, Eq)]
pub struct ExecApprovalAnswer {
    pub request_key: AgentTreeRequestKey,
    pub decision: ReviewDecision,
}

/// The mathematical form of a decision on a command.
pub struct ExecApprovalAnswerView {
    pub request_key: RequestKeyView,
    pub decision: ReviewDecisionView,
}

impl DeepView for ExecApprovalAnswer {
    type V = ExecApprovalAnswerView;

    open spec fn deep_view(&self) -> ExecApprovalAnswerView {
        ExecApprovalAnswerView { request_key: self.request_key@, decision: self.decision@ }
    }
}

impl View for ExecApprovalAnswer {
    type V = ExecApprovalAnswerView;

    open spec fn view(&self) -> ExecApprovalAnswerView {
        self.deep_view()
    }
}

/// The worker asks for approval of a patch.
#[derive(Debug, Clone, PartialEq, Eq)]
pub struct NeedPatchApproval {
    pub request_key: AgentTreeRequestKey,
    pub event: ApplyPatchApprovalRequestEvent,
}

/// The mathematical form of a request for approval of a patch.
pub struct NeedPatchApprovalView {
    pub request_key: RequestKeyView,
    pub event: ApplyPatchApprovalRequestEventView,
}

impl DeepView for NeedPatchApproval {
    type V = NeedPatchApprovalView;

    open spec fn deep_view(&self) -> NeedPatchApprovalView {
        NeedPatchApprovalView { request_key: self.request_key@, event: self.event@ }
    }
}

impl View for NeedPatchApproval {
    type V = NeedPatchApprovalView;

    open spec fn view(&self) -> NeedPatchApprovalView {
        self.deep_view()
    }
}

/// The parent's answer to a `NeedPatchApproval`.
#[derive(Debug, Clone, PartialEq, Eq)]
pub struct PatchApprovalAnswer {
    pub request_key: AgentTreeRequestKey,
    pub decision: ReviewDecision,
}

/// The mathematical form of a decision on a patch.
pub struct PatchApprovalAnswerView {
    pub request_key: RequestKeyView,
    pub decision: ReviewDecisionView,
}

impl DeepView for PatchApprovalAnswer {
    type V = PatchApprovalAnswerView;

    open spec fn deep_view(&self) -> PatchApprovalAnswerView {
        PatchApprovalAnswerView { request_key: self.request_key@, decision: self.decision@ }
    }
}

impl View for PatchApprovalAnswer {
    type V = PatchApprovalAnswerView;

    open spec fn view(&self) -> PatchApprovalAnswerView {
        self.deep_view()
    }
}

/// How much a log line matters.
#[derive(Debug, Clone, Copy, PartialEq, Eq, Structural)]
pub enum WorkerLogLevel {
    Debug,
    Info,
    Warn,
    Error,
}

/// A line for the log; it asks for nothing.
#[derive(Debug, Clone, PartialEq, Eq)]
pub struct WorkerLog {
    pub level: WorkerLogLevel,
    pub message: String,
}

/// The mathematical form of a log line.
pub struct WorkerLogView {
    pub level: WorkerLogLevel,
    pub message: Seq<char>,
}

impl DeepView for WorkerLog {
    type V = WorkerLogView;

    open spec fn deep_view(&self) -> WorkerLogView {
        WorkerLogView { level: self.level, message: self.message@ }
    }
}

impl View for WorkerLog {
    type V = WorkerLogView;

    open spec fn view(&self) -> WorkerLogView {
        self.deep_view()
    }
}

/// A failure that ends the exchange.
#[derive(Debug, Clone, PartialEq, Eq)]
pub struct WorkerError {
    pub message: String,
}

/// The mathematical form of an error.
pub struct WorkerErrorView {
    pub message: Seq<char>,
}

impl DeepView for WorkerError {
    type V = WorkerErrorView;

    open spec fn deep_view(&self) -> WorkerErrorView {
        WorkerErrorView { message: self.message@ }
    }
}

impl View for WorkerError {
    type V = WorkerErrorView;

    open spec fn view(&self) -> WorkerErrorView {
        self.deep_view()
    }
}

/// Every message of the exchange. On the wire each is one JSON object whose
/// member `type` names the variant and whose other members are the variant's
/// fields.
#[derive(Debug, Clone, PartialEq, Eq)]
pub enum AgentTreeIpcMessage {
    WorkRequest(WorkRequest),
    NeedUserInput(NeedUserInput),
    UserInputAnswer(UserInputAnswer),
    NeedExecApproval(NeedExecApproval),
    ExecApprovalAnswer(ExecApprovalAnswer),
    NeedPatchApproval(NeedPatchApproval),
    PatchApprovalAnswer(PatchApprovalAnswer),
    WorkerResult(WorkerResult),
    Log(WorkerLog),
    Error(WorkerError),
}

/// The mathematical form of a message.
pub enum IpcMessageView {
    WorkRequest(WorkRequestView),
    NeedUserInput(NeedUserInputView),
    UserInputAnswer(UserInputAnswerView),
    NeedExecApproval(NeedExecApprovalView),
    ExecApprovalAnswer(ExecApprovalAnswerView),
    NeedPatchApproval(NeedPatchApprovalView),
    PatchApprovalAnswer(PatchApprovalAnswerView),
    WorkerResult(WorkerResultView),
    Log(WorkerLogView),
    Error(WorkerErrorView),
}

impl DeepView for AgentTreeIpcMessage {
    type V = IpcMessageView;

    open spec fn deep_view(&self) -> IpcMessageView {
        match self {
            AgentTreeIpcMessage::WorkRequest(m) => IpcMessageView::WorkRequest(m@),
            AgentTreeIpcMessage::NeedUserInput(m) => IpcMessageView::NeedUserInput(m@),
            AgentTreeIpcMessage::UserInputAnswer(m) => IpcMessageView::UserInputAnswer(m@),
            AgentTreeIpcMessage::NeedExecApproval(m) => IpcMessageView::NeedExecApproval(m@),
            AgentTreeIpcMessage::ExecApprovalAnswer(m) => IpcMessageView::ExecApprovalAnswer(m@),
            AgentTreeIpcMessage::NeedPatchApproval(m) => IpcMessageView::NeedPatchApproval(m@),
            AgentTreeIpcMessage::PatchApprovalAnswer(m) => IpcMessageView::PatchApprovalAnswer(
                m@,
            ),
            AgentTreeIpcMessage::WorkerResult(m) => IpcMessageView::WorkerResult(m@),
            AgentTreeIpcMessage::Log(m) => IpcMessageView::Log(m@),
            AgentTreeIpcMessage::Error(m) => IpcMessageView::Error(m@),
        }
    }
}

impl View for AgentTreeIpcMessage {
    type V = IpcMessageView;

    open spec fn view(&self) -> IpcMessageView {
        self.deep_view()
    }
}

} // verus!
