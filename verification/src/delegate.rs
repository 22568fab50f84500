//! The parent's side of a delegation: it hands the task to a worker, answers
//! the worker's questions through the user's session, and gives the worker's
//! result back as the tool's output.
//!
//! Spawning the worker, reading and writing its streams and asking the
//! session are the caller's part. After each piece of it the caller reports
//! what happened, and `handle` says what is to be done next.

use crate::dispatch::malformed_detail;
use crate::framing::decode_line;
use crate::framing::encode_line;
use crate::framing::line_meaning;
use crate::framing::DecodeError;
use crate::ident::AgentTreeRequestKey;
use crate::ipc::AgentTreeIpcMessage;
use crate::ipc::ExecApprovalAnswer;
use crate::ipc::ExecApprovalAnswerView;
use crate::ipc::IpcMessageView;
use crate::ipc::NeedExecApproval;
use crate::ipc::NeedExecApprovalView;
use crate::ipc::NeedPatchApproval;
use crate::ipc::NeedPatchApprovalView;
use crate::ipc::NeedUserInput;
use crate::ipc::NeedUserInputView;
use crate::ipc::PatchApprovalAnswer;
use crate::ipc::PatchApprovalAnswerView;
use crate::ipc::RequestUserInputResponse;
use crate::ipc::RequestUserInputResponseView;
use crate::ipc::ReviewDecision;
use crate::ipc::ReviewDecisionView;
use crate::ipc::UserInputAnswer;
use crate::ipc::UserInputAnswerView;
use crate::ipc::WorkRequest;
use crate::ipc::WorkRequestView;
use crate::ipc::WorkerResult;
use crate::json::json_parse;
use crate::json::json_text;
use crate::json::Json;
use crate::json::JsonError;
use crate::json::JsonView;
use crate::slot::decision_or_default;
use crate::slot::response_or_empty;
use crate::text::split_lines;
use crate::text::Lines;
use crate::tool::fatal;
use crate::tool::is_fatal_with;
use crate::tool::is_told_with;
use crate::tool::respond_to_model;
use crate::tool::FunctionCallError;
use crate::tool::FunctionCallErrorView;
use crate::tool::ToolOutput;
use crate::tool::ToolOutputView;
use crate::wire::decode_work_request;
use crate::wire::encode_worker_result;
use crate::wire::message_tree;
use crate::wire::work_request_of;
use crate::wire::worker_result_tree;
use crate::wire::Decoded;
use crate::wire::DecodedView;
use vstd::prelude::*;
use vstd::string::*;

verus! {

/// The arguments of the tool: the task to delegate.
#[derive(Debug, Clone, PartialEq, Eq)]
pub struct AgentTreeDelegateArgs {
    pub task: String,
    pub context: Option<String>,
    pub tests: Vec<String>,
    pub base_ref: Option<String>,
}

impl DeepView for AgentTreeDelegateArgs {
    type V = WorkRequestView;

    open spec fn deep_view(&self) -> WorkRequestView {
        WorkRequestView {
            task: self.task@,
            context: self.context.deep_view(),
            tests: self.tests.deep_view(),
            base_ref: self.base_ref.deep_view(),
        }
    }
}

impl View for AgentTreeDelegateArgs {
    type V = WorkRequestView;

    open spec fn view(&self) -> WorkRequestView {
        self.deep_view()
    }
}

/// The task that the arguments hold: an object with a string under `task`,
/// and beside it the context, the tests and the base revision where given.
pub open spec fn delegate_arguments(arguments: Seq<char>) -> Option<WorkRequestView> {
    match json_parse(arguments) {
        Some(tree) => work_request_of(tree),
        None => None,
    }
}

/// Reads the arguments of the tool.
pub fn parse_arguments(arguments: &str) -> (args: Result<AgentTreeDelegateArgs, FunctionCallError>)
    ensures
        args is Ok <==> delegate_arguments(arguments@) is Some,
        args matches Ok(a) ==> Some(a@) == delegate_arguments(arguments@),
        args matches Err(e) ==> is_told_with(e@, "failed to parse function arguments: "@),
{
    let detail = match Json::parse(arguments) {
        Ok(tree) => match decode_work_request(&tree) {
            Some(request) => {
                return Ok(
                    AgentTreeDelegateArgs {
                        task: request.task,
                        context: request.context,
                        tests: request.tests,
                        base_ref: request.base_ref,
                    },
                );
            },
            None => String::from_str("not the arguments of agent_tree_delegate"),
        },
        Err(error) => error.message,
    };
    Err(respond_to_model("failed to parse function arguments: ", detail.as_str()))
}

/// A line for the worker, or the failure where the JSON writer gave no text.
pub fn worker_line(message: &AgentTreeIpcMessage) -> (line: Result<String, FunctionCallError>)
    ensures
        line is Ok <==> json_text(message_tree(message@)) is Some,
        line matches Ok(text) ==> {
            &&& text@ == json_text(message_tree(message@))->0.push('\n')
            &&& split_lines(text@) == (Lines {
                complete: seq![json_text(message_tree(message@))->0],
                rest: Seq::empty(),
            })
        },
        line matches Err(e) ==> is_fatal_with(e@, "failed to serialize IPC message: "@),
{
    match encode_line(message) {
        Ok(text) => Ok(text),
        Err(error) => Err(fatal("failed to serialize IPC message: ", error.message.as_str())),
    }
}

/// What the caller reports.
#[derive(Debug, Clone, PartialEq, Eq)]
pub enum DelegateEvent {
    /// The worker was spawned.
    Started(AgentTreeDelegateArgs),
    /// The worker wrote a line.
    Line(String),
    /// The session gave the user's answers, or none.
    UserInputAnswered {
        request_key: AgentTreeRequestKey,
        response: Option<RequestUserInputResponse>,
    },
    /// The session gave the decision on a command.
    ExecApprovalDecided { request_key: AgentTreeRequestKey, decision: ReviewDecision },
    /// The session gave the decision on a patch, or the request was dropped.
    PatchApprovalDecided { request_key: AgentTreeRequestKey, decision: Option<ReviewDecision> },
    /// The worker's output ended; the worker exited with the given status.
    OutputClosed { status: String },
}

/// What the caller is to do.
#[derive(Debug, Clone, PartialEq, Eq)]
pub enum DelegateAction {
    /// Write the message to the worker as one line, then read its next line.
    Send(AgentTreeIpcMessage),
    /// Ask the session for the user's input, then report the answers.
    RequestUserInput(NeedUserInput),
    /// Ask the session for approval of the command, then report the
    /// decision.
    RequestCommandApproval(NeedExecApproval),
    /// Ask the session for approval of the patch, then report the decision.
    RequestPatchApproval(NeedPatchApproval),
    /// Read the worker's next line.
    ReadNext,
    /// Give the output back as the tool's.
    Finish(ToolOutput),
    /// Fail the tool's invocation.
    Fail(FunctionCallError),
}

/// The mathematical form of an action of the parent.
pub enum DelegateActionView {
    Send(IpcMessageView),
    RequestUserInput(NeedUserInputView),
    RequestCommandApproval(NeedExecApprovalView),
    RequestPatchApproval(NeedPatchApprovalView),
    ReadNext,
    Finish(ToolOutputView),
    Fail(FunctionCallErrorView),
}

impl DeepView for DelegateAction {
    type V = DelegateActionView;

    open spec fn deep_view(&self) -> DelegateActionView {
        match self {
            DelegateAction::Send(m) => DelegateActionView::Send(m@),
            DelegateAction::RequestUserInput(m) => DelegateActionView::RequestUserInput(m@),
            DelegateAction::RequestCommandApproval(m) =>
                DelegateActionView::RequestCommandApproval(m@),
            DelegateAction::RequestPatchApproval(m) => DelegateActionView::RequestPatchApproval(
                m@,
            ),
            DelegateAction::ReadNext => DelegateActionView::ReadNext,
            DelegateAction::Finish(o) => DelegateActionView::Finish(o@),
            DelegateAction::Fail(e) => DelegateActionView::Fail(e@),
        }
    }
}

impl View for DelegateAction {
    type V = DelegateActionView;

    open spec fn view(&self) -> DelegateActionView {
        self.deep_view()
    }
}

/// What the failure says where the worker ended without a result.
pub open spec fn unexpected_exit_message(status: Seq<char>) -> Seq<char> {
    "agent_tree worker exited unexpectedly (status="@ + status + ")"@
}

/// The failure for a worker that ended without a result.
pub fn unexpected_exit(status: &str) -> (error: FunctionCallError)
    ensures
        error@ == FunctionCallErrorView::RespondToModel(unexpected_exit_message(status@)),
{
    let mut message = String::from_str("agent_tree worker exited unexpectedly (status=");
    message.append(status);
    message.append(")");
    FunctionCallError::RespondToModel(message)
}

/// What is done with the worker's result once the JSON writer was asked for
/// its text: the text is the tool's output, or the invocation fails.
pub fn result_action(written: Result<String, JsonError>) -> (action: DelegateAction)
    ensures
        action@ == match written {
            Ok(text) => DelegateActionView::Finish(
                ToolOutputView { content: text@, success: Some(true) },
            ),
            Err(error) => DelegateActionView::Fail(
                FunctionCallErrorView::Fatal(
                    "failed to serialize agent_tree_delegate result: "@ + error.message@,
                ),
            ),
        },
        written is Err ==> {
            &&& action@ matches DelegateActionView::Fail(error)
            &&& is_fatal_with(error, "failed to serialize agent_tree_delegate result: "@)
        },
{
    match written {
        Ok(text) => DelegateAction::Finish(ToolOutput { content: text, success: Some(true) }),
        Err(error) => DelegateAction::Fail(
            fatal("failed to serialize agent_tree_delegate result: ", error.message.as_str()),
        ),
    }
}

/// Takes what the caller reports and says what is to be done next.
///
/// A question of the worker goes to the session, and the session's answer
/// goes back to the worker under the key of the question; where the session
/// gives no answer, the worker gets the empty response or the default
/// decision. The worker's result ends the invocation as its output, the
/// worker's error as a failure told to the model, and so does the end of the
/// worker's output before either. A line that is no message is fatal. Any
/// other line is passed over.
pub fn handle(event: DelegateEvent) -> (action: DelegateAction)
    ensures
        match event {
            DelegateEvent::Started(args) => action@ == DelegateActionView::Send(
                IpcMessageView::WorkRequest(args@),
            ),
            DelegateEvent::Line(line) => match line_meaning(line@) {
                None => {
                    &&& action@ matches DelegateActionView::Fail(error)
                    &&& is_fatal_with(error, "failed to parse worker IPC message: "@)
                    &&& json_parse(line@) is Some ==> error == FunctionCallErrorView::Fatal(
                        "failed to parse worker IPC message: "@ + malformed_detail(),
                    )
                },
                Some(DecodedView::Message(IpcMessageView::NeedUserInput(need))) => action@
                    == DelegateActionView::RequestUserInput(need),
                Some(DecodedView::Message(IpcMessageView::NeedExecApproval(need))) => action@
                    == DelegateActionView::RequestCommandApproval(need),
                Some(DecodedView::Message(IpcMessageView::NeedPatchApproval(need))) => action@
                    == DelegateActionView::RequestPatchApproval(need),
                Some(DecodedView::Message(IpcMessageView::WorkerResult(result))) => {
                    match json_text(worker_result_tree(result)) {
                        Some(text) => action@ == DelegateActionView::Finish(
                            ToolOutputView { content: text, success: Some(true) },
                        ),
                        None => {
                            &&& action@ matches DelegateActionView::Fail(error)
                            &&& is_fatal_with(
                                error,
                                "failed to serialize agent_tree_delegate result: "@,
                            )
                        },
                    }
                },
                Some(DecodedView::Message(IpcMessageView::Error(error))) => action@
                    == DelegateActionView::Fail(
                    FunctionCallErrorView::RespondToModel(
                        "agent_tree worker error: "@ + error.message,
                    ),
                ),
                Some(_) => action@ == DelegateActionView::ReadNext,
            },
            DelegateEvent::UserInputAnswered { request_key, response } => action@
                == DelegateActionView::Send(
                IpcMessageView::UserInputAnswer(
                    UserInputAnswerView {
                        request_key: request_key@,
                        response: RequestUserInputResponseView {
                            answers: match response {
                                Some(r) => r@.answers,
                                None => Map::<Seq<char>, JsonView>::empty(),
                            },
                        },
                    },
                ),
            ),
            DelegateEvent::ExecApprovalDecided { request_key, decision } => action@
                == DelegateActionView::Send(
                IpcMessageView::ExecApprovalAnswer(
                    ExecApprovalAnswerView { request_key: request_key@, decision: decision@ },
                ),
            ),
            DelegateEvent::PatchApprovalDecided { request_key, decision } => action@
                == DelegateActionView::Send(
                IpcMessageView::PatchApprovalAnswer(
                    PatchApprovalAnswerView {
                        request_key: request_key@,
                        decision: match decision {
                            Some(d) => d@,
                            None => ReviewDecisionView::Denied,
                        },
                    },
                ),
            ),
            DelegateEvent::OutputClosed { status } => action@ == DelegateActionView::Fail(
                FunctionCallErrorView::RespondToModel(unexpected_exit_message(status@)),
            ),
        },
{
    match event {
        DelegateEvent::Started(args) => DelegateAction::Send(
            AgentTreeIpcMessage::WorkRequest(
                WorkRequest {
                    task: args.task,
                    context: args.context,
                    tests: args.tests,
                    base_ref: args.base_ref,
                },
            ),
        ),
        DelegateEvent::Line(line) => match decode_line(line.as_str()) {
            Err(error) => {
                let detail = match error {
                    DecodeError::Syntax(detail) => detail,
                    DecodeError::Malformed => String::from_str("not a well-formed message"),
                };
                DelegateAction::Fail(
                    fatal("failed to parse worker IPC message: ", detail.as_str()),
                )
            },
            Ok(Decoded::Message(AgentTreeIpcMessage::NeedUserInput(need))) =>
                DelegateAction::RequestUserInput(need),
            Ok(Decoded::Message(AgentTreeIpcMessage::NeedExecApproval(need))) =>
                DelegateAction::RequestCommandApproval(need),
            Ok(Decoded::Message(AgentTreeIpcMessage::NeedPatchApproval(need))) =>
                DelegateAction::RequestPatchApproval(need),
            Ok(Decoded::Message(AgentTreeIpcMessage::WorkerResult(result))) => {
                let tree = encode_worker_result(&result);
                result_action(tree.render())
            },
            Ok(Decoded::Message(AgentTreeIpcMessage::Error(error))) => DelegateAction::Fail(
                respond_to_model("agent_tree worker error: ", error.message.as_str()),
            ),
            Ok(_) => DelegateAction::ReadNext,
        },
        DelegateEvent::UserInputAnswered { request_key, response } => DelegateAction::Send(
            AgentTreeIpcMessage::UserInputAnswer(
                UserInputAnswer { request_key, response: response_or_empty(response) },
            ),
        ),
        DelegateEvent::ExecApprovalDecided { request_key, decision } => DelegateAction::Send(
            AgentTreeIpcMessage::ExecApprovalAnswer(ExecApprovalAnswer { request_key, decision }),
        ),
        DelegateEvent::PatchApprovalDecided { request_key, decision } => DelegateAction::Send(
            AgentTreeIpcMessage::PatchApprovalAnswer(
                PatchApprovalAnswer { request_key, decision: decision_or_default(decision) },
            ),
        ),
        DelegateEvent::OutputClosed { status } => DelegateAction::Fail(
            unexpected_exit(status.as_str()),
        ),
    }
}

} // verus!
