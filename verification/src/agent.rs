//! The agent thread as the worker sees it: the events it raises, the
//! operations it accepts, and the states it can be in.

use crate::ipc::ApplyPatchApprovalRequestEvent;
use crate::ipc::ExecApprovalRequestEvent;
use crate::ipc::RequestUserInputArgs;
use crate::ipc::RequestUserInputResponse;
use crate::ipc::RequestUserInputResponseView;
use crate::ipc::ReviewDecision;
use crate::ipc::ReviewDecisionView;
use vstd::prelude::*;
use vstd::string::*;

verus! {

/// A command that the agent ran to its end.
#[derive(Debug, Clone, PartialEq, Eq)]
pub struct ExecCommandEndEvent {
    pub command: Vec<String>,
    pub exit_code: i32,
    pub formatted_output: String,
}

/// What an agent thread reports.
#[derive(Debug, Clone, PartialEq, Eq)]
pub enum EventMsg {
    RequestUserInput(RequestUserInputArgs),
    ExecApprovalRequest(ExecApprovalRequestEvent),
    ApplyPatchApprovalRequest(ApplyPatchApprovalRequestEvent),
    ExecCommandEnd(ExecCommandEndEvent),
    /// Any other report; the worker passes over it.
    Other,
}

/// One event of an agent thread.
#[derive(Debug, Clone, PartialEq, Eq)]
pub struct Event {
    /// The id by which an answer refers to the event.
    pub id: String,
    pub msg: EventMsg,
}

/// What the worker submits to an agent thread.
#[derive(Debug, Clone, PartialEq, Eq)]
pub enum Op {
    /// The prompt.
    UserInput { text: String },
    UserInputAnswer { id: String, response: RequestUserInputResponse },
    ExecApproval { id: String, decision: ReviewDecision },
    PatchApproval { id: String, decision: ReviewDecision },
}

/// The mathematical form of an operation.
pub enum OpView {
    UserInput { text: Seq<char> },
    UserInputAnswer { id: Seq<char>, response: RequestUserInputResponseView },
    ExecApproval { id: Seq<char>, decision: ReviewDecisionView },
    PatchApproval { id: Seq<char>, decision: ReviewDecisionView },
}

impl DeepView for Op {
    type V = OpView;

    open spec fn deep_view(&self) -> OpView {
        match self {
            Op::UserInput { text } => OpView::UserInput { text: text@ },
            Op::UserInputAnswer { id, response } => OpView::UserInputAnswer {
                id: id@,
                response: response@,
            },
            Op::ExecApproval { id, decision } => OpView::ExecApproval {
                id: id@,
                decision: decision@,
            },
            Op::PatchApproval { id, decision } => OpView::PatchApproval {
                id: id@,
                decision: decision@,
            },
        }
    }
}

impl View for Op {
    type V = OpView;

    open spec fn view(&self) -> OpView {
        self.deep_view()
    }
}

/// A feature that a thread can be started with.
#[derive(Debug, Clone, Copy, PartialEq, Eq, Structural)]
pub enum Feature {
    /// Working together with further threads.
    Collab,
    /// Patches given in free form.
    ApplyPatchFreeform,
}

/// The features that a worker's thread is started with.
pub open spec fn worker_features() -> Seq<Feature> {
    seq![Feature::Collab, Feature::ApplyPatchFreeform]
}

/// The state of an agent thread. It begins in `PendingInit`, runs, and ends
/// in one of the other four states, which are final.
#[derive(Debug, Clone, PartialEq, Eq)]
pub enum AgentStatus {
    PendingInit,
    Running,
    /// The thread came to its end, with its last message if it gave one.
    Completed(Option<String>),
    Errored(String),
    Shutdown,
    NotFound,
}

/// The milliseconds between two looks at a thread's status.
pub const STATUS_POLL_MILLIS: u64 = 200;

/// Whether a status is final.
pub open spec fn spec_is_final_status(status: AgentStatus) -> bool {
    !(status is PendingInit) && !(status is Running)
}

/// The summary that a status gives the worker's result; none while the thread
/// is not at its end.
pub open spec fn final_summary(status: AgentStatus) -> Option<Seq<char>> {
    match status {
        AgentStatus::Completed(Some(message)) => Some(message@),
        AgentStatus::Completed(None) => Some(Seq::empty()),
        AgentStatus::Errored(message) => Some(message@),
        AgentStatus::Shutdown => Some("shutdown"@),
        AgentStatus::NotFound => Some("not found"@),
        AgentStatus::PendingInit => None,
        AgentStatus::Running => None,
    }
}

/// Whether a status is final: whether the wait for the thread is over.
pub fn is_final_status(status: &AgentStatus) -> (last: bool)
    ensures
        last == spec_is_final_status(*status),
        last == final_summary(*status) is Some,
{
    match status {
        AgentStatus::Completed(_) => true,
        AgentStatus::Errored(_) => true,
        AgentStatus::Shutdown => true,
        AgentStatus::NotFound => true,
        AgentStatus::PendingInit => false,
        AgentStatus::Running => false,
    }
}

/// One look at the thread's status: the summary where the status is final,
/// `None` where the wait goes on.
pub fn final_message(status: AgentStatus) -> (summary: Option<String>)
    ensures
        summary.deep_view() == final_summary(status),
        summary is Some <==> spec_is_final_status(status),
{
    match status {
        AgentStatus::Completed(Some(message)) => Some(message),
        AgentStatus::Completed(None) => Some(String::new()),
        AgentStatus::Errored(message) => Some(message),
        AgentStatus::Shutdown => Some(String::from_str("shutdown")),
        AgentStatus::NotFound => Some(String::from_str("not found")),
        AgentStatus::PendingInit => None,
        AgentStatus::Running => None,
    }
}

} // verus!
