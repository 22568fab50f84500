//! The two tools that the orchestrator exposes: delegating a task to a
//! worker, and applying a worker's diff.

use crate::apply_diff::diff_argument;
use crate::apply_diff::AgentTreeApplyDiffArgs;
use crate::delegate::delegate_arguments;
use crate::delegate::AgentTreeDelegateArgs;
use crate::codec::is_text;
use crate::tool::is_told_with;
use crate::tool::respond_to_model;
use crate::tool::FunctionCallError;
use crate::tool::FunctionCallErrorView;
use crate::tool::ToolKind;
use crate::tool::ToolPayload;
use vstd::prelude::*;
use vstd::string::*;

verus! {

/// Handles the calls of both tools.
#[derive(Debug, Clone, Copy)]
pub struct AgentTreeHandler;

/// The tool that a call is for, with its arguments.
#[derive(Debug, Clone, PartialEq, Eq)]
pub enum ToolCall {
    Delegate(AgentTreeDelegateArgs),
    ApplyDiff(AgentTreeApplyDiffArgs),
}

/// The name of the tool that delegates a task.
pub open spec fn delegate_tool() -> Seq<char> {
    "agent_tree_delegate"@
}

/// The name of the tool that applies a diff.
pub open spec fn apply_diff_tool() -> Seq<char> {
    "agent_tree_apply_diff"@
}

impl AgentTreeHandler {
    /// Both tools are function tools.
    pub fn kind(&self) -> (kind: ToolKind)
        ensures
            kind == ToolKind::Function,
    {
        ToolKind::Function
    }

    /// Whether the handler takes a payload: it takes function calls.
    pub fn matches_kind(&self, payload: &ToolPayload) -> (taken: bool)
        ensures
            taken == (*payload is Function),
    {
        match payload {
            ToolPayload::Function { .. } => true,
            _ => false,
        }
    }

    /// Whether a tool changes the orchestrator's own workspace: applying a
    /// diff does, delegating does not.
    pub fn is_mutating(&self, tool_name: &str) -> (mutating: bool)
        ensures
            mutating == (tool_name@ == apply_diff_tool()),
    {
        String::from_str(tool_name) == String::from_str("agent_tree_apply_diff")
    }

    /// Tells which tool a call is for and reads its arguments.
    ///
    /// A payload that is no function call, a tool of another name and
    /// arguments that cannot be read are failures told to the model.
    pub fn handle(&self, tool_name: &str, payload: ToolPayload) -> (call: Result<
        ToolCall,
        FunctionCallError,
    >)
        ensures
            match payload {
                ToolPayload::Other => {
                    &&& call matches Err(e)
                    &&& e@ == FunctionCallErrorView::RespondToModel(
                        "agent_tree handler received unsupported payload"@,
                    )
                },
                ToolPayload::Function { arguments } => if tool_name@ == delegate_tool() {
                    match delegate_arguments(arguments@) {
                        Some(request) => {
                            &&& call matches Ok(ToolCall::Delegate(args))
                            &&& args@ == request
                        },
                        None => {
                            &&& call matches Err(e)
                            &&& is_told_with(e@, "failed to parse function arguments: "@)
                        },
                    }
                } else if tool_name@ == apply_diff_tool() {
                    match diff_argument(arguments@) {
                        Some(diff) => {
                            &&& call matches Ok(ToolCall::ApplyDiff(args))
                            &&& args.diff@ == diff
                        },
                        None => {
                            &&& call matches Err(e)
                            &&& is_told_with(e@, "failed to parse function arguments: "@)
                        },
                    }
                } else {
                    &&& call matches Err(e)
                    &&& e@ == FunctionCallErrorView::RespondToModel(
                        "unsupported agent_tree tool "@ + tool_name@,
                    )
                },
            },
    {
        let arguments = match payload {
            ToolPayload::Function { arguments } => arguments,
            ToolPayload::Other => {
                return Err(
                    FunctionCallError::RespondToModel(
                        String::from_str("agent_tree handler received unsupported payload"),
                    ),
                );
            },
        };
        let name = String::from_str(tool_name);
        if is_text(&name, "agent_tree_delegate") {
            match crate::delegate::parse_arguments(arguments.as_str()) {
                Ok(args) => Ok(ToolCall::Delegate(args)),
                Err(error) => Err(error),
            }
        } else if is_text(&name, "agent_tree_apply_diff") {
            match crate::apply_diff::parse_arguments(arguments.as_str()) {
                Ok(args) => Ok(ToolCall::ApplyDiff(args)),
                Err(error) => Err(error),
            }
        } else {
            Err(respond_to_model("unsupported agent_tree tool ", tool_name))
        }
    }
}

} // verus!
