//! What the orchestrator's tool surface hands to a tool and takes back.

use vstd::prelude::*;
use vstd::string::*;

verus! {

/// The kinds of tool.
#[derive(Debug, Clone, Copy, PartialEq, Eq, Structural)]
pub enum ToolKind {
    Function,
    Mcp,
}

/// What a tool is called with.
#[derive(Debug, Clone, PartialEq, Eq)]
pub enum ToolPayload {
    /// A function call with its arguments as JSON text.
    Function { arguments: String },
    /// Any payload that is not a function call.
    Other,
}

/// What a tool gives back on success.
#[derive(Debug, Clone, PartialEq, Eq)]
pub struct ToolOutput {
    pub content: String,
    pub success: Option<bool>,
}

/// The mathematical form of a tool's output.
pub struct ToolOutputView {
    pub content: Seq<char>,
    pub success: Option<bool>,
}

impl DeepView for ToolOutput {
    type V = ToolOutputView;

    open spec fn deep_view(&self) -> ToolOutputView {
        ToolOutputView { content: self.content@, success: self.success }
    }
}

impl View for ToolOutput {
    type V = ToolOutputView;

    open spec fn view(&self) -> ToolOutputView {
        self.deep_view()
    }
}

/// How a tool fails.
#[derive(Debug, Clone, PartialEq, Eq)]
pub enum FunctionCallError {
    /// The failure is told to the model, which may try something else.
    RespondToModel(String),
    /// The failure ends the turn.
    Fatal(String),
}

/// The mathematical form of a tool's failure.
pub enum FunctionCallErrorView {
    RespondToModel(Seq<char>),
    Fatal(Seq<char>),
}

impl DeepView for FunctionCallError {
    type V = FunctionCallErrorView;

    open spec fn deep_view(&self) -> FunctionCallErrorView {
        match self {
            FunctionCallError::RespondToModel(message) => FunctionCallErrorView::RespondToModel(
                message@,
            ),
            FunctionCallError::Fatal(message) => FunctionCallErrorView::Fatal(message@),
        }
    }
}

impl View for FunctionCallError {
    type V = FunctionCallErrorView;

    open spec fn view(&self) -> FunctionCallErrorView {
        self.deep_view()
    }
}

impl FunctionCallError {
    /// The message of the failure.
    pub fn message(&self) -> (text: &String)
        ensures
            text@ == match self@ {
                FunctionCallErrorView::RespondToModel(m) => m,
                FunctionCallErrorView::Fatal(m) => m,
            },
    {
        match self {
            FunctionCallError::RespondToModel(message) => message,
            FunctionCallError::Fatal(message) => message,
        }
    }
}

/// Whether a failure ends the turn with a message that begins with `prefix`.
pub open spec fn is_fatal_with(error: FunctionCallErrorView, prefix: Seq<char>) -> bool {
    error matches FunctionCallErrorView::Fatal(message) && prefix.is_prefix_of(message)
}

/// Whether a failure is told to the model with a message that begins with
/// `prefix`.
pub open spec fn is_told_with(error: FunctionCallErrorView, prefix: Seq<char>) -> bool {
    error matches FunctionCallErrorView::RespondToModel(message) && prefix.is_prefix_of(message)
}

/// A text begins with the text that it was begun with.
pub proof fn lemma_begins_with(prefix: Seq<char>, rest: Seq<char>)
    ensures
        prefix.is_prefix_of(prefix + rest),
{
    assert((prefix + rest).subrange(0, prefix.len() as int) =~= prefix);
}

/// A failure that is told to the model: `prefix` and `detail` behind it.
pub fn respond_to_model(prefix: &str, detail: &str) -> (error: FunctionCallError)
    ensures
        error@ == FunctionCallErrorView::RespondToModel(prefix@ + detail@),
        is_told_with(error@, prefix@),
{
    proof {
        lemma_begins_with(prefix@, detail@);
    }
    let mut message = String::from_str(prefix);
    message.append(detail);
    FunctionCallError::RespondToModel(message)
}

/// A failure that ends the turn: `prefix` and `detail` behind it.
pub fn fatal(prefix: &str, detail: &str) -> (error: FunctionCallError)
    ensures
        error@ == FunctionCallErrorView::Fatal(prefix@ + detail@),
        is_fatal_with(error@, prefix@),
{
    proof {
        lemma_begins_with(prefix@, detail@);
    }
    let mut message = String::from_str(prefix);
    message.append(detail);
    FunctionCallError::Fatal(message)
}

} // verus!
