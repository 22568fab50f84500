//! Applying a worker's diff to the orchestrator's own workspace.

use crate::codec::put;
use crate::codec::required_text;
use crate::json::json_parse;
use crate::json::json_text;
use crate::json::Json;
use crate::json::JsonView;
use crate::json::Member;
use crate::tool::fatal;
use crate::tool::is_fatal_with;
use crate::tool::is_told_with;
use crate::tool::respond_to_model;
use crate::tool::FunctionCallError;
use crate::tool::FunctionCallErrorView;
use crate::tool::ToolOutput;
use crate::tool::ToolOutputView;
use vstd::prelude::*;
use vstd::string::*;

verus! {

/// The arguments of the tool: the diff to apply.
#[derive(Debug, Clone, PartialEq, Eq)]
pub struct AgentTreeApplyDiffArgs {
    pub diff: String,
}

/// The diff that the arguments hold: the string under `diff`.
pub open spec fn diff_argument(arguments: Seq<char>) -> Option<Seq<char>> {
    match json_parse(arguments) {
        Some(tree) => required_text(tree.member("diff"@)),
        None => None,
    }
}

/// Reads the arguments of the tool.
pub fn parse_arguments(arguments: &str) -> (args: Result<AgentTreeApplyDiffArgs, FunctionCallError>)
    ensures
        args is Ok <==> diff_argument(arguments@) is Some,
        args matches Ok(a) ==> Some(a.diff@) == diff_argument(arguments@),
        args matches Err(e) ==> is_told_with(e@, "failed to parse function arguments: "@),
{
    let detail = match Json::parse(arguments) {
        Ok(tree) => match tree.member("diff") {
            Some(Json::Str(diff)) => {
                return Ok(AgentTreeApplyDiffArgs { diff: diff.clone() });
            },
            _ => String::from_str("missing field `diff`"),
        },
        Err(error) => error.message,
    };
    Err(respond_to_model("failed to parse function arguments: ", detail.as_str()))
}

/// The arguments with which git applies a diff that it reads from its
/// standard input.
pub fn apply_args() -> (args: Vec<String>)
    ensures
        args.deep_view() == seq!["apply"@, "--whitespace=nowarn"@, "-"@],
{
    let mut args: Vec<String> = Vec::new();
    args.push(String::from_str("apply"));
    args.push(String::from_str("--whitespace=nowarn"));
    args.push(String::from_str("-"));
    assert(args.deep_view() =~= seq!["apply"@, "--whitespace=nowarn"@, "-"@]);
    args
}

/// The report of a diff that was applied.
pub open spec fn applied_tree(stdout: Seq<char>, stderr: Seq<char>) -> JsonView {
    JsonView::Object(
        map![
            "applied"@ => JsonView::Bool(true),
            "stdout"@ => JsonView::Str(stdout),
            "stderr"@ => JsonView::Str(stderr),
        ],
    )
}

/// Writes the report of a diff that was applied.
pub fn applied_report(stdout: &str, stderr: &str) -> (tree: Json)
    ensures
        tree@ == applied_tree(stdout@, stderr@),
{
    let mut members: Vec<Member> = Vec::new();
    put(&mut members, "applied", Json::Bool(true));
    put(&mut members, "stdout", Json::string(stdout));
    put(&mut members, "stderr", Json::string(stderr));
    Json::Object(members)
}

/// The tool's output for a report that was written, or the failure where the
/// writer gave no text.
pub fn report_output(written: Result<String, crate::json::JsonError>) -> (output: Result<
    ToolOutput,
    FunctionCallError,
>)
    ensures
        match written {
            Ok(text) => {
                &&& output matches Ok(o)
                &&& o@ == (ToolOutputView { content: text@, success: Some(true) })
            },
            Err(error) => {
                &&& output matches Err(e)
                &&& e@ == FunctionCallErrorView::Fatal(
                    "failed to serialize agent_tree_apply_diff result: "@ + error.message@,
                )
                &&& is_fatal_with(e@, "failed to serialize agent_tree_apply_diff result: "@)
            },
        },
{
    match written {
        Ok(text) => Ok(ToolOutput { content: text, success: Some(true) }),
        Err(error) => Err(
            fatal("failed to serialize agent_tree_apply_diff result: ", error.message.as_str()),
        ),
    }
}

/// Judges a run of `git apply` that came to its end.
///
/// With exit code 0 the output is the report of what git printed; whether the
/// report can be written as text is the JSON writer's to say. Any other end is
/// a failure that is told to the model with what git wrote to its standard
/// error.
pub fn handle(exit_code: Option<i32>, stdout: &str, stderr: &str) -> (output: Result<
    ToolOutput,
    FunctionCallError,
>)
    ensures
        exit_code != Some(0i32) ==> {
            &&& output matches Err(e)
            &&& e@ == FunctionCallErrorView::RespondToModel("git apply failed: "@ + stderr@)
        },
        exit_code == Some(0i32) ==> match json_text(applied_tree(stdout@, stderr@)) {
            Some(text) => {
                &&& output matches Ok(o)
                &&& o@ == (ToolOutputView { content: text, success: Some(true) })
            },
            None => {
                &&& output matches Err(e)
                &&& is_fatal_with(e@, "failed to serialize agent_tree_apply_diff result: "@)
            },
        },
{
    let applied = match exit_code {
        Some(code) => code == 0,
        None => false,
    };
    if !applied {
        return Err(respond_to_model("git apply failed: ", stderr));
    }
    let report = applied_report(stdout, stderr);
    report_output(report.render())
}

} // verus!
