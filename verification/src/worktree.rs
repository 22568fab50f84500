//! The scratch worktree: where it lies, the git invocations that make it and
//! that read the changes out of it, and how their outcomes are judged.

use crate::ident::fresh_uuid_text;
use crate::ident::is_random_uuid_text;
use crate::ipc::WorkRequest;
use crate::text::all_lines;
use crate::text::cut_lines;
use crate::text::trim;
use crate::text::trimmed;
use vstd::prelude::*;
use vstd::string::*;

verus! {

/// How the exit code of a git invocation is judged.
#[derive(Debug, Clone, Copy, PartialEq, Eq, Structural)]
pub enum ExitTolerance {
    /// Only exit code 0 is a success.
    Strict,
    /// Exit codes 0 and 1 are successes, as for the `git diff` family, which
    /// exits with 1 where it found differences.
    DiffCodes,
}

/// One invocation of git.
#[derive(Debug, Clone, PartialEq, Eq)]
pub struct GitCall {
    pub args: Vec<String>,
    pub tolerance: ExitTolerance,
}

/// The mathematical form of a git invocation.
pub struct GitCallView {
    pub args: Seq<Seq<char>>,
    pub tolerance: ExitTolerance,
}

impl DeepView for GitCall {
    type V = GitCallView;

    open spec fn deep_view(&self) -> GitCallView {
        GitCallView { args: self.args.deep_view(), tolerance: self.tolerance }
    }
}

impl View for GitCall {
    type V = GitCallView;

    open spec fn view(&self) -> GitCallView {
        GitCallView { args: self.args.deep_view(), tolerance: self.tolerance }
    }
}

/// A git invocation that failed: its arguments and what it wrote to its
/// standard error.
#[derive(Debug, Clone, PartialEq, Eq)]
pub struct GitError {
    pub args: Vec<String>,
    pub stderr: String,
}

/// The text that `Debug` writes for a list of texts.
pub uninterp spec fn debug_list_text(items: Seq<Seq<char>>) -> Seq<char>;

/// `format!` with `{:?}` on a list of texts: a function of the texts alone.
#[verifier::external_body]
fn debug_list(items: &Vec<String>) -> (text: String)
    ensures
        text@ == debug_list_text(items.deep_view()),
{
    format!("{:?}", items)
}

impl GitError {
    /// The message of the failure: the arguments, and the captured standard
    /// error behind them.
    pub open spec fn spec_message(args: Seq<Seq<char>>, stderr: Seq<char>) -> Seq<char> {
        "git "@ + debug_list_text(args) + " failed: "@ + stderr
    }

    /// Writes the message of the failure.
    pub fn message(&self) -> (text: String)
        ensures
            text@ == Self::spec_message(self.args.deep_view(), self.stderr@),
    {
        let mut text = String::from_str("git ");
        let list = debug_list(&self.args);
        text.append(list.as_str());
        text.append(" failed: ");
        text.append(self.stderr.as_str());
        text
    }
}

/// Whether an exit code is a success under a tolerance. A process that gave
/// no exit code did not succeed.
pub open spec fn exit_accepted(tolerance: ExitTolerance, exit_code: Option<i32>) -> bool {
    match tolerance {
        ExitTolerance::Strict => exit_code == Some(0i32),
        ExitTolerance::DiffCodes => exit_code == Some(0i32) || exit_code == Some(1i32),
    }
}

/// Judges a git invocation that ran to its end: its standard output where the
/// exit code is accepted, else the failure with its standard error.
pub fn git_outcome(
    call: GitCall,
    exit_code: Option<i32>,
    stdout: String,
    stderr: String,
) -> (outcome: Result<String, GitError>)
    ensures
        outcome is Ok <==> exit_accepted(call.tolerance, exit_code),
        outcome matches Ok(text) ==> text@ == stdout@,
        outcome matches Err(error) ==> error.args.deep_view() == call@.args && error.stderr@
            == stderr@,
{
    let accepted = match call.tolerance {
        ExitTolerance::Strict => match exit_code {
            Some(code) => code == 0,
            None => false,
        },
        ExitTolerance::DiffCodes => match exit_code {
            Some(code) => code == 0 || code == 1,
            None => false,
        },
    };
    if accepted {
        Ok(stdout)
    } else {
        Err(GitError { args: call.args, stderr })
    }
}

/// A list of texts from string literals and texts.
fn list_of(items: Vec<&str>) -> (list: Vec<String>)
    ensures
        list.deep_view() == Seq::new(items@.len(), |i: int| items@[i]@),
{
    let mut list: Vec<String> = Vec::new();
    let mut i: usize = 0;
    while i < items.len()
        invariant
            i <= items.len(),
            list.len() == i,
            forall|j: int| 0 <= j < i ==> list@[j]@ == items@[j]@,
        decreases items.len() - i,
    {
        list.push(String::from_str(items[i]));
        i = i + 1;
    }
    assert(list.deep_view() =~= Seq::new(items@.len(), |i: int| items@[i]@));
    list
}

/// The name under which a repository's worktrees are kept where its root has
/// no name of its own.
pub open spec fn fallback_repo_name() -> Seq<char> {
    "repo"@
}

/// The path of a worktree below the home directory, segment by segment: the
/// worktrees of all repositories, the repository's name, the task's id.
pub open spec fn worktree_segments(repo_name: Option<Seq<char>>, task_id: Seq<char>) -> Seq<
    Seq<char>,
> {
    seq![
        "agent-tree"@,
        "worktrees"@,
        match repo_name {
            Some(name) => name,
            None => fallback_repo_name(),
        },
        task_id,
    ]
}

/// Where a worktree lies below the home directory.
pub fn worktree_path_segments(repo_name: Option<&str>, task_id: &str) -> (segments: Vec<String>)
    ensures
        segments.deep_view() == worktree_segments(
            match repo_name {
                Some(name) => Some(name@),
                None => None,
            },
            task_id@,
        ),
{
    let name = match repo_name {
        Some(name) => name,
        None => "repo",
    };
    let mut items: Vec<&str> = Vec::new();
    items.push("agent-tree");
    items.push("worktrees");
    items.push(name);
    items.push(task_id);
    let segments = list_of(items);
    assert(segments.deep_view() =~= worktree_segments(
        match repo_name {
            Some(name) => Some(name@),
            None => None,
        },
        task_id@,
    ));
    segments
}

/// A fresh id for a task: a random UUID of version 4, written out.
pub fn fresh_task_id() -> (id: String)
    ensures
        is_random_uuid_text(id@),
{
    fresh_uuid_text()
}

/// The revision that a request's worktree is branched from.
pub open spec fn base_ref_of(base_ref: Option<Seq<char>>) -> Seq<char> {
    match base_ref {
        Some(name) => name,
        None => "HEAD"@,
    }
}

/// The revision that a request's worktree is branched from: the one it names,
/// else `HEAD`.
pub fn base_ref(request: &WorkRequest) -> (name: String)
    ensures
        name@ == base_ref_of(request@.base_ref),
{
    match &request.base_ref {
        Some(name) => name.clone(),
        None => String::from_str("HEAD"),
    }
}

/// Asks git for the top level of the repository that holds the working
/// directory.
pub fn repo_root_call() -> (call: GitCall)
    ensures
        call@ == (GitCallView {
            args: seq!["rev-parse"@, "--show-toplevel"@],
            tolerance: ExitTolerance::Strict,
        }),
{
    let mut items: Vec<&str> = Vec::new();
    items.push("rev-parse");
    items.push("--show-toplevel");
    let args = list_of(items);
    assert(args.deep_view() =~= seq!["rev-parse"@, "--show-toplevel"@]);
    GitCall { args, tolerance: ExitTolerance::Strict }
}

/// The repository's top level as git printed it, without the whitespace
/// around it.
pub fn repo_root_of(stdout: &str) -> (root: String)
    ensures
        root@ == trimmed(stdout@),
{
    trim(stdout)
}

/// Asks git for a detached worktree at `path`, branched from `base_ref`.
pub fn worktree_add_call(path: &str, base_ref: &str) -> (call: GitCall)
    ensures
        call@ == (GitCallView {
            args: seq!["worktree"@, "add"@, "--detach"@, path@, base_ref@],
            tolerance: ExitTolerance::Strict,
        }),
{
    let mut items: Vec<&str> = Vec::new();
    items.push("worktree");
    items.push("add");
    items.push("--detach");
    items.push(path);
    items.push(base_ref);
    let args = list_of(items);
    assert(args.deep_view() =~= seq!["worktree"@, "add"@, "--detach"@, path@, base_ref@]);
    GitCall { args, tolerance: ExitTolerance::Strict }
}

/// Asks git for the changes to tracked files.
pub fn tracked_diff_call() -> (call: GitCall)
    ensures
        call@ == (GitCallView {
            args: seq!["diff"@, "--no-color"@],
            tolerance: ExitTolerance::DiffCodes,
        }),
{
    let mut items: Vec<&str> = Vec::new();
    items.push("diff");
    items.push("--no-color");
    let args = list_of(items);
    assert(args.deep_view() =~= seq!["diff"@, "--no-color"@]);
    GitCall { args, tolerance: ExitTolerance::DiffCodes }
}

/// Asks git for the files that are neither tracked nor ignored.
pub fn untracked_list_call() -> (call: GitCall)
    ensures
        call@ == (GitCallView {
            args: seq!["ls-files"@, "--others"@, "--exclude-standard"@],
            tolerance: ExitTolerance::Strict,
        }),
{
    let mut items: Vec<&str> = Vec::new();
    items.push("ls-files");
    items.push("--others");
    items.push("--exclude-standard");
    let args = list_of(items);
    assert(args.deep_view() =~= seq!["ls-files"@, "--others"@, "--exclude-standard"@]);
    GitCall { args, tolerance: ExitTolerance::Strict }
}

/// The name of the empty file that a new file is compared with.
pub open spec fn null_device(windows: bool) -> Seq<char> {
    if windows {
        "NUL"@
    } else {
        "/dev/null"@
    }
}

/// Asks git for the whole of an untracked file as a diff against the empty
/// file.
pub fn untracked_diff_call(windows: bool, path: &str) -> (call: GitCall)
    ensures
        call@ == (GitCallView {
            args: seq![
                "diff"@,
                "--no-color"@,
                "--no-index"@,
                "--"@,
                null_device(windows),
                path@,
            ],
            tolerance: ExitTolerance::DiffCodes,
        }),
{
    let mut items: Vec<&str> = Vec::new();
    items.push("diff");
    items.push("--no-color");
    items.push("--no-index");
    items.push("--");
    if windows {
        items.push("NUL");
    } else {
        items.push("/dev/null");
    }
    items.push(path);
    let args = list_of(items);
    assert(args.deep_view() =~= seq![
        "diff"@,
        "--no-color"@,
        "--no-index"@,
        "--"@,
        null_device(windows),
        path@,
    ]);
    GitCall { args, tolerance: ExitTolerance::DiffCodes }
}

/// The lines that are not empty once the whitespace around them is gone,
/// without that whitespace and in their order.
pub open spec fn kept_paths(lines: Seq<Seq<char>>) -> Seq<Seq<char>>
    decreases lines.len(),
{
    if lines.len() == 0 {
        Seq::empty()
    } else if trimmed(lines.last()).len() == 0 {
        kept_paths(lines.drop_last())
    } else {
        kept_paths(lines.drop_last()).push(trimmed(lines.last()))
    }
}

/// The untracked files that a listing names, one to a line.
pub open spec fn untracked_of(listing: Seq<char>) -> Seq<Seq<char>> {
    kept_paths(all_lines(listing))
}

/// Reads the listing of untracked files.
pub fn untracked_paths(listing: &str) -> (paths: Vec<String>)
    ensures
        paths.deep_view() == untracked_of(listing@),
{
    let cut = cut_lines(listing);
    let mut lines = cut.complete;
    let ghost ended = lines.deep_view();
    if cut.rest.as_str().unicode_len() > 0 {
        lines.push(cut.rest);
        assert(lines.deep_view() =~= ended.push(cut.rest@));
    }
    assert(lines.deep_view() == all_lines(listing@));
    let mut paths: Vec<String> = Vec::new();
    assert(paths.deep_view() =~= Seq::<Seq<char>>::empty());
    let mut i: usize = 0;
    while i < lines.len()
        invariant
            i <= lines.len(),
            paths.deep_view() == kept_paths(lines.deep_view().take(i as int)),
        decreases lines.len() - i,
    {
        proof {
            let taken = lines.deep_view().take(i + 1);
            assert(taken.drop_last() =~= lines.deep_view().take(i as int));
            assert(taken.last() == lines@[i as int]@);
        }
        let path = trim(lines[i].as_str());
        if path.as_str().unicode_len() > 0 {
            let ghost before = paths.deep_view();
            paths.push(path);
            assert(paths.deep_view() =~= before.push(path@));
        }
        i = i + 1;
    }
    assert(lines.deep_view().take(lines.len() as int) =~= lines.deep_view());
    paths
}

} // verus!
