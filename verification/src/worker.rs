//! The course of a worker from the first line it reads to the result it
//! writes.
//!
//! The worker's own work, reading lines, running git, starting the agent
//! thread and waiting for it, is the caller's part. After each piece of it
//! the caller reports what happened, and `step` says what is to be done next.

use crate::agent::final_message;
use crate::agent::worker_features;
use crate::agent::Feature;
use crate::agent::final_summary;
use crate::agent::AgentStatus;
use crate::agent::Op;
use crate::agent::OpView;
use crate::dispatch::debug_text;
use crate::dispatch::describe_unreadable_line;
use crate::dispatch::malformed_detail;
use crate::framing::decode_line;
use crate::framing::line_meaning;
use crate::ident::ThreadId;
use crate::ipc::AgentTreeIpcMessage;
use crate::json::json_parse;
use crate::ipc::IpcMessageView;
use crate::ipc::WorkRequest;
use crate::ipc::WorkRequestView;
use crate::ipc::WorkerCommandResult;
use crate::ipc::WorkerError;
use crate::ipc::WorkerErrorView;
use crate::ipc::WorkerLog;
use crate::ipc::WorkerLogLevel;
use crate::ipc::WorkerLogView;
use crate::ipc::WorkerResult;
use crate::ipc::WorkerResultView;
use crate::prompt::build_l2_prompt;
use crate::prompt::prompt_text;
use crate::text::trimmed;
use crate::wire::Decoded;
use crate::wire::DecodedView;
use crate::worktree::base_ref;
use crate::worktree::base_ref_of;
use crate::worktree::repo_root_of;
use vstd::prelude::*;
use vstd::string::*;

verus! {

/// Where a worker stands.
#[derive(Debug, Clone, PartialEq, Eq)]
pub enum WorkerPhase {
    /// Nothing was read yet.
    Start,
    /// The request is known; git is asked for the repository's top level.
    LocatingRepo { request: WorkRequest },
    /// The worktree is being made.
    MakingWorktree { request: WorkRequest },
    /// The agent thread is being started in the worktree.
    StartingThread { request: WorkRequest, worktree_path: String },
    /// The prompt is being submitted.
    Submitting { worktree_path: String },
    /// The thread runs; its end is waited for.
    Waiting { worktree_path: String },
    /// The thread is at its end; the diff is being collected.
    Collecting { worktree_path: String, summary: String },
    /// The worker has written its last message.
    Done,
}

/// The mathematical form of a worker's phase.
pub enum WorkerPhaseView {
    Start,
    LocatingRepo { request: WorkRequestView },
    MakingWorktree { request: WorkRequestView },
    StartingThread { request: WorkRequestView, worktree_path: Seq<char> },
    Submitting { worktree_path: Seq<char> },
    Waiting { worktree_path: Seq<char> },
    Collecting { worktree_path: Seq<char>, summary: Seq<char> },
    Done,
}

impl DeepView for WorkerPhase {
    type V = WorkerPhaseView;

    open spec fn deep_view(&self) -> WorkerPhaseView {
        match self {
            WorkerPhase::Start => WorkerPhaseView::Start,
            WorkerPhase::LocatingRepo { request } => WorkerPhaseView::LocatingRepo {
                request: request@,
            },
            WorkerPhase::MakingWorktree { request } => WorkerPhaseView::MakingWorktree {
                request: request@,
            },
            WorkerPhase::StartingThread { request, worktree_path } =>
                WorkerPhaseView::StartingThread {
                    request: request@,
                    worktree_path: worktree_path@,
                },
            WorkerPhase::Submitting { worktree_path } => WorkerPhaseView::Submitting {
                worktree_path: worktree_path@,
            },
            WorkerPhase::Waiting { worktree_path } => WorkerPhaseView::Waiting {
                worktree_path: worktree_path@,
            },
            WorkerPhase::Collecting { worktree_path, summary } => WorkerPhaseView::Collecting {
                worktree_path: worktree_path@,
                summary: summary@,
            },
            WorkerPhase::Done => WorkerPhaseView::Done,
        }
    }
}

impl View for WorkerPhase {
    type V = WorkerPhaseView;

    open spec fn view(&self) -> WorkerPhaseView {
        self.deep_view()
    }
}

/// What the caller reports.
#[derive(Debug)]
pub enum WorkerEvent {
    /// The first line of input, or that the input ended before one.
    FirstLine(Option<String>),
    /// What git printed as the repository's top level, or why it failed.
    RepoLocated(Result<String, String>),
    /// The path of the worktree that was made, or why none was.
    WorktreeMade(Result<String, String>),
    /// The thread that was started, or why none was.
    ThreadStarted(Result<ThreadId, String>),
    /// That the prompt was submitted, or why it was not.
    PromptSubmitted(Result<(), String>),
    /// The status that the thread was found in.
    ThreadStatus(AgentStatus),
    /// The combined diff, or why there is none, and the commands recorded.
    DiffCollected { diff: Result<String, String>, commands: Vec<WorkerCommandResult> },
}

/// What the caller is to do, in the order given.
#[derive(Debug, Clone, PartialEq, Eq)]
pub enum WorkerAction {
    /// Write the message as one line.
    Emit(AgentTreeIpcMessage),
    /// Ask git for the top level of the repository around the working
    /// directory.
    LocateRepo,
    /// Make a detached worktree of the repository at `base_ref`.
    MakeWorktree { repo_root: String, base_ref: String },
    /// Start the agent thread with `cwd` as its working directory, the given
    /// features enabled and the worker's instructions installed.
    StartThread { cwd: String, features: Vec<Feature> },
    /// Start the task that reads the further lines of input.
    SpawnInputDispatcher,
    /// Start the task that drains the events of every thread.
    SpawnDrainSupervisor,
    /// Submit the operation to the agent thread.
    Submit(Op),
    /// Look at the thread's status.
    PollStatus,
    /// Cancel the drains and wait for them to end.
    CancelDrains,
    /// Collect the combined diff of the worktree and the recorded commands.
    CollectDiff { worktree_path: String },
    /// End the process, with status zero on success.
    Exit { success: bool },
}

/// The mathematical form of an action of the worker.
pub enum WorkerActionView {
    Emit(IpcMessageView),
    LocateRepo,
    MakeWorktree { repo_root: Seq<char>, base_ref: Seq<char> },
    StartThread { cwd: Seq<char>, features: Seq<Feature> },
    SpawnInputDispatcher,
    SpawnDrainSupervisor,
    Submit(OpView),
    PollStatus,
    CancelDrains,
    CollectDiff { worktree_path: Seq<char> },
    Exit { success: bool },
}

impl DeepView for WorkerAction {
    type V = WorkerActionView;

    open spec fn deep_view(&self) -> WorkerActionView {
        match self {
            WorkerAction::Emit(message) => WorkerActionView::Emit(message@),
            WorkerAction::LocateRepo => WorkerActionView::LocateRepo,
            WorkerAction::MakeWorktree { repo_root, base_ref } => WorkerActionView::MakeWorktree {
                repo_root: repo_root@,
                base_ref: base_ref@,
            },
            WorkerAction::StartThread { cwd, features } => WorkerActionView::StartThread {
                cwd: cwd@,
                features: features@,
            },
            WorkerAction::SpawnInputDispatcher => WorkerActionView::SpawnInputDispatcher,
            WorkerAction::SpawnDrainSupervisor => WorkerActionView::SpawnDrainSupervisor,
            WorkerAction::Submit(op) => WorkerActionView::Submit(op@),
            WorkerAction::PollStatus => WorkerActionView::PollStatus,
            WorkerAction::CancelDrains => WorkerActionView::CancelDrains,
            WorkerAction::CollectDiff { worktree_path } => WorkerActionView::CollectDiff {
                worktree_path: worktree_path@,
            },
            WorkerAction::Exit { success } => WorkerActionView::Exit { success: *success },
        }
    }
}

impl View for WorkerAction {
    type V = WorkerActionView;

    open spec fn view(&self) -> WorkerActionView {
        self.deep_view()
    }
}

/// What a worker does when it cannot go on: it writes one error and ends
/// with a status that is not zero.
pub open spec fn failure_actions(message: Seq<char>) -> Seq<WorkerActionView> {
    seq![
        WorkerActionView::Emit(IpcMessageView::Error(WorkerErrorView { message })),
        WorkerActionView::Exit { success: false },
    ]
}

/// Whether the actions are those of a failure whose message begins with
/// `prefix`.
pub open spec fn is_failure_with_prefix(actions: Seq<WorkerActionView>, prefix: Seq<char>) -> bool {
    exists|message: Seq<char>|
        actions == failure_actions(message) && #[trigger] prefix.is_prefix_of(message)
}

/// The log line that announces the agent thread.
pub open spec fn thread_started_text(thread_id: ThreadId) -> Seq<char> {
    "L2 thread started: "@ + thread_id.text()
}

/// What the worker does once its thread is started: it announces the thread,
/// starts its two tasks, and submits the prompt.
pub open spec fn launch_actions(request: WorkRequestView, thread_id: ThreadId) -> Seq<
    WorkerActionView,
> {
    seq![
        WorkerActionView::Emit(
            IpcMessageView::Log(
                WorkerLogView {
                    level: WorkerLogLevel::Info,
                    message: thread_started_text(thread_id),
                },
            ),
        ),
        WorkerActionView::SpawnInputDispatcher,
        WorkerActionView::SpawnDrainSupervisor,
        WorkerActionView::Submit(
            OpView::UserInput { text: prompt_text(request.task, request.context, request.tests) },
        ),
    ]
}

/// What the worker does at its end: it writes its result and ends with status
/// zero.
pub open spec fn result_actions(result: WorkerResultView) -> Seq<WorkerActionView> {
    seq![
        WorkerActionView::Emit(IpcMessageView::WorkerResult(result)),
        WorkerActionView::Exit { success: true },
    ]
}

/// Whether nothing is written after a worker's result: the step that writes
/// it is the last, and writes nothing behind it.
pub open spec fn result_is_last(next: WorkerPhaseView, actions: Seq<WorkerActionView>) -> bool {
    forall|i: int|
        0 <= i < actions.len() && (#[trigger] actions[i] matches WorkerActionView::Emit(
            IpcMessageView::WorkerResult(_),
        )) ==> next is Done && forall|j: int| i < j < actions.len() ==> !(actions[j] is Emit)
}

/// Whether the process is ended only by the last step, and as its last
/// action.
pub open spec fn exit_is_last(next: WorkerPhaseView, actions: Seq<WorkerActionView>) -> bool {
    forall|i: int|
        0 <= i < actions.len() && (#[trigger] actions[i] is Exit) ==> next is Done && i
            == actions.len() - 1
}

/// What holds of every step, whatever is reported: a result or an exit is
/// the end of the step that gives it, that step is the last, and after the
/// last step nothing is done.
pub open spec fn step_bounds(
    before: WorkerPhaseView,
    after: WorkerPhaseView,
    actions: Seq<WorkerActionView>,
) -> bool {
    &&& result_is_last(after, actions)
    &&& exit_is_last(after, actions)
    &&& before is Done ==> after is Done && actions.len() == 0
}

/// One step in the course of a worker: the phase before it, the phase after
/// it, and what it asked for.
pub struct StepRecord {
    pub before: WorkerPhaseView,
    pub after: WorkerPhaseView,
    pub actions: Seq<WorkerActionView>,
}

/// Whether the records are those of steps taken one after the other.
pub open spec fn is_course(records: Seq<StepRecord>) -> bool {
    &&& forall|i: int|
        0 <= i < records.len() ==> step_bounds(
            (#[trigger] records[i]).before,
            records[i].after,
            records[i].actions,
        )
    &&& forall|i: int|
        0 <= i < records.len() - 1 ==> (#[trigger] records[i]).after == records[i + 1].before
}

/// Once a worker is done it stays done.
pub proof fn lemma_done_stays_done(records: Seq<StepRecord>, from: int, to: int)
    requires
        is_course(records),
        0 <= from <= to < records.len(),
        records[from].before is Done,
    ensures
        records[to].before is Done,
        records[to].actions.len() == 0,
    decreases to - from,
{
    if from < to {
        assert(step_bounds(records[from].before, records[from].after, records[from].actions));
        assert(records[from].after == records[from + 1].before);
        lemma_done_stays_done(records, from + 1, to);
    } else {
        assert(step_bounds(records[to].before, records[to].after, records[to].actions));
    }
}

/// Nothing follows a worker's result: in the step that writes it nothing is
/// written behind it, and every later step does nothing.
pub proof fn lemma_nothing_follows_result(records: Seq<StepRecord>, at: int, index: int)
    requires
        is_course(records),
        0 <= at < records.len(),
        0 <= index < records[at].actions.len(),
        records[at].actions[index] matches WorkerActionView::Emit(IpcMessageView::WorkerResult(_)),
    ensures
        forall|j: int| index < j < records[at].actions.len() ==> !(records[at].actions[j] is Emit),
        forall|later: int|
            at < later < records.len() ==> (#[trigger] records[later]).actions.len() == 0,
{
    assert(step_bounds(records[at].before, records[at].after, records[at].actions));
    assert(records[at].after is Done);
    assert forall|later: int| at < later < records.len() implies (
    #[trigger] records[later]).actions.len() == 0 by {
        assert(records[at].after == records[at + 1].before);
        lemma_done_stays_done(records, at + 1, later);
    }
}

/// The two actions of a failure.
fn fail(context: &str, detail: &str) -> (actions: Vec<WorkerAction>)
    ensures
        actions.deep_view() == failure_actions(context@ + ": "@ + detail@),
{
    let mut message = String::from_str(context);
    message.append(": ");
    message.append(detail);
    fail_with(message)
}

/// The two actions of a failure with the given message.
fn fail_with(message: String) -> (actions: Vec<WorkerAction>)
    ensures
        actions.deep_view() == failure_actions(message@),
{
    let mut actions: Vec<WorkerAction> = Vec::new();
    actions.push(WorkerAction::Emit(AgentTreeIpcMessage::Error(WorkerError { message })));
    actions.push(WorkerAction::Exit { success: false });
    assert(actions.deep_view() =~= failure_actions(message@));
    actions
}

/// No action.
fn nothing() -> (actions: Vec<WorkerAction>)
    ensures
        actions.deep_view() == Seq::<WorkerActionView>::empty(),
{
    let actions: Vec<WorkerAction> = Vec::new();
    assert(actions.deep_view() =~= Seq::<WorkerActionView>::empty());
    actions
}

/// One action.
fn only(action: WorkerAction) -> (actions: Vec<WorkerAction>)
    ensures
        actions.deep_view() == seq![action@],
{
    let mut actions: Vec<WorkerAction> = Vec::new();
    actions.push(action);
    assert(actions.deep_view() =~= seq![action@]);
    actions
}

/// The first line read: the request it holds, or the message of the failure.
pub fn read_request(line: Option<String>) -> (request: Result<WorkRequest, String>)
    ensures
        match line {
            None => request matches Err(message) && message@ == "missing WorkRequest"@,
            Some(text) => match line_meaning(text@) {
                Some(DecodedView::Message(IpcMessageView::WorkRequest(r))) => request matches Ok(
                    read,
                ) && read@ == r,
                Some(_) => {
                    &&& request matches Err(message)
                    &&& "expected work_request, got "@.is_prefix_of(message@)
                },
                None => {
                    &&& request matches Err(message)
                    &&& "parse WorkRequest JSON: "@.is_prefix_of(message@)
                    &&& json_parse(text@) is Some ==> message@ == "parse WorkRequest JSON"@ + ": "@
                        + malformed_detail()
                },
            },
        },
{
    let text = match line {
        Some(text) => text,
        None => {
            return Err(String::from_str("missing WorkRequest"));
        },
    };
    match decode_line(text.as_str()) {
        Ok(Decoded::Message(AgentTreeIpcMessage::WorkRequest(request))) => Ok(request),
        Ok(Decoded::Message(other)) => {
            let mut message = String::from_str("expected work_request, got ");
            let detail = debug_text(&other);
            message.append(detail.as_str());
            assert(message@.subrange(0, "expected work_request, got "@.len() as int)
                =~= "expected work_request, got "@);
            Err(message)
        },
        Ok(Decoded::Unknown(tag)) => {
            let mut message = String::from_str("expected work_request, got ");
            message.append(tag.as_str());
            assert(message@.subrange(0, "expected work_request, got "@.len() as int)
                =~= "expected work_request, got "@);
            Err(message)
        },
        Err(error) => {
            let message = describe_unreadable_line("parse WorkRequest JSON", &error);
            proof {
                reveal_strlit("parse WorkRequest JSON: ");
                reveal_strlit("parse WorkRequest JSON");
                reveal_strlit(": ");
                assert("parse WorkRequest JSON"@ + ": "@ =~= "parse WorkRequest JSON: "@);
                assert(message@.subrange(0, "parse WorkRequest JSON: "@.len() as int)
                    =~= "parse WorkRequest JSON: "@);
            }
            Err(message)
        },
    }
}

/// Takes what the caller reports and says what is to be done next.
///
/// A report that does not belong to the phase changes nothing and asks for
/// nothing; so does every report once the worker is done.
pub fn step(phase: WorkerPhase, event: WorkerEvent) -> (next: (WorkerPhase, Vec<WorkerAction>))
    ensures
        step_bounds(phase@, next.0@, next.1.deep_view()),
        match (phase, event) {
            (WorkerPhase::Start, WorkerEvent::FirstLine(None)) => {
                &&& next.0 is Done
                &&& next.1.deep_view() == failure_actions("missing WorkRequest"@)
            },
            (WorkerPhase::Start, WorkerEvent::FirstLine(Some(line))) => match line_meaning(line@) {
                Some(DecodedView::Message(IpcMessageView::WorkRequest(request))) => {
                    &&& next.0@ == WorkerPhaseView::LocatingRepo { request }
                    &&& next.1.deep_view() == seq![WorkerActionView::LocateRepo]
                },
                Some(_) => {
                    &&& next.0 is Done
                    &&& is_failure_with_prefix(next.1.deep_view(), "expected work_request, got "@)
                },
                None => {
                    &&& next.0 is Done
                    &&& is_failure_with_prefix(next.1.deep_view(), "parse WorkRequest JSON: "@)
                    &&& json_parse(line@) is Some ==> next.1.deep_view() == failure_actions(
                        "parse WorkRequest JSON"@ + ": "@ + malformed_detail(),
                    )
                },
            },
            (WorkerPhase::LocatingRepo { request }, WorkerEvent::RepoLocated(Ok(printed))) => {
                &&& next.0@ == WorkerPhaseView::MakingWorktree { request: request@ }
                &&& next.1.deep_view() == seq![
                    WorkerActionView::MakeWorktree {
                        repo_root: trimmed(printed@),
                        base_ref: base_ref_of(request@.base_ref),
                    },
                ]
            },
            (WorkerPhase::LocatingRepo { request }, WorkerEvent::RepoLocated(Err(detail))) => {
                &&& next.0 is Done
                &&& next.1.deep_view() == failure_actions("resolve git root"@ + ": "@ + detail@)
            },
            (WorkerPhase::MakingWorktree { request }, WorkerEvent::WorktreeMade(Ok(path))) => {
                &&& next.0@ == WorkerPhaseView::StartingThread {
                    request: request@,
                    worktree_path: path@,
                }
                &&& next.1.deep_view() == seq![
                    WorkerActionView::StartThread { cwd: path@, features: worker_features() },
                ]
            },
            (WorkerPhase::MakingWorktree { request }, WorkerEvent::WorktreeMade(Err(detail))) => {
                &&& next.0 is Done
                &&& next.1.deep_view() == failure_actions("create worktree"@ + ": "@ + detail@)
            },
            (
                WorkerPhase::StartingThread { request, worktree_path },
                WorkerEvent::ThreadStarted(Ok(thread_id)),
            ) => {
                &&& next.0@ == WorkerPhaseView::Submitting { worktree_path: worktree_path@ }
                &&& next.1.deep_view() == launch_actions(request@, thread_id)
            },
            (
                WorkerPhase::StartingThread { request, worktree_path },
                WorkerEvent::ThreadStarted(Err(detail)),
            ) => {
                &&& next.0 is Done
                &&& next.1.deep_view() == failure_actions("start L2 thread"@ + ": "@ + detail@)
            },
            (WorkerPhase::Submitting { worktree_path }, WorkerEvent::PromptSubmitted(Ok(_))) => {
                &&& next.0@ == WorkerPhaseView::Waiting { worktree_path: worktree_path@ }
                &&& next.1.deep_view() == seq![WorkerActionView::PollStatus]
            },
            (
                WorkerPhase::Submitting { worktree_path },
                WorkerEvent::PromptSubmitted(Err(detail)),
            ) => {
                &&& next.0 is Done
                &&& next.1.deep_view() == failure_actions("submit L2 prompt"@ + ": "@ + detail@)
            },
            (WorkerPhase::Waiting { worktree_path }, WorkerEvent::ThreadStatus(status)) => {
                match final_summary(status) {
                    Some(summary) => {
                        &&& next.0@ == WorkerPhaseView::Collecting {
                            worktree_path: worktree_path@,
                            summary,
                        }
                        &&& next.1.deep_view() == seq![
                            WorkerActionView::CancelDrains,
                            WorkerActionView::CollectDiff { worktree_path: worktree_path@ },
                        ]
                    },
                    None => {
                        &&& next.0@ == WorkerPhaseView::Waiting { worktree_path: worktree_path@ }
                        &&& next.1.deep_view() == seq![WorkerActionView::PollStatus]
                    },
                }
            },
            (
                WorkerPhase::Collecting { worktree_path, summary },
                WorkerEvent::DiffCollected { diff: Ok(diff), commands },
            ) => {
                &&& next.0 is Done
                &&& next.1.deep_view() == result_actions(
                    WorkerResultView {
                        summary: summary@,
                        diff: diff@,
                        commands: commands.deep_view(),
                        worktree_path: worktree_path@,
                    },
                )
            },
            (
                WorkerPhase::Collecting { worktree_path, summary },
                WorkerEvent::DiffCollected { diff: Err(detail), commands },
            ) => {
                &&& next.0 is Done
                &&& next.1.deep_view() == failure_actions(
                    "generate worktree diff"@ + ": "@ + detail@,
                )
            },
            _ => {
                &&& next.0@ == phase@
                &&& next.1.deep_view() == Seq::<WorkerActionView>::empty()
            },
        },
{
    match (phase, event) {
        (WorkerPhase::Start, WorkerEvent::FirstLine(line)) => match read_request(line) {
            Ok(request) => (
                WorkerPhase::LocatingRepo { request },
                only(WorkerAction::LocateRepo),
            ),
            Err(message) => {
                let actions = fail_with(message);
                (WorkerPhase::Done, actions)
            },
        },
        (WorkerPhase::LocatingRepo { request }, WorkerEvent::RepoLocated(Ok(printed))) => {
            let action = WorkerAction::MakeWorktree {
                repo_root: repo_root_of(printed.as_str()),
                base_ref: base_ref(&request),
            };
            (WorkerPhase::MakingWorktree { request }, only(action))
        },
        (WorkerPhase::LocatingRepo { request }, WorkerEvent::RepoLocated(Err(detail))) => (
            WorkerPhase::Done,
            fail("resolve git root", detail.as_str()),
        ),
        (WorkerPhase::MakingWorktree { request }, WorkerEvent::WorktreeMade(Ok(path))) => {
            let mut features: Vec<Feature> = Vec::new();
            features.push(Feature::Collab);
            features.push(Feature::ApplyPatchFreeform);
            assert(features@ =~= worker_features());
            let action = WorkerAction::StartThread { cwd: path.clone(), features };
            (WorkerPhase::StartingThread { request, worktree_path: path }, only(action))
        },
        (WorkerPhase::MakingWorktree { request }, WorkerEvent::WorktreeMade(Err(detail))) => (
            WorkerPhase::Done,
            fail("create worktree", detail.as_str()),
        ),
        (
            WorkerPhase::StartingThread { request, worktree_path },
            WorkerEvent::ThreadStarted(Ok(thread_id)),
        ) => {
            let mut announcement = String::from_str("L2 thread started: ");
            let id_text = thread_id.to_text();
            announcement.append(id_text.as_str());
            let mut actions: Vec<WorkerAction> = Vec::new();
            actions.push(
                WorkerAction::Emit(
                    AgentTreeIpcMessage::Log(
                        WorkerLog { level: WorkerLogLevel::Info, message: announcement },
                    ),
                ),
            );
            actions.push(WorkerAction::SpawnInputDispatcher);
            actions.push(WorkerAction::SpawnDrainSupervisor);
            actions.push(WorkerAction::Submit(Op::UserInput { text: build_l2_prompt(&request) }));
            assert(actions.deep_view() =~= launch_actions(request@, thread_id));
            (WorkerPhase::Submitting { worktree_path }, actions)
        },
        (
            WorkerPhase::StartingThread { request, worktree_path },
            WorkerEvent::ThreadStarted(Err(detail)),
        ) => (WorkerPhase::Done, fail("start L2 thread", detail.as_str())),
        (WorkerPhase::Submitting { worktree_path }, WorkerEvent::PromptSubmitted(Ok(_))) => (
            WorkerPhase::Waiting { worktree_path },
            only(WorkerAction::PollStatus),
        ),
        (WorkerPhase::Submitting { worktree_path }, WorkerEvent::PromptSubmitted(Err(detail))) => (
            WorkerPhase::Done,
            fail("submit L2 prompt", detail.as_str()),
        ),
        (WorkerPhase::Waiting { worktree_path }, WorkerEvent::ThreadStatus(status)) => {
            match final_message(status) {
                Some(summary) => {
                    let mut actions: Vec<WorkerAction> = Vec::new();
                    actions.push(WorkerAction::CancelDrains);
                    actions.push(
                        WorkerAction::CollectDiff { worktree_path: worktree_path.clone() },
                    );
                    assert(actions.deep_view() =~= seq![
                        WorkerActionView::CancelDrains,
                        WorkerActionView::CollectDiff { worktree_path: worktree_path@ },
                    ]);
                    (WorkerPhase::Collecting { worktree_path, summary }, actions)
                },
                None => (WorkerPhase::Waiting { worktree_path }, only(WorkerAction::PollStatus)),
            }
        },
        (
            WorkerPhase::Collecting { worktree_path, summary },
            WorkerEvent::DiffCollected { diff: Ok(diff), commands },
        ) => {
            let result = WorkerResult { summary, diff, commands, worktree_path };
            let ghost view = result@;
            let mut actions: Vec<WorkerAction> = Vec::new();
            actions.push(WorkerAction::Emit(AgentTreeIpcMessage::WorkerResult(result)));
            actions.push(WorkerAction::Exit { success: true });
            assert(actions.deep_view() =~= result_actions(view));
            (WorkerPhase::Done, actions)
        },
        (
            WorkerPhase::Collecting { worktree_path, summary },
            WorkerEvent::DiffCollected { diff: Err(detail), commands },
        ) => (WorkerPhase::Done, fail("generate worktree diff", detail.as_str())),
        (phase, _) => (phase, nothing()),
    }
}

} // verus!
