//! The tagged union of messages as JSON trees.

use crate::codec::command_list_of;
use crate::codec::command_list_tree;
use crate::codec::decode_command_list;
use crate::codec::decode_optional_text;
use crate::codec::decode_request_key;
use crate::codec::decode_required_text;
use crate::codec::decode_text_list;
use crate::codec::defaulted_text_list;
use crate::codec::encode_command_list;
use crate::codec::encode_optional_text;
use crate::codec::encode_request_key;
use crate::codec::encode_text_list;
use crate::codec::is_text;
use crate::codec::lemma_command_list_round_trip;
use crate::codec::lemma_request_key_round_trip;
use crate::codec::lemma_text_list_round_trip;
use crate::codec::lemma_wire_names;
use crate::codec::optional_text;
use crate::codec::optional_text_tree;
use crate::codec::put;
use crate::codec::request_key_of;
use crate::codec::request_key_readable;
use crate::codec::request_key_tree;
use crate::codec::required_text;
use crate::codec::text_list_tree;
use crate::ident::AgentTreeRequestKey;
use crate::ident::RequestKeyView;
use crate::ipc::AgentTreeIpcMessage;
use crate::ipc::ExecApprovalAnswer;
use crate::ipc::ExecApprovalAnswerView;
use crate::ipc::IpcMessageView;
use crate::ipc::NeedExecApproval;
use crate::ipc::NeedExecApprovalView;
use crate::ipc::NeedPatchApproval;
use crate::ipc::NeedPatchApprovalView;
use crate::ipc::NeedUserInput;
use crate::ipc::NeedUserInputView;
use crate::ipc::PatchApprovalAnswer;
use crate::ipc::PatchApprovalAnswerView;
use crate::ipc::UserInputAnswer;
use crate::ipc::UserInputAnswerView;
use crate::ipc::WorkRequest;
use crate::ipc::WorkRequestView;
use crate::ipc::WorkerError;
use crate::ipc::WorkerErrorView;
use crate::ipc::WorkerLog;
use crate::ipc::WorkerLogLevel;
use crate::ipc::WorkerLogView;
use crate::ipc::WorkerResult;
use crate::ipc::WorkerResultView;
use crate::json::Json;
use crate::json::JsonView;
use crate::json::members_view;
use crate::json::Member;
use crate::payload::args_of;
use crate::payload::args_tree;
use crate::payload::decision_of;
use crate::payload::decision_tree;
use crate::payload::decode_args;
use crate::payload::decode_decision;
use crate::payload::decode_exec_event;
use crate::payload::decode_patch_event;
use crate::payload::decode_response;
use crate::payload::encode_args;
use crate::payload::encode_decision;
use crate::payload::encode_exec_event;
use crate::payload::encode_patch_event;
use crate::payload::encode_response;
use crate::payload::exec_event_of;
use crate::payload::exec_event_tree;
use crate::payload::lemma_args_round_trip;
use crate::payload::lemma_decision_round_trip;
use crate::payload::lemma_exec_event_round_trip;
use crate::payload::lemma_patch_event_round_trip;
use crate::payload::lemma_response_round_trip;
use crate::payload::patch_event_of;
use crate::payload::patch_event_tree;
use crate::payload::response_of;
use crate::payload::response_tree;
use vstd::prelude::*;
use vstd::string::*;

verus! {

/// The members of an object that so far holds only its tag.
pub open spec fn tagged(tag: Seq<char>) -> Map<Seq<char>, JsonView> {
    map!["type"@ => JsonView::Str(tag)]
}

/// The members of a work request, added to `base`.
pub open spec fn work_request_members(
    base: Map<Seq<char>, JsonView>,
    request: WorkRequestView,
) -> Map<Seq<char>, JsonView> {
    base.insert("task"@, JsonView::Str(request.task)).insert(
        "context"@,
        optional_text_tree(request.context),
    ).insert("tests"@, text_list_tree(request.tests)).insert(
        "base_ref"@,
        optional_text_tree(request.base_ref),
    )
}

/// The work request that an object stands for. Only `task` must be there.
pub open spec fn work_request_of(tree: JsonView) -> Option<WorkRequestView> {
    match (
        required_text(tree.member("task"@)),
        optional_text(tree.member("context"@)),
        defaulted_text_list(tree.member("tests"@)),
        optional_text(tree.member("base_ref"@)),
    ) {
        (Some(task), Some(context), Some(tests), Some(base_ref)) => Some(
            WorkRequestView { task, context, tests, base_ref },
        ),
        _ => None,
    }
}

/// The members of a worker's result, added to `base`.
pub open spec fn worker_result_members(
    base: Map<Seq<char>, JsonView>,
    result: WorkerResultView,
) -> Map<Seq<char>, JsonView> {
    base.insert("summary"@, JsonView::Str(result.summary)).insert(
        "diff"@,
        JsonView::Str(result.diff),
    ).insert("commands"@, command_list_tree(result.commands)).insert(
        "worktree_path"@,
        JsonView::Str(result.worktree_path),
    )
}

/// The worker's result that an object stands for.
pub open spec fn worker_result_of(tree: JsonView) -> Option<WorkerResultView> {
    match (
        required_text(tree.member("summary"@)),
        required_text(tree.member("diff"@)),
        tree.member("commands"@),
        required_text(tree.member("worktree_path"@)),
    ) {
        (Some(summary), Some(diff), Some(list), Some(worktree_path)) => match command_list_of(
            list,
        ) {
            Some(commands) => Some(WorkerResultView { summary, diff, commands, worktree_path }),
            None => None,
        },
        _ => None,
    }
}

/// The name of a log level on the wire.
pub open spec fn level_name(level: WorkerLogLevel) -> Seq<char> {
    match level {
        WorkerLogLevel::Debug => "debug"@,
        WorkerLogLevel::Info => "info"@,
        WorkerLogLevel::Warn => "warn"@,
        WorkerLogLevel::Error => "error"@,
    }
}

/// The log level that a name stands for.
pub open spec fn level_of(name: Seq<char>) -> Option<WorkerLogLevel> {
    if name == "debug"@ {
        Some(WorkerLogLevel::Debug)
    } else if name == "info"@ {
        Some(WorkerLogLevel::Info)
    } else if name == "warn"@ {
        Some(WorkerLogLevel::Warn)
    } else if name == "error"@ {
        Some(WorkerLogLevel::Error)
    } else {
        None
    }
}

/// The members of a log line, added to `base`.
pub open spec fn log_members(base: Map<Seq<char>, JsonView>, log: WorkerLogView) -> Map<
    Seq<char>,
    JsonView,
> {
    base.insert("level"@, JsonView::Str(level_name(log.level))).insert(
        "message"@,
        JsonView::Str(log.message),
    )
}

/// The log line that an object stands for.
pub open spec fn log_of(tree: JsonView) -> Option<WorkerLogView> {
    match (required_text(tree.member("level"@)), required_text(tree.member("message"@))) {
        (Some(name), Some(message)) => match level_of(name) {
            Some(level) => Some(WorkerLogView { level, message }),
            None => None,
        },
        _ => None,
    }
}

/// The members of an error, added to `base`.
pub open spec fn error_members(base: Map<Seq<char>, JsonView>, error: WorkerErrorView) -> Map<
    Seq<char>,
    JsonView,
> {
    base.insert("message"@, JsonView::Str(error.message))
}

/// The error that an object stands for.
pub open spec fn error_of(tree: JsonView) -> Option<WorkerErrorView> {
    match required_text(tree.member("message"@)) {
        Some(message) => Some(WorkerErrorView { message }),
        None => None,
    }
}

/// The members of a message that bears a request key: the key, and under
/// `name` what the message carries.
pub open spec fn keyed_members(
    base: Map<Seq<char>, JsonView>,
    key: RequestKeyView,
    name: Seq<char>,
    carried: JsonView,
) -> Map<Seq<char>, JsonView> {
    base.insert("request_key"@, request_key_tree(key)).insert(name, carried)
}

/// The request key of an object.
pub open spec fn key_member_of(tree: JsonView) -> Option<RequestKeyView> {
    match tree.member("request_key"@) {
        Some(key) => request_key_of(key),
        None => None,
    }
}

/// The request for user input that an object stands for.
pub open spec fn need_user_input_of(tree: JsonView) -> Option<NeedUserInputView> {
    match (key_member_of(tree), tree.member("args"@)) {
        (Some(request_key), Some(carried)) => match args_of(carried) {
            Some(args) => Some(NeedUserInputView { request_key, args }),
            None => None,
        },
        _ => None,
    }
}

/// The answer to a request for user input that an object stands for.
pub open spec fn user_input_answer_of(tree: JsonView) -> Option<UserInputAnswerView> {
    match (key_member_of(tree), tree.member("response"@)) {
        (Some(request_key), Some(carried)) => match response_of(carried) {
            Some(response) => Some(UserInputAnswerView { request_key, response }),
            None => None,
        },
        _ => None,
    }
}

/// The request for approval of a command that an object stands for.
pub open spec fn need_exec_approval_of(tree: JsonView) -> Option<NeedExecApprovalView> {
    match (key_member_of(tree), tree.member("event"@)) {
        (Some(request_key), Some(carried)) => match exec_event_of(carried) {
            Some(event) => Some(NeedExecApprovalView { request_key, event }),
            None => None,
        },
        _ => None,
    }
}

/// The decision on a command that an object stands for.
pub open spec fn exec_approval_answer_of(tree: JsonView) -> Option<ExecApprovalAnswerView> {
    match (key_member_of(tree), tree.member("decision"@)) {
        (Some(request_key), Some(carried)) => match decision_of(carried) {
            Some(decision) => Some(ExecApprovalAnswerView { request_key, decision }),
            None => None,
        },
        _ => None,
    }
}

/// The request for approval of a patch that an object stands for.
pub open spec fn need_patch_approval_of(tree: JsonView) -> Option<NeedPatchApprovalView> {
    match (key_member_of(tree), tree.member("event"@)) {
        (Some(request_key), Some(carried)) => match patch_event_of(carried) {
            Some(event) => Some(NeedPatchApprovalView { request_key, event }),
            None => None,
        },
        _ => None,
    }
}

/// The decision on a patch that an object stands for.
pub open spec fn patch_approval_answer_of(tree: JsonView) -> Option<PatchApprovalAnswerView> {
    match (key_member_of(tree), tree.member("decision"@)) {
        (Some(request_key), Some(carried)) => match decision_of(carried) {
            Some(decision) => Some(PatchApprovalAnswerView { request_key, decision }),
            None => None,
        },
        _ => None,
    }
}

/// The tag of a message: the variant's name in snake case.
pub open spec fn message_tag(message: IpcMessageView) -> Seq<char> {
    match message {
        IpcMessageView::WorkRequest(_) => "work_request"@,
        IpcMessageView::NeedUserInput(_) => "need_user_input"@,
        IpcMessageView::UserInputAnswer(_) => "user_input_answer"@,
        IpcMessageView::NeedExecApproval(_) => "need_exec_approval"@,
        IpcMessageView::ExecApprovalAnswer(_) => "exec_approval_answer"@,
        IpcMessageView::NeedPatchApproval(_) => "need_patch_approval"@,
        IpcMessageView::PatchApprovalAnswer(_) => "patch_approval_answer"@,
        IpcMessageView::WorkerResult(_) => "worker_result"@,
        IpcMessageView::Log(_) => "log"@,
        IpcMessageView::Error(_) => "error"@,
    }
}

/// The members of a message's object: the tag under `type`, beside it the
/// variant's own fields.
pub open spec fn message_members(message: IpcMessageView) -> Map<Seq<char>, JsonView> {
    let base = tagged(message_tag(message));
    match message {
        IpcMessageView::WorkRequest(m) => work_request_members(base, m),
        IpcMessageView::NeedUserInput(m) => keyed_members(
            base,
            m.request_key,
            "args"@,
            args_tree(m.args),
        ),
        IpcMessageView::UserInputAnswer(m) => keyed_members(
            base,
            m.request_key,
            "response"@,
            response_tree(m.response),
        ),
        IpcMessageView::NeedExecApproval(m) => keyed_members(
            base,
            m.request_key,
            "event"@,
            exec_event_tree(m.event),
        ),
        IpcMessageView::ExecApprovalAnswer(m) => keyed_members(
            base,
            m.request_key,
            "decision"@,
            decision_tree(m.decision),
        ),
        IpcMessageView::NeedPatchApproval(m) => keyed_members(
            base,
            m.request_key,
            "event"@,
            patch_event_tree(m.event),
        ),
        IpcMessageView::PatchApprovalAnswer(m) => keyed_members(
            base,
            m.request_key,
            "decision"@,
            decision_tree(m.decision),
        ),
        IpcMessageView::WorkerResult(m) => worker_result_members(base, m),
        IpcMessageView::Log(m) => log_members(base, m),
        IpcMessageView::Error(m) => error_members(base, m),
    }
}

/// The wire form of a message.
pub open spec fn message_tree(message: IpcMessageView) -> JsonView {
    JsonView::Object(message_members(message))
}

/// What a well-formed object on the wire is: one of the known messages, or a
/// message of a kind that this side does not know, which is named and passed
/// over.
pub enum DecodedView {
    Message(IpcMessageView),
    Unknown(Seq<char>),
}

/// What reading an object gave.
#[derive(Debug, Clone, PartialEq, Eq)]
pub enum Decoded {
    Message(AgentTreeIpcMessage),
    /// An object whose `type` is none of the known tags; it holds the tag.
    Unknown(String),
}

impl DeepView for Decoded {
    type V = DecodedView;

    open spec fn deep_view(&self) -> DecodedView {
        match self {
            Decoded::Message(m) => DecodedView::Message(m@),
            Decoded::Unknown(tag) => DecodedView::Unknown(tag@),
        }
    }
}

impl View for Decoded {
    type V = DecodedView;

    open spec fn view(&self) -> DecodedView {
        self.deep_view()
    }
}

/// Lifts a message of one variant into the union.
pub open spec fn known<T>(body: Option<T>, wrap: spec_fn(T) -> IpcMessageView) -> Option<
    DecodedView,
> {
    match body {
        Some(b) => Some(DecodedView::Message(wrap(b))),
        None => None,
    }
}

/// What a tree on the wire stands for. `None` where it is no object with a
/// string under `type`, or where it bears a known tag and its fields are not
/// those of that variant. Members that the variant does not have are passed
/// over.
pub open spec fn message_of(tree: JsonView) -> Option<DecodedView> {
    match required_text(tree.member("type"@)) {
        None => None,
        Some(tag) => if tag == "work_request"@ {
            known(work_request_of(tree), |m| IpcMessageView::WorkRequest(m))
        } else if tag == "need_user_input"@ {
            known(need_user_input_of(tree), |m| IpcMessageView::NeedUserInput(m))
        } else if tag == "user_input_answer"@ {
            known(user_input_answer_of(tree), |m| IpcMessageView::UserInputAnswer(m))
        } else if tag == "need_exec_approval"@ {
            known(need_exec_approval_of(tree), |m| IpcMessageView::NeedExecApproval(m))
        } else if tag == "exec_approval_answer"@ {
            known(exec_approval_answer_of(tree), |m| IpcMessageView::ExecApprovalAnswer(m))
        } else if tag == "need_patch_approval"@ {
            known(need_patch_approval_of(tree), |m| IpcMessageView::NeedPatchApproval(m))
        } else if tag == "patch_approval_answer"@ {
            known(patch_approval_answer_of(tree), |m| IpcMessageView::PatchApprovalAnswer(m))
        } else if tag == "worker_result"@ {
            known(worker_result_of(tree), |m| IpcMessageView::WorkerResult(m))
        } else if tag == "log"@ {
            known(log_of(tree), |m| IpcMessageView::Log(m))
        } else if tag == "error"@ {
            known(error_of(tree), |m| IpcMessageView::Error(m))
        } else {
            Some(DecodedView::Unknown(tag))
        },
    }
}

/// Whether the message's request key, if it bears one, reads back as itself.
/// Every message that this library wrote or read is.
pub open spec fn message_readable(message: IpcMessageView) -> bool {
    match message {
        IpcMessageView::NeedUserInput(m) => request_key_readable(m.request_key),
        IpcMessageView::UserInputAnswer(m) => request_key_readable(m.request_key),
        IpcMessageView::NeedExecApproval(m) => request_key_readable(m.request_key),
        IpcMessageView::ExecApprovalAnswer(m) => request_key_readable(m.request_key),
        IpcMessageView::NeedPatchApproval(m) => request_key_readable(m.request_key),
        IpcMessageView::PatchApprovalAnswer(m) => request_key_readable(m.request_key),
        _ => true,
    }
}

/// The wire form of a message bears the variant's name under `type`.
pub proof fn lemma_message_tag(message: IpcMessageView)
    ensures
        message_tree(message).member("type"@) == Some(JsonView::Str(message_tag(message))),
{
    lemma_wire_names();
}

/// Every message is read back from its wire form as itself.
pub proof fn lemma_message_round_trip(message: IpcMessageView)
    requires
        message_readable(message),
    ensures
        message_of(message_tree(message)) == Some(DecodedView::Message(message)),
{
    lemma_wire_names();
    lemma_message_tag(message);
    match message {
        IpcMessageView::WorkRequest(m) => {
            lemma_text_list_round_trip(m.tests);
        },
        IpcMessageView::NeedUserInput(m) => {
            lemma_request_key_round_trip(m.request_key);
            lemma_args_round_trip(m.args);
        },
        IpcMessageView::UserInputAnswer(m) => {
            lemma_request_key_round_trip(m.request_key);
            lemma_response_round_trip(m.response);
        },
        IpcMessageView::NeedExecApproval(m) => {
            lemma_request_key_round_trip(m.request_key);
            lemma_exec_event_round_trip(m.event);
        },
        IpcMessageView::ExecApprovalAnswer(m) => {
            lemma_request_key_round_trip(m.request_key);
            lemma_decision_round_trip(m.decision);
        },
        IpcMessageView::NeedPatchApproval(m) => {
            lemma_request_key_round_trip(m.request_key);
            lemma_patch_event_round_trip(m.event);
        },
        IpcMessageView::PatchApprovalAnswer(m) => {
            lemma_request_key_round_trip(m.request_key);
            lemma_decision_round_trip(m.decision);
        },
        IpcMessageView::WorkerResult(m) => {
            lemma_command_list_round_trip(m.commands);
        },
        IpcMessageView::Log(m) => {},
        IpcMessageView::Error(m) => {},
    }
}

/// Adds the members of a work request.
pub fn put_work_request(members: &mut Vec<Member>, request: &WorkRequest)
    ensures
        members_view(final(members)@) == work_request_members(
            members_view(old(members)@),
            request@,
        ),
{
    put(members, "task", Json::Str(request.task.clone()));
    put(members, "context", encode_optional_text(&request.context));
    put(members, "tests", encode_text_list(&request.tests));
    put(members, "base_ref", encode_optional_text(&request.base_ref));
}

/// Reads a work request from an object.
pub fn decode_work_request(tree: &Json) -> (request: Option<WorkRequest>)
    ensures
        request.deep_view() == work_request_of(tree@),
{
    let task = decode_required_text(tree, "task");
    let context = decode_optional_text(tree, "context");
    let tests = match tree.member("tests") {
        Some(list) => decode_text_list(list),
        None => {
            let none: Vec<String> = Vec::new();
            assert(none.deep_view() =~= Seq::<Seq<char>>::empty());
            Some(none)
        },
    };
    let base_ref = decode_optional_text(tree, "base_ref");
    match (task, context, tests, base_ref) {
        (Some(task), Some(context), Some(tests), Some(base_ref)) => Some(
            WorkRequest { task, context, tests, base_ref },
        ),
        _ => None,
    }
}

/// Adds the members of a worker's result.
pub fn put_worker_result(members: &mut Vec<Member>, result: &WorkerResult)
    ensures
        members_view(final(members)@) == worker_result_members(
            members_view(old(members)@),
            result@,
        ),
{
    put(members, "summary", Json::Str(result.summary.clone()));
    put(members, "diff", Json::Str(result.diff.clone()));
    put(members, "commands", encode_command_list(&result.commands));
    put(members, "worktree_path", Json::Str(result.worktree_path.clone()));
}

/// Reads a worker's result from an object.
pub fn decode_worker_result(tree: &Json) -> (result: Option<WorkerResult>)
    ensures
        result.deep_view() == worker_result_of(tree@),
{
    let summary = decode_required_text(tree, "summary");
    let diff = decode_required_text(tree, "diff");
    let list = tree.member("commands");
    let worktree_path = decode_required_text(tree, "worktree_path");
    match (summary, diff, list, worktree_path) {
        (Some(summary), Some(diff), Some(list), Some(worktree_path)) => {
            match decode_command_list(list) {
                Some(commands) => Some(WorkerResult { summary, diff, commands, worktree_path }),
                None => None,
            }
        },
        _ => None,
    }
}

/// The wire form of a worker's result by itself, without a tag.
pub open spec fn worker_result_tree(result: WorkerResultView) -> JsonView {
    JsonView::Object(worker_result_members(Map::empty(), result))
}

/// Writes a worker's result by itself.
pub fn encode_worker_result(result: &WorkerResult) -> (tree: Json)
    ensures
        tree@ == worker_result_tree(result@),
{
    let mut members: Vec<Member> = Vec::new();
    put_worker_result(&mut members, result);
    Json::Object(members)
}

/// A worker's result is read back from its wire form, tagged or not.
pub proof fn lemma_worker_result_round_trip(
    base: Map<Seq<char>, JsonView>,
    result: WorkerResultView,
)
    ensures
        worker_result_of(JsonView::Object(worker_result_members(base, result))) == Some(result),
{
    lemma_wire_names();
    lemma_command_list_round_trip(result.commands);
}

/// Writes a log level.
pub fn encode_level(level: WorkerLogLevel) -> (tree: Json)
    ensures
        tree@ == JsonView::Str(level_name(level)),
{
    match level {
        WorkerLogLevel::Debug => Json::string("debug"),
        WorkerLogLevel::Info => Json::string("info"),
        WorkerLogLevel::Warn => Json::string("warn"),
        WorkerLogLevel::Error => Json::string("error"),
    }
}

/// Reads a log level.
pub fn decode_level(name: &String) -> (level: Option<WorkerLogLevel>)
    ensures
        level == level_of(name@),
{
    if is_text(name, "debug") {
        Some(WorkerLogLevel::Debug)
    } else if is_text(name, "info") {
        Some(WorkerLogLevel::Info)
    } else if is_text(name, "warn") {
        Some(WorkerLogLevel::Warn)
    } else if is_text(name, "error") {
        Some(WorkerLogLevel::Error)
    } else {
        None
    }
}

/// Adds the members of a log line.
pub fn put_log(members: &mut Vec<Member>, log: &WorkerLog)
    ensures
        members_view(final(members)@) == log_members(members_view(old(members)@), log@),
{
    put(members, "level", encode_level(log.level));
    put(members, "message", Json::Str(log.message.clone()));
}

/// Reads a log line from an object.
pub fn decode_log(tree: &Json) -> (log: Option<WorkerLog>)
    ensures
        log.deep_view() == log_of(tree@),
{
    let name = decode_required_text(tree, "level");
    let message = decode_required_text(tree, "message");
    match (name, message) {
        (Some(name), Some(message)) => match decode_level(&name) {
            Some(level) => Some(WorkerLog { level, message }),
            None => None,
        },
        _ => None,
    }
}

/// Adds the members of an error.
pub fn put_error(members: &mut Vec<Member>, error: &WorkerError)
    ensures
        members_view(final(members)@) == error_members(members_view(old(members)@), error@),
{
    put(members, "message", Json::Str(error.message.clone()));
}

/// Reads an error from an object.
pub fn decode_error(tree: &Json) -> (error: Option<WorkerError>)
    ensures
        error.deep_view() == error_of(tree@),
{
    match decode_required_text(tree, "message") {
        Some(message) => Some(WorkerError { message }),
        None => None,
    }
}

/// Adds a request key and, under `name`, what the message carries.
pub fn put_keyed(
    members: &mut Vec<Member>,
    key: &AgentTreeRequestKey,
    name: &str,
    carried: Json,
)
    ensures
        members_view(final(members)@) == keyed_members(
            members_view(old(members)@),
            key@,
            name@,
            carried@,
        ),
        request_key_readable(key@),
{
    put(members, "request_key", encode_request_key(key));
    put(members, name, carried);
}

/// Reads the request key of an object.
pub fn decode_key_member(tree: &Json) -> (key: Option<AgentTreeRequestKey>)
    ensures
        key.deep_view() == key_member_of(tree@),
{
    match tree.member("request_key") {
        Some(key) => decode_request_key(key),
        None => None,
    }
}

/// Writes a message. The tree bears the variant's name under `type` and reads
/// back as the message.
pub fn encode_message(message: &AgentTreeIpcMessage) -> (tree: Json)
    ensures
        tree@ == message_tree(message@),
        tree@.member("type"@) == Some(JsonView::Str(message_tag(message@))),
        message_of(tree@) == Some(DecodedView::Message(message@)),
{
    let mut members: Vec<Member> = Vec::new();
    match message {
        AgentTreeIpcMessage::WorkRequest(m) => {
            put(&mut members, "type", Json::string("work_request"));
            put_work_request(&mut members, m);
        },
        AgentTreeIpcMessage::NeedUserInput(m) => {
            put(&mut members, "type", Json::string("need_user_input"));
            put_keyed(&mut members, &m.request_key, "args", encode_args(&m.args));
        },
        AgentTreeIpcMessage::UserInputAnswer(m) => {
            put(&mut members, "type", Json::string("user_input_answer"));
            put_keyed(&mut members, &m.request_key, "response", encode_response(&m.response));
        },
        AgentTreeIpcMessage::NeedExecApproval(m) => {
            put(&mut members, "type", Json::string("need_exec_approval"));
            put_keyed(&mut members, &m.request_key, "event", encode_exec_event(&m.event));
        },
        AgentTreeIpcMessage::ExecApprovalAnswer(m) => {
            put(&mut members, "type", Json::string("exec_approval_answer"));
            put_keyed(&mut members, &m.request_key, "decision", encode_decision(&m.decision));
        },
        AgentTreeIpcMessage::NeedPatchApproval(m) => {
            put(&mut members, "type", Json::string("need_patch_approval"));
            put_keyed(&mut members, &m.request_key, "event", encode_patch_event(&m.event));
        },
        AgentTreeIpcMessage::PatchApprovalAnswer(m) => {
            put(&mut members, "type", Json::string("patch_approval_answer"));
            put_keyed(&mut members, &m.request_key, "decision", encode_decision(&m.decision));
        },
        AgentTreeIpcMessage::WorkerResult(m) => {
            put(&mut members, "type", Json::string("worker_result"));
            put_worker_result(&mut members, m);
        },
        AgentTreeIpcMessage::Log(m) => {
            put(&mut members, "type", Json::string("log"));
            put_log(&mut members, m);
        },
        AgentTreeIpcMessage::Error(m) => {
            put(&mut members, "type", Json::string("error"));
            put_error(&mut members, m);
        },
    }
    proof {
        assert(members_view(Seq::<Member>::empty()) == Map::<Seq<char>, JsonView>::empty());
        assert(members_view(members@) =~= message_members(message@));
        lemma_message_tag(message@);
        lemma_message_round_trip(message@);
    }
    Json::Object(members)
}

/// Reads a message. `None` exactly where the tree is no well-formed message.
pub fn decode_message(tree: &Json) -> (decoded: Option<Decoded>)
    ensures
        decoded.deep_view() == message_of(tree@),
{
    let tag = match decode_required_text(tree, "type") {
        Some(tag) => tag,
        None => {
            return None;
        },
    };
    if is_text(&tag, "work_request") {
        match decode_work_request(tree) {
            Some(m) => Some(Decoded::Message(AgentTreeIpcMessage::WorkRequest(m))),
            None => None,
        }
    } else if is_text(&tag, "need_user_input") {
        let key = decode_key_member(tree);
        let args = match tree.member("args") {
            Some(carried) => decode_args(carried),
            None => None,
        };
        match (key, args) {
            (Some(request_key), Some(args)) => Some(
                Decoded::Message(
                    AgentTreeIpcMessage::NeedUserInput(NeedUserInput { request_key, args }),
                ),
            ),
            _ => None,
        }
    } else if is_text(&tag, "user_input_answer") {
        let key = decode_key_member(tree);
        let response = match tree.member("response") {
            Some(carried) => decode_response(carried),
            None => None,
        };
        match (key, response) {
            (Some(request_key), Some(response)) => Some(
                Decoded::Message(
                    AgentTreeIpcMessage::UserInputAnswer(UserInputAnswer { request_key, response }),
                ),
            ),
            _ => None,
        }
    } else if is_text(&tag, "need_exec_approval") {
        let key = decode_key_member(tree);
        let event = match tree.member("event") {
            Some(carried) => decode_exec_event(carried),
            None => None,
        };
        match (key, event) {
            (Some(request_key), Some(event)) => Some(
                Decoded::Message(
                    AgentTreeIpcMessage::NeedExecApproval(NeedExecApproval { request_key, event }),
                ),
            ),
            _ => None,
        }
    } else if is_text(&tag, "exec_approval_answer") {
        let key = decode_key_member(tree);
        let decision = match tree.member("decision") {
            Some(carried) => decode_decision(carried),
            None => None,
        };
        match (key, decision) {
            (Some(request_key), Some(decision)) => Some(
                Decoded::Message(
                    AgentTreeIpcMessage::ExecApprovalAnswer(
                        ExecApprovalAnswer { request_key, decision },
                    ),
                ),
            ),
            _ => None,
        }
    } else if is_text(&tag, "need_patch_approval") {
        let key = decode_key_member(tree);
        let event = match tree.member("event") {
            Some(carried) => decode_patch_event(carried),
            None => None,
        };
        match (key, event) {
            (Some(request_key), Some(event)) => Some(
                Decoded::Message(
                    AgentTreeIpcMessage::NeedPatchApproval(
                        NeedPatchApproval { request_key, event },
                    ),
                ),
            ),
            _ => None,
        }
    } else if is_text(&tag, "patch_approval_answer") {
        let key = decode_key_member(tree);
        let decision = match tree.member("decision") {
            Some(carried) => decode_decision(carried),
            None => None,
        };
        match (key, decision) {
            (Some(request_key), Some(decision)) => Some(
                Decoded::Message(
                    AgentTreeIpcMessage::PatchApprovalAnswer(
                        PatchApprovalAnswer { request_key, decision },
                    ),
                ),
            ),
            _ => None,
        }
    } else if is_text(&tag, "worker_result") {
        match decode_worker_result(tree) {
            Some(m) => Some(Decoded::Message(AgentTreeIpcMessage::WorkerResult(m))),
            None => None,
        }
    } else if is_text(&tag, "log") {
        match decode_log(tree) {
            Some(m) => Some(Decoded::Message(AgentTreeIpcMessage::Log(m))),
            None => None,
        }
    } else if is_text(&tag, "error") {
        match decode_error(tree) {
            Some(m) => Some(Decoded::Message(AgentTreeIpcMessage::Error(m))),
            None => None,
        }
    } else {
        Some(Decoded::Unknown(tag))
    }
}

} // verus!
