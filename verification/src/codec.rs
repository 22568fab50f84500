//! The fields of the wire form: texts, lists of texts, exit codes, request keys
//! and command records as JSON trees.

use crate::ident::AgentTreeRequestKey;
use crate::ident::RequestKeyView;
use crate::ident::ThreadId;
use crate::ipc::WorkerCommandResult;
use crate::ipc::WorkerCommandResultView;
use crate::json::items_view;
use crate::json::lemma_items_view;
use crate::json::lemma_members_push;
use crate::json::members_view;
use crate::json::Json;
use crate::json::JsonView;
use crate::json::Member;
use vstd::prelude::*;
use vstd::string::*;

verus! {

/// The tree of an optional text: the string, or `Null`.
pub open spec fn optional_text_tree(text: Option<Seq<char>>) -> JsonView {
    match text {
        Some(s) => JsonView::Str(s),
        None => JsonView::Null,
    }
}

/// The tree of a list of texts: the array of their strings.
pub open spec fn text_list_tree(texts: Seq<Seq<char>>) -> JsonView {
    JsonView::Array(Seq::new(texts.len(), |i: int| JsonView::Str(texts[i])))
}

/// A member that must be there and be a string.
pub open spec fn required_text(member: Option<JsonView>) -> Option<Seq<char>> {
    match member {
        Some(JsonView::Str(s)) => Some(s),
        _ => None,
    }
}

/// A member that is a string, or is `Null` or missing and then stands for no
/// text. The outer `None` says that it is something else.
pub open spec fn optional_text(member: Option<JsonView>) -> Option<Option<Seq<char>>> {
    match member {
        Some(JsonView::Str(s)) => Some(Some(s)),
        Some(JsonView::Null) => Some(None),
        None => Some(None),
        _ => None,
    }
}

/// The texts of an array of strings; `None` where the tree is anything else.
pub open spec fn text_list(tree: JsonView) -> Option<Seq<Seq<char>>> {
    match tree {
        JsonView::Array(items) => if forall|i: int| 0 <= i < items.len() ==> items[i] is Str {
            Some(Seq::new(items.len(), |i: int| items[i]->Str_0))
        } else {
            None
        },
        _ => None,
    }
}

/// A member that must be there and be an array of strings.
pub open spec fn required_text_list(member: Option<JsonView>) -> Option<Seq<Seq<char>>> {
    match member {
        Some(tree) => text_list(tree),
        None => None,
    }
}

/// A member that is an array of strings, or is missing and then stands for the
/// empty list.
pub open spec fn defaulted_text_list(member: Option<JsonView>) -> Option<Seq<Seq<char>>> {
    match member {
        Some(tree) => text_list(tree),
        None => Some(Seq::empty()),
    }
}

/// Appends a member to the members of an object under construction.
pub fn put(members: &mut Vec<Member>, name: &str, value: Json)
    ensures
        members_view(final(members)@) == members_view(old(members)@).insert(name@, value@),
{
    let member = Member { name: String::from_str(name), value };
    proof {
        lemma_members_push(members@, member);
    }
    members.push(member);
}

/// Whether a text is the given one.
pub fn is_text(text: &String, expected: &str) -> (same: bool)
    ensures
        same == (text@ == expected@),
{
    *text == String::from_str(expected)
}

/// The tree of an optional text.
pub fn encode_optional_text(text: &Option<String>) -> (tree: Json)
    ensures
        tree@ == optional_text_tree(text.deep_view()),
{
    match text {
        Some(s) => Json::Str(s.clone()),
        None => Json::Null,
    }
}

/// The tree of a list of texts.
pub fn encode_text_list(texts: &Vec<String>) -> (tree: Json)
    ensures
        tree@ == text_list_tree(texts.deep_view()),
{
    let mut items: Vec<Json> = Vec::new();
    let mut i: usize = 0;
    while i < texts.len()
        invariant
            i <= texts.len(),
            items.len() == i,
            forall|j: int| 0 <= j < i ==> items@[j]@ == JsonView::Str(texts@[j]@),
        decreases texts.len() - i,
    {
        items.push(Json::Str(texts[i].clone()));
        i = i + 1;
    }
    proof {
        lemma_items_view(items@);
        assert(items_view(items@) =~= Seq::new(
            texts.deep_view().len(),
            |i: int| JsonView::Str(texts.deep_view()[i]),
        ));
    }
    Json::Array(items)
}

/// Reads a member that must be a string.
pub fn decode_required_text(tree: &Json, name: &str) -> (text: Option<String>)
    ensures
        text.deep_view() == required_text(tree@.member(name@)),
{
    match tree.member(name) {
        Some(Json::Str(s)) => Some(s.clone()),
        _ => None,
    }
}

/// Reads a member that may be a string.
pub fn decode_optional_text(tree: &Json, name: &str) -> (text: Option<Option<String>>)
    ensures
        text.deep_view() == optional_text(tree@.member(name@)),
{
    match tree.member(name) {
        Some(Json::Str(s)) => Some(Some(s.clone())),
        Some(Json::Null) => Some(None),
        None => Some(None),
        _ => None,
    }
}

/// Reads an array of strings.
pub fn decode_text_list(tree: &Json) -> (texts: Option<Vec<String>>)
    ensures
        texts.deep_view() == text_list(tree@),
{
    match tree {
        Json::Array(items) => {
            let mut texts: Vec<String> = Vec::new();
            let mut i: usize = 0;
            proof {
                lemma_items_view(items@);
            }
            while i < items.len()
                invariant
                    i <= items.len(),
                    texts.len() == i,
                    *tree == Json::Array(*items),
                    forall|j: int| 0 <= j < i ==> items@[j]@ == JsonView::Str(texts@[j]@),
                decreases items.len() - i,
            {
                match &items[i] {
                    Json::Str(s) => {
                        texts.push(s.clone());
                    },
                    _ => {
                        proof {
                            lemma_items_view(items@);
                            assert(!(items_view(items@)[i as int] is Str));
                        }
                        return None;
                    },
                }
                i = i + 1;
            }
            proof {
                lemma_items_view(items@);
                let trees = items_view(items@);
                assert forall|j: int| 0 <= j < trees.len() implies trees[j] is Str by {
                    assert(trees[j] == items@[j]@);
                }
                assert(texts.deep_view() =~= Seq::new(trees.len(), |j: int| trees[j]->Str_0)) by {
                    assert forall|j: int| 0 <= j < trees.len() implies texts.deep_view()[j]
                        == trees[j]->Str_0 by {
                        assert(trees[j] == items@[j]@);
                    }
                }
            }
            Some(texts)
        },
        _ => None,
    }
}

/// The lengths and first letters of the names used on the wire, by which they
/// are told apart.
pub proof fn lemma_wire_names()
    ensures
        "type"@.len() == 4,
        "type"@[0] == 't',
        "type"@[1] == 'y',
        "task"@.len() == 4,
        "task"@[0] == 't',
        "task"@[1] == 'a',
        "context"@.len() == 7,
        "context"@[0] == 'c',
        "context"@[1] == 'o',
        "tests"@.len() == 5,
        "tests"@[0] == 't',
        "tests"@[1] == 'e',
        "base_ref"@.len() == 8,
        "base_ref"@[0] == 'b',
        "base_ref"@[1] == 'a',
        "request_key"@.len() == 11,
        "request_key"@[0] == 'r',
        "request_key"@[1] == 'e',
        "thread_id"@.len() == 9,
        "thread_id"@[0] == 't',
        "thread_id"@[1] == 'h',
        "event_id"@.len() == 8,
        "event_id"@[0] == 'e',
        "event_id"@[1] == 'v',
        "args"@.len() == 4,
        "args"@[0] == 'a',
        "args"@[1] == 'r',
        "questions"@.len() == 9,
        "questions"@[0] == 'q',
        "questions"@[1] == 'u',
        "id"@.len() == 2,
        "id"@[0] == 'i',
        "id"@[1] == 'd',
        "header"@.len() == 6,
        "header"@[0] == 'h',
        "header"@[1] == 'e',
        "question"@.len() == 8,
        "question"@[0] == 'q',
        "question"@[1] == 'u',
        "options"@.len() == 7,
        "options"@[0] == 'o',
        "options"@[1] == 'p',
        "response"@.len() == 8,
        "response"@[0] == 'r',
        "response"@[1] == 'e',
        "answers"@.len() == 7,
        "answers"@[0] == 'a',
        "answers"@[1] == 'n',
        "event"@.len() == 5,
        "event"@[0] == 'e',
        "event"@[1] == 'v',
        "command"@.len() == 7,
        "command"@[0] == 'c',
        "command"@[1] == 'o',
        "cwd"@.len() == 3,
        "cwd"@[0] == 'c',
        "cwd"@[1] == 'w',
        "reason"@.len() == 6,
        "reason"@[0] == 'r',
        "reason"@[1] == 'e',
        "proposed_execpolicy_amendment"@.len() == 29,
        "proposed_execpolicy_amendment"@[0] == 'p',
        "proposed_execpolicy_amendment"@[1] == 'r',
        "decision"@.len() == 8,
        "decision"@[0] == 'd',
        "decision"@[1] == 'e',
        "changes"@.len() == 7,
        "changes"@[0] == 'c',
        "changes"@[1] == 'h',
        "grant_root"@.len() == 10,
        "grant_root"@[0] == 'g',
        "grant_root"@[1] == 'r',
        "summary"@.len() == 7,
        "summary"@[0] == 's',
        "summary"@[1] == 'u',
        "diff"@.len() == 4,
        "diff"@[0] == 'd',
        "diff"@[1] == 'i',
        "commands"@.len() == 8,
        "commands"@[0] == 'c',
        "commands"@[1] == 'o',
        "worktree_path"@.len() == 13,
        "worktree_path"@[0] == 'w',
        "worktree_path"@[1] == 'o',
        "exit_code"@.len() == 9,
        "exit_code"@[0] == 'e',
        "exit_code"@[1] == 'x',
        "output"@.len() == 6,
        "output"@[0] == 'o',
        "output"@[1] == 'u',
        "level"@.len() == 5,
        "level"@[0] == 'l',
        "level"@[1] == 'e',
        "message"@.len() == 7,
        "message"@[0] == 'm',
        "message"@[1] == 'e',
        "work_request"@.len() == 12,
        "work_request"@[0] == 'w',
        "work_request"@[1] == 'o',
        "need_user_input"@.len() == 15,
        "need_user_input"@[0] == 'n',
        "need_user_input"@[1] == 'e',
        "user_input_answer"@.len() == 17,
        "user_input_answer"@[0] == 'u',
        "user_input_answer"@[1] == 's',
        "need_exec_approval"@.len() == 18,
        "need_exec_approval"@[0] == 'n',
        "need_exec_approval"@[1] == 'e',
        "exec_approval_answer"@.len() == 20,
        "exec_approval_answer"@[0] == 'e',
        "exec_approval_answer"@[1] == 'x',
        "need_patch_approval"@.len() == 19,
        "need_patch_approval"@[0] == 'n',
        "need_patch_approval"@[1] == 'e',
        "patch_approval_answer"@.len() == 21,
        "patch_approval_answer"@[0] == 'p',
        "patch_approval_answer"@[1] == 'a',
        "worker_result"@.len() == 13,
        "worker_result"@[0] == 'w',
        "worker_result"@[1] == 'o',
        "log"@.len() == 3,
        "log"@[0] == 'l',
        "log"@[1] == 'o',
        "error"@.len() == 5,
        "error"@[0] == 'e',
        "error"@[1] == 'r',
        "debug"@.len() == 5,
        "debug"@[0] == 'd',
        "debug"@[1] == 'e',
        "info"@.len() == 4,
        "info"@[0] == 'i',
        "info"@[1] == 'n',
        "warn"@.len() == 4,
        "warn"@[0] == 'w',
        "warn"@[1] == 'a',
        "approved"@.len() == 8,
        "approved"@[0] == 'a',
        "approved"@[1] == 'p',
        "approved_execpolicy_amendment"@.len() == 29,
        "approved_execpolicy_amendment"@[0] == 'a',
        "approved_execpolicy_amendment"@[1] == 'p',
        "approved_for_session"@.len() == 20,
        "approved_for_session"@[0] == 'a',
        "approved_for_session"@[1] == 'p',
        "denied"@.len() == 6,
        "denied"@[0] == 'd',
        "denied"@[1] == 'e',
        "abort"@.len() == 5,
        "abort"@[0] == 'a',
        "abort"@[1] == 'b',
{
    reveal_strlit("type");
    reveal_strlit("task");
    reveal_strlit("context");
    reveal_strlit("tests");
    reveal_strlit("base_ref");
    reveal_strlit("request_key");
    reveal_strlit("thread_id");
    reveal_strlit("event_id");
    reveal_strlit("args");
    reveal_strlit("questions");
    reveal_strlit("id");
    reveal_strlit("header");
    reveal_strlit("question");
    reveal_strlit("options");
    reveal_strlit("response");
    reveal_strlit("answers");
    reveal_strlit("event");
    reveal_strlit("command");
    reveal_strlit("cwd");
    reveal_strlit("reason");
    reveal_strlit("proposed_execpolicy_amendment");
    reveal_strlit("decision");
    reveal_strlit("changes");
    reveal_strlit("grant_root");
    reveal_strlit("summary");
    reveal_strlit("diff");
    reveal_strlit("commands");
    reveal_strlit("worktree_path");
    reveal_strlit("exit_code");
    reveal_strlit("output");
    reveal_strlit("level");
    reveal_strlit("message");
    reveal_strlit("work_request");
    reveal_strlit("need_user_input");
    reveal_strlit("user_input_answer");
    reveal_strlit("need_exec_approval");
    reveal_strlit("exec_approval_answer");
    reveal_strlit("need_patch_approval");
    reveal_strlit("patch_approval_answer");
    reveal_strlit("worker_result");
    reveal_strlit("log");
    reveal_strlit("error");
    reveal_strlit("debug");
    reveal_strlit("info");
    reveal_strlit("warn");
    reveal_strlit("approved");
    reveal_strlit("approved_execpolicy_amendment");
    reveal_strlit("approved_for_session");
    reveal_strlit("denied");
    reveal_strlit("abort");
}

/// The tree of a request key.
pub open spec fn request_key_tree(key: RequestKeyView) -> JsonView {
    JsonView::Object(
        map![
            "thread_id"@ => JsonView::Str(key.thread_id.text()),
            "event_id"@ => JsonView::Str(key.event_id),
        ],
    )
}

/// The request key that a tree stands for.
pub open spec fn request_key_of(tree: JsonView) -> Option<RequestKeyView> {
    match (required_text(tree.member("thread_id"@)), required_text(tree.member("event_id"@))) {
        (Some(thread), Some(event_id)) => match ThreadId::parse(thread) {
            Some(thread_id) => Some(RequestKeyView { thread_id, event_id }),
            None => None,
        },
        _ => None,
    }
}

/// Whether the key's thread is one whose text reads back as itself. Every
/// identifier that was written or read by this library is.
pub open spec fn request_key_readable(key: RequestKeyView) -> bool {
    ThreadId::parse(key.thread_id.text()) == Some(key.thread_id)
}

/// A readable key is read back from its tree.
pub proof fn lemma_request_key_round_trip(key: RequestKeyView)
    requires
        request_key_readable(key),
    ensures
        request_key_of(request_key_tree(key)) == Some(key),
{
    lemma_wire_names();
}

/// Writes a request key. The tree reads back as the key.
pub fn encode_request_key(key: &AgentTreeRequestKey) -> (tree: Json)
    ensures
        tree@ == request_key_tree(key@),
        request_key_readable(key@),
{
    let mut members: Vec<Member> = Vec::new();
    put(&mut members, "thread_id", Json::Str(key.thread_id.to_text()));
    put(&mut members, "event_id", Json::Str(key.event_id.clone()));
    Json::Object(members)
}

/// Reads a request key.
pub fn decode_request_key(tree: &Json) -> (key: Option<AgentTreeRequestKey>)
    ensures
        key.deep_view() == request_key_of(tree@),
{
    let thread = decode_required_text(tree, "thread_id");
    let event_id = decode_required_text(tree, "event_id");
    match (thread, event_id) {
        (Some(thread), Some(event_id)) => match ThreadId::from_string(thread.as_str()) {
            Some(thread_id) => Some(AgentTreeRequestKey { thread_id, event_id }),
            None => None,
        },
        _ => None,
    }
}

/// A list of texts is read back from its tree.
pub proof fn lemma_text_list_round_trip(texts: Seq<Seq<char>>)
    ensures
        text_list(text_list_tree(texts)) == Some(texts),
{
    let items = Seq::new(texts.len(), |i: int| JsonView::Str(texts[i]));
    assert(Seq::new(items.len(), |i: int| items[i]->Str_0) =~= texts);
}

/// A member that may be missing and then stands for `Null`.
pub open spec fn member_or_null(member: Option<JsonView>) -> JsonView {
    match member {
        Some(tree) => tree,
        None => JsonView::Null,
    }
}

/// Reads a member that may be missing.
pub fn decode_member_or_null(tree: &Json, name: &str) -> (value: Json)
    ensures
        value@ == member_or_null(tree@.member(name@)),
{
    match tree.member(name) {
        Some(value) => value.clone(),
        None => Json::Null,
    }
}

/// The tree of an exit code: the number, or `Null` where it is not known.
pub open spec fn exit_code_tree(code: Option<i32>) -> JsonView {
    match code {
        Some(c) => JsonView::Int(c as int),
        None => JsonView::Null,
    }
}

/// The exit code that a member stands for: an integer within `i32`, or none
/// where the member is `Null` or missing.
pub open spec fn exit_code_of(member: Option<JsonView>) -> Option<Option<i32>> {
    match member {
        Some(JsonView::Int(i)) => if i32::MIN <= i <= i32::MAX {
            Some(Some(i as i32))
        } else {
            None
        },
        Some(JsonView::Null) => Some(None),
        None => Some(None),
        _ => None,
    }
}

/// The tree of a command record.
pub open spec fn command_result_tree(record: WorkerCommandResultView) -> JsonView {
    JsonView::Object(
        map![
            "command"@ => JsonView::Str(record.command),
            "exit_code"@ => exit_code_tree(record.exit_code),
            "output"@ => JsonView::Str(record.output),
        ],
    )
}

/// The command record that a tree stands for.
pub open spec fn command_result_of(tree: JsonView) -> Option<WorkerCommandResultView> {
    match (
        required_text(tree.member("command"@)),
        exit_code_of(tree.member("exit_code"@)),
        required_text(tree.member("output"@)),
    ) {
        (Some(command), Some(exit_code), Some(output)) => Some(
            WorkerCommandResultView { command, exit_code, output },
        ),
        _ => None,
    }
}

/// A command record is read back from its tree.
pub proof fn lemma_command_result_round_trip(record: WorkerCommandResultView)
    ensures
        command_result_of(command_result_tree(record)) == Some(record),
{
    lemma_wire_names();
}

/// The tree of a list of command records.
pub open spec fn command_list_tree(records: Seq<WorkerCommandResultView>) -> JsonView {
    JsonView::Array(Seq::new(records.len(), |i: int| command_result_tree(records[i])))
}

/// The command records of an array of their trees.
pub open spec fn command_list_of(tree: JsonView) -> Option<Seq<WorkerCommandResultView>> {
    match tree {
        JsonView::Array(items) => if forall|i: int|
            0 <= i < items.len() ==> command_result_of(#[trigger] items[i]) is Some {
            Some(Seq::new(items.len(), |i: int| command_result_of(items[i])->0))
        } else {
            None
        },
        _ => None,
    }
}

/// A list of command records is read back from its tree.
pub proof fn lemma_command_list_round_trip(records: Seq<WorkerCommandResultView>)
    ensures
        command_list_of(command_list_tree(records)) == Some(records),
{
    let items = Seq::new(records.len(), |i: int| command_result_tree(records[i]));
    assert forall|i: int| 0 <= i < items.len() implies command_result_of(#[trigger] items[i])
        == Some(records[i]) by {
        lemma_command_result_round_trip(records[i]);
    }
    assert(Seq::new(items.len(), |i: int| command_result_of(items[i])->0) =~= records);
}

/// Writes a command record.
pub fn encode_command_result(record: &WorkerCommandResult) -> (tree: Json)
    ensures
        tree@ == command_result_tree(record@),
{
    let mut members: Vec<Member> = Vec::new();
    put(&mut members, "command", Json::Str(record.command.clone()));
    let code = match record.exit_code {
        Some(c) => Json::Int(c as i64),
        None => Json::Null,
    };
    put(&mut members, "exit_code", code);
    put(&mut members, "output", Json::Str(record.output.clone()));
    Json::Object(members)
}

/// Reads an exit code.
pub fn decode_exit_code(tree: &Json, name: &str) -> (code: Option<Option<i32>>)
    ensures
        code == exit_code_of(tree@.member(name@)),
{
    match tree.member(name) {
        Some(Json::Null) => Some(None),
        Some(value) => match value.as_int() {
            Some(i) => if -2147483648 <= i && i <= 2147483647 {
                Some(Some(i as i32))
            } else {
                None
            },
            None => None,
        },
        None => Some(None),
    }
}

/// Reads a command record.
pub fn decode_command_result(tree: &Json) -> (record: Option<WorkerCommandResult>)
    ensures
        record.deep_view() == command_result_of(tree@),
{
    let command = decode_required_text(tree, "command");
    let exit_code = decode_exit_code(tree, "exit_code");
    let output = decode_required_text(tree, "output");
    match (command, exit_code, output) {
        (Some(command), Some(exit_code), Some(output)) => Some(
            WorkerCommandResult { command, exit_code, output },
        ),
        _ => None,
    }
}

/// Writes a list of command records.
pub fn encode_command_list(records: &Vec<WorkerCommandResult>) -> (tree: Json)
    ensures
        tree@ == command_list_tree(records.deep_view()),
{
    let mut items: Vec<Json> = Vec::new();
    let mut i: usize = 0;
    while i < records.len()
        invariant
            i <= records.len(),
            items.len() == i,
            forall|j: int| 0 <= j < i ==> items@[j]@ == command_result_tree(records@[j]@),
        decreases records.len() - i,
    {
        items.push(encode_command_result(&records[i]));
        i = i + 1;
    }
    proof {
        lemma_items_view(items@);
        assert(items_view(items@) =~= Seq::new(
            records.deep_view().len(),
            |i: int| command_result_tree(records.deep_view()[i]),
        ));
    }
    Json::Array(items)
}

/// Reads a list of command records.
pub fn decode_command_list(tree: &Json) -> (records: Option<Vec<WorkerCommandResult>>)
    ensures
        records.deep_view() == command_list_of(tree@),
{
    match tree {
        Json::Array(items) => {
            let mut records: Vec<WorkerCommandResult> = Vec::new();
            let mut i: usize = 0;
            while i < items.len()
                invariant
                    i <= items.len(),
                    records.len() == i,
                    *tree == Json::Array(*items),
                    forall|j: int|
                        0 <= j < i ==> command_result_of(items@[j]@) == Some(records@[j]@),
                decreases items.len() - i,
            {
                match decode_command_result(&items[i]) {
                    Some(record) => {
                        records.push(record);
                    },
                    None => {
                        proof {
                            lemma_items_view(items@);
                            assert(command_result_of(items_view(items@)[i as int]) is None);
                        }
                        return None;
                    },
                }
                i = i + 1;
            }
            proof {
                lemma_items_view(items@);
                let trees = items_view(items@);
                assert forall|j: int| 0 <= j < trees.len() implies command_result_of(
                    #[trigger] trees[j],
                ) is Some by {
                    assert(trees[j] == items@[j]@);
                }
                assert(records.deep_view() =~= Seq::new(
                    trees.len(),
                    |j: int| command_result_of(trees[j])->0,
                )) by {
                    assert forall|j: int| 0 <= j < trees.len() implies records.deep_view()[j]
                        == command_result_of(trees[j])->0 by {
                        assert(trees[j] == items@[j]@);
                    }
                }
            }
            Some(records)
        },
        _ => None,
    }
}

} // verus!
