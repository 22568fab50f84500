//! The wire form of what interactive requests and their answers carry.

use crate::codec::decode_member_or_null;
use crate::codec::decode_optional_text;
use crate::codec::decode_required_text;
use crate::codec::decode_text_list;
use crate::codec::encode_optional_text;
use crate::codec::encode_text_list;
use crate::codec::lemma_text_list_round_trip;
use crate::codec::lemma_wire_names;
use crate::codec::member_or_null;
use crate::codec::optional_text;
use crate::codec::optional_text_tree;
use crate::codec::put;
use crate::codec::required_text;
use crate::codec::required_text_list;
use crate::codec::text_list_tree;
use crate::ipc::ApplyPatchApprovalRequestEvent;
use crate::ipc::ApplyPatchApprovalRequestEventView;
use crate::ipc::ExecApprovalRequestEvent;
use crate::ipc::ExecApprovalRequestEventView;
use crate::ipc::RequestUserInputArgs;
use crate::ipc::RequestUserInputArgsView;
use crate::ipc::RequestUserInputQuestion;
use crate::ipc::RequestUserInputQuestionView;
use crate::ipc::RequestUserInputResponse;
use crate::ipc::RequestUserInputResponseView;
use crate::ipc::ReviewDecision;
use crate::ipc::ReviewDecisionView;
use crate::json::copy_members;
use crate::json::items_view;
use crate::json::lemma_items_view;
use crate::json::Json;
use crate::json::JsonView;
use crate::json::Member;
use vstd::prelude::*;
use vstd::string::*;

verus! {

/// The tree of a question.
pub open spec fn question_tree(question: RequestUserInputQuestionView) -> JsonView {
    JsonView::Object(
        map![
            "id"@ => JsonView::Str(question.id),
            "header"@ => JsonView::Str(question.header),
            "question"@ => JsonView::Str(question.question),
            "options"@ => question.options,
        ],
    )
}

/// The question that a tree stands for.
pub open spec fn question_of(tree: JsonView) -> Option<RequestUserInputQuestionView> {
    match (
        required_text(tree.member("id"@)),
        required_text(tree.member("header"@)),
        required_text(tree.member("question"@)),
    ) {
        (Some(id), Some(header), Some(question)) => Some(
            RequestUserInputQuestionView {
                id,
                header,
                question,
                options: member_or_null(tree.member("options"@)),
            },
        ),
        _ => None,
    }
}

/// A question is read back from its tree.
pub proof fn lemma_question_round_trip(question: RequestUserInputQuestionView)
    ensures
        question_of(question_tree(question)) == Some(question),
{
    lemma_wire_names();
}

/// The tree of the questions of a request.
pub open spec fn args_tree(args: RequestUserInputArgsView) -> JsonView {
    JsonView::Object(
        map![
            "questions"@ => JsonView::Array(
                Seq::new(args.questions.len(), |i: int| question_tree(args.questions[i])),
            ),
        ],
    )
}

/// The questions of an array of their trees.
pub open spec fn question_list_of(tree: JsonView) -> Option<Seq<RequestUserInputQuestionView>> {
    match tree {
        JsonView::Array(items) => if forall|i: int|
            0 <= i < items.len() ==> question_of(#[trigger] items[i]) is Some {
            Some(Seq::new(items.len(), |i: int| question_of(items[i])->0))
        } else {
            None
        },
        _ => None,
    }
}

/// The questions that a tree stands for.
pub open spec fn args_of(tree: JsonView) -> Option<RequestUserInputArgsView> {
    match tree.member("questions"@) {
        Some(list) => match question_list_of(list) {
            Some(questions) => Some(RequestUserInputArgsView { questions }),
            None => None,
        },
        None => None,
    }
}

/// The questions of a request are read back from their tree.
pub proof fn lemma_args_round_trip(args: RequestUserInputArgsView)
    ensures
        args_of(args_tree(args)) == Some(args),
{
    let items = Seq::new(args.questions.len(), |i: int| question_tree(args.questions[i]));
    assert forall|i: int| 0 <= i < items.len() implies question_of(#[trigger] items[i]) == Some(
        args.questions[i],
    ) by {
        lemma_question_round_trip(args.questions[i]);
    }
    assert(Seq::new(items.len(), |i: int| question_of(items[i])->0) =~= args.questions);
}

/// Writes a question.
pub fn encode_question(question: &RequestUserInputQuestion) -> (tree: Json)
    ensures
        tree@ == question_tree(question@),
{
    let mut members: Vec<Member> = Vec::new();
    put(&mut members, "id", Json::Str(question.id.clone()));
    put(&mut members, "header", Json::Str(question.header.clone()));
    put(&mut members, "question", Json::Str(question.question.clone()));
    put(&mut members, "options", question.options.clone());
    Json::Object(members)
}

/// Reads a question.
pub fn decode_question(tree: &Json) -> (question: Option<RequestUserInputQuestion>)
    ensures
        question.deep_view() == question_of(tree@),
{
    let id = decode_required_text(tree, "id");
    let header = decode_required_text(tree, "header");
    let text = decode_required_text(tree, "question");
    match (id, header, text) {
        (Some(id), Some(header), Some(question)) => Some(
            RequestUserInputQuestion {
                id,
                header,
                question,
                options: decode_member_or_null(tree, "options"),
            },
        ),
        _ => None,
    }
}

/// Writes the questions of a request.
pub fn encode_args(args: &RequestUserInputArgs) -> (tree: Json)
    ensures
        tree@ == args_tree(args@),
{
    let mut items: Vec<Json> = Vec::new();
    let mut i: usize = 0;
    while i < args.questions.len()
        invariant
            i <= args.questions.len(),
            items.len() == i,
            forall|j: int| 0 <= j < i ==> items@[j]@ == question_tree(args.questions@[j]@),
        decreases args.questions.len() - i,
    {
        items.push(encode_question(&args.questions[i]));
        i = i + 1;
    }
    proof {
        lemma_items_view(items@);
        assert(items_view(items@) =~= Seq::new(
            args@.questions.len(),
            |i: int| question_tree(args@.questions[i]),
        ));
    }
    let mut members: Vec<Member> = Vec::new();
    put(&mut members, "questions", Json::Array(items));
    Json::Object(members)
}

/// Reads an array of questions.
pub fn decode_question_list(tree: &Json) -> (questions: Option<Vec<RequestUserInputQuestion>>)
    ensures
        questions.deep_view() == question_list_of(tree@),
{
    match tree {
        Json::Array(items) => {
            let mut questions: Vec<RequestUserInputQuestion> = Vec::new();
            let mut i: usize = 0;
            while i < items.len()
                invariant
                    i <= items.len(),
                    questions.len() == i,
                    *tree == Json::Array(*items),
                    forall|j: int| 0 <= j < i ==> question_of(items@[j]@) == Some(questions@[j]@),
                decreases items.len() - i,
            {
                match decode_question(&items[i]) {
                    Some(question) => {
                        questions.push(question);
                    },
                    None => {
                        proof {
                            lemma_items_view(items@);
                            assert(question_of(items_view(items@)[i as int]) is None);
                        }
                        return None;
                    },
                }
                i = i + 1;
            }
            proof {
                lemma_items_view(items@);
                let trees = items_view(items@);
                assert forall|j: int| 0 <= j < trees.len() implies question_of(
                    #[trigger] trees[j],
                ) is Some by {
                    assert(trees[j] == items@[j]@);
                }
                assert(questions.deep_view() =~= Seq::new(
                    trees.len(),
                    |j: int| question_of(trees[j])->0,
                )) by {
                    assert forall|j: int| 0 <= j < trees.len() implies questions.deep_view()[j]
                        == question_of(trees[j])->0 by {
                        assert(trees[j] == items@[j]@);
                    }
                }
            }
            Some(questions)
        },
        _ => None,
    }
}

/// Reads the questions of a request.
pub fn decode_args(tree: &Json) -> (args: Option<RequestUserInputArgs>)
    ensures
        args.deep_view() == args_of(tree@),
{
    match tree.member("questions") {
        Some(list) => match decode_question_list(list) {
            Some(questions) => Some(RequestUserInputArgs { questions }),
            None => None,
        },
        None => None,
    }
}

/// The tree of a response: its answers as one object.
pub open spec fn response_tree(response: RequestUserInputResponseView) -> JsonView {
    JsonView::Object(map!["answers"@ => JsonView::Object(response.answers)])
}

/// The response that a tree stands for.
pub open spec fn response_of(tree: JsonView) -> Option<RequestUserInputResponseView> {
    match tree.member("answers"@) {
        Some(JsonView::Object(answers)) => Some(RequestUserInputResponseView { answers }),
        _ => None,
    }
}

/// A response is read back from its tree.
pub proof fn lemma_response_round_trip(response: RequestUserInputResponseView)
    ensures
        response_of(response_tree(response)) == Some(response),
{
}

/// Writes a response.
pub fn encode_response(response: &RequestUserInputResponse) -> (tree: Json)
    ensures
        tree@ == response_tree(response@),
{
    let mut members: Vec<Member> = Vec::new();
    put(&mut members, "answers", Json::Object(copy_members(&response.answers)));
    Json::Object(members)
}

/// Reads a response.
pub fn decode_response(tree: &Json) -> (response: Option<RequestUserInputResponse>)
    ensures
        response.deep_view() == response_of(tree@),
{
    match tree.member("answers") {
        Some(Json::Object(answers)) => Some(
            RequestUserInputResponse { answers: copy_members(answers) },
        ),
        _ => None,
    }
}

/// The tree of a decision: its name in snake case, or for an approval that
/// amends the policy an object of that name around the amendment.
pub open spec fn decision_tree(decision: ReviewDecisionView) -> JsonView {
    match decision {
        ReviewDecisionView::Approved => JsonView::Str("approved"@),
        ReviewDecisionView::ApprovedExecpolicyAmendment { proposed_execpolicy_amendment } =>
            JsonView::Object(
            map![
                "approved_execpolicy_amendment"@ => JsonView::Object(
                    map!["proposed_execpolicy_amendment"@ => proposed_execpolicy_amendment],
                ),
            ],
        ),
        ReviewDecisionView::ApprovedForSession => JsonView::Str("approved_for_session"@),
        ReviewDecisionView::Denied => JsonView::Str("denied"@),
        ReviewDecisionView::Abort => JsonView::Str("abort"@),
    }
}

/// The decision that a tree stands for.
pub open spec fn decision_of(tree: JsonView) -> Option<ReviewDecisionView> {
    match tree {
        JsonView::Str(name) => if name == "approved"@ {
            Some(ReviewDecisionView::Approved)
        } else if name == "approved_for_session"@ {
            Some(ReviewDecisionView::ApprovedForSession)
        } else if name == "denied"@ {
            Some(ReviewDecisionView::Denied)
        } else if name == "abort"@ {
            Some(ReviewDecisionView::Abort)
        } else {
            None
        },
        JsonView::Object(_) => match tree.member("approved_execpolicy_amendment"@) {
            Some(inner) => match inner.member("proposed_execpolicy_amendment"@) {
                Some(amendment) => Some(
                    ReviewDecisionView::ApprovedExecpolicyAmendment {
                        proposed_execpolicy_amendment: amendment,
                    },
                ),
                None => None,
            },
            None => None,
        },
        _ => None,
    }
}

/// A decision is read back from its tree.
pub proof fn lemma_decision_round_trip(decision: ReviewDecisionView)
    ensures
        decision_of(decision_tree(decision)) == Some(decision),
{
    lemma_wire_names();
}

/// Writes a decision.
pub fn encode_decision(decision: &ReviewDecision) -> (tree: Json)
    ensures
        tree@ == decision_tree(decision@),
{
    match decision {
        ReviewDecision::Approved => Json::string("approved"),
        ReviewDecision::ApprovedExecpolicyAmendment { proposed_execpolicy_amendment } => {
            let mut inner: Vec<Member> = Vec::new();
            put(&mut inner, "proposed_execpolicy_amendment", proposed_execpolicy_amendment.clone());
            let mut outer: Vec<Member> = Vec::new();
            put(&mut outer, "approved_execpolicy_amendment", Json::Object(inner));
            Json::Object(outer)
        },
        ReviewDecision::ApprovedForSession => Json::string("approved_for_session"),
        ReviewDecision::Denied => Json::string("denied"),
        ReviewDecision::Abort => Json::string("abort"),
    }
}

/// Reads a decision.
pub fn decode_decision(tree: &Json) -> (decision: Option<ReviewDecision>)
    ensures
        decision.deep_view() == decision_of(tree@),
{
    match tree {
        Json::Str(name) => {
            if *name == String::from_str("approved") {
                Some(ReviewDecision::Approved)
            } else if *name == String::from_str("approved_for_session") {
                Some(ReviewDecision::ApprovedForSession)
            } else if *name == String::from_str("denied") {
                Some(ReviewDecision::Denied)
            } else if *name == String::from_str("abort") {
                Some(ReviewDecision::Abort)
            } else {
                None
            }
        },
        Json::Object(_) => match tree.member("approved_execpolicy_amendment") {
            Some(inner) => match inner.member("proposed_execpolicy_amendment") {
                Some(amendment) => Some(
                    ReviewDecision::ApprovedExecpolicyAmendment {
                        proposed_execpolicy_amendment: amendment.clone(),
                    },
                ),
                None => None,
            },
            None => None,
        },
        _ => None,
    }
}

/// The tree of a command that waits for approval.
pub open spec fn exec_event_tree(event: ExecApprovalRequestEventView) -> JsonView {
    JsonView::Object(
        map![
            "command"@ => text_list_tree(event.command),
            "cwd"@ => JsonView::Str(event.cwd),
            "reason"@ => optional_text_tree(event.reason),
            "proposed_execpolicy_amendment"@ => event.proposed_execpolicy_amendment,
        ],
    )
}

/// The command waiting for approval that a tree stands for.
pub open spec fn exec_event_of(tree: JsonView) -> Option<ExecApprovalRequestEventView> {
    match (
        required_text_list(tree.member("command"@)),
        required_text(tree.member("cwd"@)),
        optional_text(tree.member("reason"@)),
    ) {
        (Some(command), Some(cwd), Some(reason)) => Some(
            ExecApprovalRequestEventView {
                command,
                cwd,
                reason,
                proposed_execpolicy_amendment: member_or_null(
                    tree.member("proposed_execpolicy_amendment"@),
                ),
            },
        ),
        _ => None,
    }
}

/// A command waiting for approval is read back from its tree.
pub proof fn lemma_exec_event_round_trip(event: ExecApprovalRequestEventView)
    ensures
        exec_event_of(exec_event_tree(event)) == Some(event),
{
    lemma_wire_names();
    lemma_text_list_round_trip(event.command);
}

/// Writes a command that waits for approval.
pub fn encode_exec_event(event: &ExecApprovalRequestEvent) -> (tree: Json)
    ensures
        tree@ == exec_event_tree(event@),
{
    let mut members: Vec<Member> = Vec::new();
    put(&mut members, "command", encode_text_list(&event.command));
    put(&mut members, "cwd", Json::Str(event.cwd.clone()));
    put(&mut members, "reason", encode_optional_text(&event.reason));
    put(
        &mut members,
        "proposed_execpolicy_amendment",
        event.proposed_execpolicy_amendment.clone(),
    );
    Json::Object(members)
}

/// Reads a command that waits for approval.
pub fn decode_exec_event(tree: &Json) -> (event: Option<ExecApprovalRequestEvent>)
    ensures
        event.deep_view() == exec_event_of(tree@),
{
    let command = match tree.member("command") {
        Some(list) => decode_text_list(list),
        None => None,
    };
    let cwd = decode_required_text(tree, "cwd");
    let reason = decode_optional_text(tree, "reason");
    match (command, cwd, reason) {
        (Some(command), Some(cwd), Some(reason)) => Some(
            ExecApprovalRequestEvent {
                command,
                cwd,
                reason,
                proposed_execpolicy_amendment: decode_member_or_null(
                    tree,
                    "proposed_execpolicy_amendment",
                ),
            },
        ),
        _ => None,
    }
}

/// The tree of a patch that waits for approval.
pub open spec fn patch_event_tree(event: ApplyPatchApprovalRequestEventView) -> JsonView {
    JsonView::Object(
        map![
            "changes"@ => event.changes,
            "reason"@ => optional_text_tree(event.reason),
            "grant_root"@ => optional_text_tree(event.grant_root),
        ],
    )
}

/// The patch waiting for approval that a tree stands for.
pub open spec fn patch_event_of(tree: JsonView) -> Option<ApplyPatchApprovalRequestEventView> {
    match (
        tree.member("changes"@),
        optional_text(tree.member("reason"@)),
        optional_text(tree.member("grant_root"@)),
    ) {
        (Some(changes), Some(reason), Some(grant_root)) => Some(
            ApplyPatchApprovalRequestEventView { changes, reason, grant_root },
        ),
        _ => None,
    }
}

/// A patch waiting for approval is read back from its tree.
pub proof fn lemma_patch_event_round_trip(event: ApplyPatchApprovalRequestEventView)
    ensures
        patch_event_of(patch_event_tree(event)) == Some(event),
{
    lemma_wire_names();
}

/// Writes a patch that waits for approval.
pub fn encode_patch_event(event: &ApplyPatchApprovalRequestEvent) -> (tree: Json)
    ensures
        tree@ == patch_event_tree(event@),
{
    let mut members: Vec<Member> = Vec::new();
    put(&mut members, "changes", event.changes.clone());
    put(&mut members, "reason", encode_optional_text(&event.reason));
    put(&mut members, "grant_root", encode_optional_text(&event.grant_root));
    Json::Object(members)
}

/// Reads a patch that waits for approval.
pub fn decode_patch_event(tree: &Json) -> (event: Option<ApplyPatchApprovalRequestEvent>)
    ensures
        event.deep_view() == patch_event_of(tree@),
{
    let changes = tree.member("changes");
    let reason = decode_optional_text(tree, "reason");
    let grant_root = decode_optional_text(tree, "grant_root");
    match (changes, reason, grant_root) {
        (Some(changes), Some(reason), Some(grant_root)) => Some(
            ApplyPatchApprovalRequestEvent { changes: changes.clone(), reason, grant_root },
        ),
        _ => None,
    }
}

} // verus!
