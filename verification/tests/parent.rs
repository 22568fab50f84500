use agent_tree::apply_diff::apply_args;
use agent_tree::apply_diff::AgentTreeApplyDiffArgs;
use agent_tree::config_layer::ConfigLayerSource;
use agent_tree::delegate::result_action;
use agent_tree::delegate::unexpected_exit;
use agent_tree::delegate::worker_line;
use agent_tree::delegate::AgentTreeDelegateArgs;
use agent_tree::delegate::DelegateAction;
use agent_tree::delegate::DelegateEvent;
use agent_tree::framing::encode_line;
use agent_tree::handler::AgentTreeHandler;
use agent_tree::handler::ToolCall;
use agent_tree::ident::AgentTreeRequestKey;
use agent_tree::ident::ThreadId;
use agent_tree::ipc::AgentTreeIpcMessage;
use agent_tree::ipc::ApplyPatchApprovalRequestEvent;
use agent_tree::ipc::ExecApprovalAnswer;
use agent_tree::ipc::ExecApprovalRequestEvent;
use agent_tree::ipc::NeedExecApproval;
use agent_tree::ipc::NeedPatchApproval;
use agent_tree::ipc::NeedUserInput;
use agent_tree::ipc::PatchApprovalAnswer;
use agent_tree::ipc::RequestUserInputArgs;
use agent_tree::ipc::RequestUserInputResponse;
use agent_tree::ipc::ReviewDecision;
use agent_tree::ipc::UserInputAnswer;
use agent_tree::ipc::WorkRequest;
use agent_tree::ipc::WorkerCommandResult;
use agent_tree::ipc::WorkerResult;
use agent_tree::json::Json;
use agent_tree::json::JsonError;
use agent_tree::json::Member;
use agent_tree::tool::fatal;
use agent_tree::tool::respond_to_model;
use agent_tree::tool::FunctionCallError;
use agent_tree::tool::ToolKind;
use agent_tree::tool::ToolOutput;
use agent_tree::tool::ToolPayload;

fn key(event_id: &str) -> AgentTreeRequestKey {
    AgentTreeRequestKey::new(ThreadId { bits: 7 }, event_id)
}

fn line_of(message: &AgentTreeIpcMessage) -> String {
    encode_line(message).expect("line").trim_end().to_string()
}

#[test]
fn delegation_begins_with_the_work_request() {
    let args = AgentTreeDelegateArgs {
        task: "do thing".to_string(),
        context: Some("ctx".to_string()),
        tests: vec!["t".to_string()],
        base_ref: None,
    };
    let action = agent_tree::delegate::handle(DelegateEvent::Started(args));
    let expected = AgentTreeIpcMessage::WorkRequest(WorkRequest {
        task: "do thing".to_string(),
        context: Some("ctx".to_string()),
        tests: vec!["t".to_string()],
        base_ref: None,
    });
    assert_eq!(action, DelegateAction::Send(expected.clone()));
    assert_eq!(
        worker_line(&expected),
        Ok("{\"base_ref\":null,\"context\":\"ctx\",\"task\":\"do thing\",\"tests\":[\"t\"],\"type\":\"work_request\"}\n".to_string())
    );
}

#[test]
fn worker_questions_go_to_the_session() {
    let need = NeedUserInput { request_key: key("e1"), args: RequestUserInputArgs { questions: vec![] } };
    assert_eq!(
        agent_tree::delegate::handle(DelegateEvent::Line(line_of(
            &AgentTreeIpcMessage::NeedUserInput(need.clone())
        ))),
        DelegateAction::RequestUserInput(need)
    );
    let need = NeedExecApproval {
        request_key: key("e2"),
        event: ExecApprovalRequestEvent {
            command: vec!["ls".to_string(), "-l".to_string()],
            cwd: "/w".to_string(),
            reason: Some("look".to_string()),
            proposed_execpolicy_amendment: Json::Null,
        },
    };
    assert_eq!(
        agent_tree::delegate::handle(DelegateEvent::Line(line_of(
            &AgentTreeIpcMessage::NeedExecApproval(need.clone())
        ))),
        DelegateAction::RequestCommandApproval(need)
    );
    let need = NeedPatchApproval {
        request_key: key("e3"),
        event: ApplyPatchApprovalRequestEvent {
            changes: Json::Object(vec![Member { name: "a".to_string(), value: Json::Int(1) }]),
            reason: None,
            grant_root: None,
        },
    };
    assert_eq!(
        agent_tree::delegate::handle(DelegateEvent::Line(line_of(
            &AgentTreeIpcMessage::NeedPatchApproval(need.clone())
        ))),
        DelegateAction::RequestPatchApproval(need)
    );
}

#[test]
fn session_answers_go_back_under_the_key_of_the_question() {
    let response = RequestUserInputResponse {
        answers: vec![Member { name: "q1".to_string(), value: Json::string("yes") }],
    };
    assert_eq!(
        agent_tree::delegate::handle(DelegateEvent::UserInputAnswered {
            request_key: key("e1"),
            response: Some(response.clone()),
        }),
        DelegateAction::Send(AgentTreeIpcMessage::UserInputAnswer(UserInputAnswer {
            request_key: key("e1"),
            response,
        }))
    );
    assert_eq!(
        agent_tree::delegate::handle(DelegateEvent::UserInputAnswered {
            request_key: key("e1"),
            response: None,
        }),
        DelegateAction::Send(AgentTreeIpcMessage::UserInputAnswer(UserInputAnswer {
            request_key: key("e1"),
            response: RequestUserInputResponse { answers: vec![] },
        }))
    );
    assert_eq!(
        agent_tree::delegate::handle(DelegateEvent::ExecApprovalDecided {
            request_key: key("e2"),
            decision: ReviewDecision::Approved,
        }),
        DelegateAction::Send(AgentTreeIpcMessage::ExecApprovalAnswer(ExecApprovalAnswer {
            request_key: key("e2"),
            decision: ReviewDecision::Approved,
        }))
    );
    assert_eq!(
        agent_tree::delegate::handle(DelegateEvent::PatchApprovalDecided {
            request_key: key("e3"),
            decision: Some(ReviewDecision::Abort),
        }),
        DelegateAction::Send(AgentTreeIpcMessage::PatchApprovalAnswer(PatchApprovalAnswer {
            request_key: key("e3"),
            decision: ReviewDecision::Abort,
        }))
    );
    assert_eq!(
        agent_tree::delegate::handle(DelegateEvent::PatchApprovalDecided {
            request_key: key("e3"),
            decision: None,
        }),
        DelegateAction::Send(AgentTreeIpcMessage::PatchApprovalAnswer(PatchApprovalAnswer {
            request_key: key("e3"),
            decision: ReviewDecision::Denied,
        }))
    );
}

#[test]
fn worker_result_is_the_output_of_the_tool() {
    let result = WorkerResult {
        summary: "done".to_string(),
        diff: "d\n".to_string(),
        commands: vec![WorkerCommandResult {
            command: "ls".to_string(),
            exit_code: Some(0),
            output: "a\n".to_string(),
        }],
        worktree_path: "/w".to_string(),
    };
    assert_eq!(
        agent_tree::delegate::handle(DelegateEvent::Line(line_of(
            &AgentTreeIpcMessage::WorkerResult(result)
        ))),
        DelegateAction::Finish(ToolOutput {
            content: "{\"commands\":[{\"command\":\"ls\",\"exit_code\":0,\"output\":\"a\\n\"}],\"diff\":\"d\\n\",\"summary\":\"done\",\"worktree_path\":\"/w\"}".to_string(),
            success: Some(true),
        })
    );
}

#[test]
fn result_that_cannot_be_written_is_fatal() {
    assert_eq!(
        result_action(Ok("{}".to_string())),
        DelegateAction::Finish(ToolOutput { content: "{}".to_string(), success: Some(true) })
    );
    assert_eq!(
        result_action(Err(JsonError { message: "no".to_string() })),
        DelegateAction::Fail(FunctionCallError::Fatal(
            "failed to serialize agent_tree_delegate result: no".to_string()
        ))
    );
}

#[test]
fn worker_error_is_told_to_the_model() {
    assert_eq!(
        agent_tree::delegate::handle(DelegateEvent::Line(
            "{\"type\":\"error\",\"message\":\"missing WorkRequest\"}".to_string()
        )),
        DelegateAction::Fail(FunctionCallError::RespondToModel(
            "agent_tree worker error: missing WorkRequest".to_string()
        ))
    );
}

#[test]
fn other_lines_are_passed_over() {
    for line in [
        "{\"type\":\"log\",\"level\":\"info\",\"message\":\"L2 thread started: x\"}",
        "{\"type\":\"work_request\",\"task\":\"t\"}",
        "{\"type\":\"exec_approval_answer\",\"request_key\":{\"thread_id\":\"00000000-0000-0000-0000-000000000007\",\"event_id\":\"e\"},\"decision\":\"denied\"}",
        "{\"type\":\"from_the_future\"}",
    ] {
        assert_eq!(
            agent_tree::delegate::handle(DelegateEvent::Line(line.to_string())),
            DelegateAction::ReadNext
        );
    }
}

#[test]
fn line_that_is_no_message_is_fatal() {
    let DelegateAction::Fail(FunctionCallError::Fatal(message)) =
        agent_tree::delegate::handle(DelegateEvent::Line("oops".to_string()))
    else {
        panic!("expected a fatal failure");
    };
    assert!(message.starts_with("failed to parse worker IPC message: "));
    assert_eq!(
        agent_tree::delegate::handle(DelegateEvent::Line("{\"type\":\"log\"}".to_string())),
        DelegateAction::Fail(FunctionCallError::Fatal(
            "failed to parse worker IPC message: not a well-formed message".to_string()
        ))
    );
}

#[test]
fn worker_that_exits_early_is_reported() {
    let action = agent_tree::delegate::handle(DelegateEvent::Line(
        "{\"type\":\"log\",\"level\":\"info\",\"message\":\"starting\"}".to_string(),
    ));
    assert_eq!(action, DelegateAction::ReadNext);
    let action = agent_tree::delegate::handle(DelegateEvent::OutputClosed {
        status: "exit status: 1".to_string(),
    });
    let DelegateAction::Fail(FunctionCallError::RespondToModel(message)) = action else {
        panic!("expected a failure told to the model");
    };
    assert!(message.contains("agent_tree worker exited unexpectedly"));
    assert_eq!(message, "agent_tree worker exited unexpectedly (status=exit status: 1)");
    assert_eq!(
        unexpected_exit("signal: 9"),
        FunctionCallError::RespondToModel(
            "agent_tree worker exited unexpectedly (status=signal: 9)".to_string()
        )
    );
}

#[test]
fn tool_failures_have_their_messages() {
    assert_eq!(
        respond_to_model("a: ", "b"),
        FunctionCallError::RespondToModel("a: b".to_string())
    );
    assert_eq!(fatal("a: ", "b"), FunctionCallError::Fatal("a: b".to_string()));
    assert_eq!(fatal("a: ", "b").message(), "a: b");
    assert_eq!(respond_to_model("", "x").message(), "x");
}

#[test]
fn handler_takes_function_calls() {
    let handler = AgentTreeHandler;
    assert_eq!(handler.kind(), ToolKind::Function);
    assert!(handler.matches_kind(&ToolPayload::Function { arguments: "{}".to_string() }));
    assert!(!handler.matches_kind(&ToolPayload::Other));
}

#[test]
fn only_applying_a_diff_is_mutating() {
    let handler = AgentTreeHandler;
    assert!(handler.is_mutating("agent_tree_apply_diff"));
    assert!(!handler.is_mutating("agent_tree_delegate"));
    assert!(!handler.is_mutating("agent_tree_apply_diff "));
    assert!(!handler.is_mutating(""));
}

#[test]
fn handler_routes_by_the_name_of_the_tool() {
    let handler = AgentTreeHandler;
    assert_eq!(
        handler.handle(
            "agent_tree_delegate",
            ToolPayload::Function {
                arguments: "{\"task\":\"do thing\",\"tests\":[\"a\"]}".to_string(),
            }
        ),
        Ok(ToolCall::Delegate(AgentTreeDelegateArgs {
            task: "do thing".to_string(),
            context: None,
            tests: vec!["a".to_string()],
            base_ref: None,
        }))
    );
    assert_eq!(
        handler.handle(
            "agent_tree_apply_diff",
            ToolPayload::Function { arguments: "{\"diff\":\"--- a\\n\"}".to_string() }
        ),
        Ok(ToolCall::ApplyDiff(AgentTreeApplyDiffArgs { diff: "--- a\n".to_string() }))
    );
    assert_eq!(
        handler.handle("agent_tree_other", ToolPayload::Function { arguments: "{}".to_string() }),
        Err(FunctionCallError::RespondToModel("unsupported agent_tree tool agent_tree_other".to_string()))
    );
    assert_eq!(
        handler.handle("agent_tree_delegate", ToolPayload::Other),
        Err(FunctionCallError::RespondToModel(
            "agent_tree handler received unsupported payload".to_string()
        ))
    );
}

#[test]
fn arguments_that_cannot_be_read_are_told_to_the_model() {
    let handler = AgentTreeHandler;
    for (tool, arguments) in [
        ("agent_tree_delegate", "{}"),
        ("agent_tree_delegate", "{\"task\":5}"),
        ("agent_tree_delegate", "not json"),
        ("agent_tree_apply_diff", "{}"),
        ("agent_tree_apply_diff", "{\"diff\":null}"),
        ("agent_tree_apply_diff", "["),
    ] {
        let Err(FunctionCallError::RespondToModel(message)) =
            handler.handle(tool, ToolPayload::Function { arguments: arguments.to_string() })
        else {
            panic!("expected a failure told to the model");
        };
        assert!(message.starts_with("failed to parse function arguments: "));
    }
}

#[test]
fn applied_diff_is_reported() {
    assert_eq!(apply_args(), vec!["apply", "--whitespace=nowarn", "-"]);
    assert_eq!(
        agent_tree::apply_diff::handle(Some(0), "out\n", ""),
        Ok(ToolOutput {
            content: "{\"applied\":true,\"stderr\":\"\",\"stdout\":\"out\\n\"}".to_string(),
            success: Some(true),
        })
    );
}

#[test]
fn diff_that_does_not_apply_is_told_to_the_model() {
    assert_eq!(
        agent_tree::apply_diff::handle(Some(1), "", "error: patch failed\n"),
        Err(FunctionCallError::RespondToModel("git apply failed: error: patch failed\n".to_string()))
    );
    assert_eq!(
        agent_tree::apply_diff::handle(None, "", "killed"),
        Err(FunctionCallError::RespondToModel("git apply failed: killed".to_string()))
    );
}

#[test]
fn layers_are_ordered_by_precedence() {
    let file = || "/etc/config.toml".to_string();
    let layers = [
        ConfigLayerSource::Mdm { domain: "d".to_string(), key: "k".to_string() },
        ConfigLayerSource::System { file: file() },
        ConfigLayerSource::User { file: file() },
        ConfigLayerSource::Project { dot_codex_folder: file() },
        ConfigLayerSource::SessionFlags,
        ConfigLayerSource::LegacyManagedConfigTomlFromFile { file: file() },
        ConfigLayerSource::LegacyManagedConfigTomlFromMdm,
    ];
    let ranks: Vec<i16> = layers.iter().map(|layer| layer.precedence()).collect();
    assert_eq!(ranks, vec![0, 10, 20, 25, 30, 40, 50]);
    for i in 0..layers.len() {
        for j in 0..layers.len() {
            assert_eq!(layers[i] < layers[j], i < j);
            assert_eq!(layers[i].partial_cmp(&layers[j]), Some(i.cmp(&j)));
        }
    }
}

#[test]
fn layers_of_one_kind_compare_equal_whatever_they_hold() {
    let a = ConfigLayerSource::User { file: "/a".to_string() };
    let b = ConfigLayerSource::User { file: "/b".to_string() };
    assert_eq!(a.partial_cmp(&b), Some(std::cmp::Ordering::Equal));
    assert!(a != b);
    assert!(!(a < b) && !(b < a));
}

#[test]
fn line_for_the_worker_is_one_line_of_json() {
    let line = worker_line(&AgentTreeIpcMessage::WorkRequest(WorkRequest {
        task: "t".to_string(),
        context: None,
        tests: vec![],
        base_ref: None,
    }));
    assert_eq!(
        line,
        Ok("{\"base_ref\":null,\"context\":null,\"task\":\"t\",\"tests\":[],\"type\":\"work_request\"}\n"
            .to_string())
    );
}
