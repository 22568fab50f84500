use agent_tree::agent::final_message;
use agent_tree::agent::is_final_status;
use agent_tree::agent::AgentStatus;
use agent_tree::agent::Event;
use agent_tree::agent::EventMsg;
use agent_tree::agent::ExecCommandEndEvent;
use agent_tree::agent::Feature;
use agent_tree::agent::Op;
use agent_tree::agent::STATUS_POLL_MILLIS;
use agent_tree::dispatch::ignored_message_log;
use agent_tree::dispatch::on_input_closed;
use agent_tree::dispatch::on_input_line;
use agent_tree::dispatch::unreadable_line_error;
use agent_tree::drain::answer_exec_approval;
use agent_tree::drain::answer_patch_approval;
use agent_tree::drain::answer_user_input;
use agent_tree::drain::handler_failure_log;
use agent_tree::drain::on_event;
use agent_tree::drain::on_handler_failure;
use agent_tree::drain::DrainStep;
use agent_tree::drain::InteractiveKind;
use agent_tree::drain::WorkerShared;
use agent_tree::framing::encode_line;
use agent_tree::framing::DecodeError;
use agent_tree::ident::AgentTreeRequestKey;
use agent_tree::ident::ThreadId;
use agent_tree::ipc::AgentTreeIpcMessage;
use agent_tree::ipc::ApplyPatchApprovalRequestEvent;
use agent_tree::ipc::ExecApprovalAnswer;
use agent_tree::ipc::ExecApprovalRequestEvent;
use agent_tree::ipc::NeedExecApproval;
use agent_tree::ipc::NeedPatchApproval;
use agent_tree::ipc::NeedUserInput;
use agent_tree::ipc::RequestUserInputArgs;
use agent_tree::ipc::RequestUserInputQuestion;
use agent_tree::ipc::RequestUserInputResponse;
use agent_tree::ipc::ReviewDecision;
use agent_tree::ipc::UserInputAnswer;
use agent_tree::ipc::WorkRequest;
use agent_tree::ipc::WorkerCommandResult;
use agent_tree::ipc::WorkerError;
use agent_tree::ipc::WorkerLog;
use agent_tree::ipc::WorkerLogLevel;
use agent_tree::ipc::WorkerResult;
use agent_tree::json::Json;
use agent_tree::json::Member;
use agent_tree::slot::Delivery;
use agent_tree::worker::read_request;
use agent_tree::worker::step;
use agent_tree::worker::WorkerAction;
use agent_tree::worker::WorkerEvent;
use agent_tree::worker::WorkerPhase;

const THREAD: ThreadId = ThreadId { bits: 0xa1a2a3a4b1b2c1c2d1d2d3d4d5d6d7d8 };

fn request() -> WorkRequest {
    WorkRequest {
        task: "do thing".to_string(),
        context: None,
        tests: vec![],
        base_ref: Some("HEAD".to_string()),
    }
}

fn failure(message: &str) -> Vec<WorkerAction> {
    vec![
        WorkerAction::Emit(AgentTreeIpcMessage::Error(WorkerError {
            message: message.to_string(),
        })),
        WorkerAction::Exit { success: false },
    ]
}

fn questions() -> RequestUserInputArgs {
    RequestUserInputArgs {
        questions: vec![RequestUserInputQuestion {
            id: "q1".to_string(),
            header: "Q1".to_string(),
            question: "Pick one".to_string(),
            options: Json::Null,
        }],
    }
}

fn exec_event() -> ExecApprovalRequestEvent {
    ExecApprovalRequestEvent {
        command: vec!["ls".to_string()],
        cwd: "/w".to_string(),
        reason: None,
        proposed_execpolicy_amendment: Json::Null,
    }
}

fn yes() -> RequestUserInputResponse {
    RequestUserInputResponse {
        answers: vec![Member { name: "q1".to_string(), value: Json::string("yes") }],
    }
}

#[test]
fn worker_runs_from_request_to_result() {
    let line = "{\"type\":\"work_request\",\"task\":\"do thing\",\"tests\":[],\"base_ref\":\"HEAD\"}";
    let (phase, actions) = step(WorkerPhase::Start, WorkerEvent::FirstLine(Some(line.to_string())));
    assert_eq!(phase, WorkerPhase::LocatingRepo { request: request() });
    assert_eq!(actions, vec![WorkerAction::LocateRepo]);

    let (phase, actions) = step(phase, WorkerEvent::RepoLocated(Ok("/home/me/repo\n".to_string())));
    assert_eq!(phase, WorkerPhase::MakingWorktree { request: request() });
    assert_eq!(
        actions,
        vec![WorkerAction::MakeWorktree {
            repo_root: "/home/me/repo".to_string(),
            base_ref: "HEAD".to_string(),
        }]
    );

    let (phase, actions) = step(phase, WorkerEvent::WorktreeMade(Ok("/h/wt/1".to_string())));
    assert_eq!(
        phase,
        WorkerPhase::StartingThread { request: request(), worktree_path: "/h/wt/1".to_string() }
    );
    assert_eq!(
        actions,
        vec![WorkerAction::StartThread {
            cwd: "/h/wt/1".to_string(),
            features: vec![Feature::Collab, Feature::ApplyPatchFreeform],
        }]
    );

    let (phase, actions) = step(phase, WorkerEvent::ThreadStarted(Ok(THREAD)));
    assert_eq!(phase, WorkerPhase::Submitting { worktree_path: "/h/wt/1".to_string() });
    assert_eq!(
        actions,
        vec![
            WorkerAction::Emit(AgentTreeIpcMessage::Log(WorkerLog {
                level: WorkerLogLevel::Info,
                message: "L2 thread started: a1a2a3a4-b1b2-c1c2-d1d2-d3d4d5d6d7d8".to_string(),
            })),
            WorkerAction::SpawnInputDispatcher,
            WorkerAction::SpawnDrainSupervisor,
            WorkerAction::Submit(Op::UserInput { text: "do thing".to_string() }),
        ]
    );

    let (phase, actions) = step(phase, WorkerEvent::PromptSubmitted(Ok(())));
    assert_eq!(phase, WorkerPhase::Waiting { worktree_path: "/h/wt/1".to_string() });
    assert_eq!(actions, vec![WorkerAction::PollStatus]);

    let (phase, actions) = step(phase, WorkerEvent::ThreadStatus(AgentStatus::Running));
    assert_eq!(phase, WorkerPhase::Waiting { worktree_path: "/h/wt/1".to_string() });
    assert_eq!(actions, vec![WorkerAction::PollStatus]);

    let (phase, actions) = step(
        phase,
        WorkerEvent::ThreadStatus(AgentStatus::Completed(Some("done".to_string()))),
    );
    assert_eq!(
        phase,
        WorkerPhase::Collecting {
            worktree_path: "/h/wt/1".to_string(),
            summary: "done".to_string(),
        }
    );
    assert_eq!(
        actions,
        vec![
            WorkerAction::CancelDrains,
            WorkerAction::CollectDiff { worktree_path: "/h/wt/1".to_string() },
        ]
    );

    let (phase, actions) = step(
        phase,
        WorkerEvent::DiffCollected { diff: Ok(String::new()), commands: vec![] },
    );
    assert_eq!(phase, WorkerPhase::Done);
    let result = AgentTreeIpcMessage::WorkerResult(WorkerResult {
        summary: "done".to_string(),
        diff: String::new(),
        commands: vec![],
        worktree_path: "/h/wt/1".to_string(),
    });
    assert_eq!(
        encode_line(&result).expect("line"),
        "{\"commands\":[],\"diff\":\"\",\"summary\":\"done\",\"type\":\"worker_result\",\"worktree_path\":\"/h/wt/1\"}\n"
    );
    assert_eq!(actions, vec![WorkerAction::Emit(result), WorkerAction::Exit { success: true }]);

    let (phase, actions) = step(phase, WorkerEvent::ThreadStatus(AgentStatus::Shutdown));
    assert_eq!(phase, WorkerPhase::Done);
    assert_eq!(actions, vec![]);
}

#[test]
fn missing_first_line_fails_the_worker() {
    let (phase, actions) = step(WorkerPhase::Start, WorkerEvent::FirstLine(None));
    assert_eq!(phase, WorkerPhase::Done);
    assert_eq!(actions, failure("missing WorkRequest"));
    assert_eq!(read_request(None), Err("missing WorkRequest".to_string()));
}

#[test]
fn first_line_must_be_a_work_request() {
    let line = "{\"type\":\"log\",\"level\":\"info\",\"message\":\"hi\"}";
    let (phase, actions) = step(WorkerPhase::Start, WorkerEvent::FirstLine(Some(line.to_string())));
    assert_eq!(phase, WorkerPhase::Done);
    assert_eq!(actions.len(), 2);
    let WorkerAction::Emit(AgentTreeIpcMessage::Error(error)) = &actions[0] else {
        panic!("expected an error");
    };
    assert!(error.message.starts_with("expected work_request, got "));
    assert!(error.message.contains("Log"));
    assert_eq!(actions[1], WorkerAction::Exit { success: false });

    let error = read_request(Some("{\"type\":\"future\"}".to_string())).expect_err("error");
    assert_eq!(error, "expected work_request, got future");
}

#[test]
fn first_line_that_is_no_message_fails_the_worker() {
    let error = read_request(Some("{".to_string())).expect_err("error");
    assert!(error.starts_with("parse WorkRequest JSON: "));
    assert!(error.len() > "parse WorkRequest JSON: ".len());
    assert_eq!(
        read_request(Some("{\"type\":\"work_request\"}".to_string())),
        Err("parse WorkRequest JSON: not a well-formed message".to_string())
    );
}

#[test]
fn each_failing_step_writes_one_error_and_ends() {
    let (phase, actions) = step(
        WorkerPhase::LocatingRepo { request: request() },
        WorkerEvent::RepoLocated(Err("not a repository".to_string())),
    );
    assert_eq!(phase, WorkerPhase::Done);
    assert_eq!(actions, failure("resolve git root: not a repository"));

    let (phase, actions) = step(
        WorkerPhase::MakingWorktree { request: request() },
        WorkerEvent::WorktreeMade(Err("disk full".to_string())),
    );
    assert_eq!(phase, WorkerPhase::Done);
    assert_eq!(actions, failure("create worktree: disk full"));

    let (phase, actions) = step(
        WorkerPhase::StartingThread { request: request(), worktree_path: "/w".to_string() },
        WorkerEvent::ThreadStarted(Err("no auth".to_string())),
    );
    assert_eq!(phase, WorkerPhase::Done);
    assert_eq!(actions, failure("start L2 thread: no auth"));

    let (phase, actions) = step(
        WorkerPhase::Submitting { worktree_path: "/w".to_string() },
        WorkerEvent::PromptSubmitted(Err("closed".to_string())),
    );
    assert_eq!(phase, WorkerPhase::Done);
    assert_eq!(actions, failure("submit L2 prompt: closed"));

    let (phase, actions) = step(
        WorkerPhase::Collecting { worktree_path: "/w".to_string(), summary: "s".to_string() },
        WorkerEvent::DiffCollected { diff: Err("git failed".to_string()), commands: vec![] },
    );
    assert_eq!(phase, WorkerPhase::Done);
    assert_eq!(actions, failure("generate worktree diff: git failed"));
}

#[test]
fn report_out_of_turn_changes_nothing() {
    let (phase, actions) = step(WorkerPhase::Start, WorkerEvent::PromptSubmitted(Ok(())));
    assert_eq!(phase, WorkerPhase::Start);
    assert_eq!(actions, vec![]);
    let (phase, actions) = step(
        WorkerPhase::Waiting { worktree_path: "/w".to_string() },
        WorkerEvent::FirstLine(None),
    );
    assert_eq!(phase, WorkerPhase::Waiting { worktree_path: "/w".to_string() });
    assert_eq!(actions, vec![]);
}

#[test]
fn result_carries_the_recorded_commands() {
    let commands = vec![WorkerCommandResult {
        command: "make".to_string(),
        exit_code: Some(2),
        output: "no rule\n".to_string(),
    }];
    let (_, actions) = step(
        WorkerPhase::Collecting { worktree_path: "/w".to_string(), summary: String::new() },
        WorkerEvent::DiffCollected { diff: Ok("d".to_string()), commands: commands.clone() },
    );
    assert_eq!(
        actions[0],
        WorkerAction::Emit(AgentTreeIpcMessage::WorkerResult(WorkerResult {
            summary: String::new(),
            diff: "d".to_string(),
            commands,
            worktree_path: "/w".to_string(),
        }))
    );
}

#[test]
fn final_states_give_the_summary() {
    assert_eq!(
        final_message(AgentStatus::Completed(Some("all good".to_string()))),
        Some("all good".to_string())
    );
    assert_eq!(final_message(AgentStatus::Completed(None)), Some(String::new()));
    assert_eq!(final_message(AgentStatus::Errored("bad".to_string())), Some("bad".to_string()));
    assert_eq!(final_message(AgentStatus::Shutdown), Some("shutdown".to_string()));
    assert_eq!(final_message(AgentStatus::NotFound), Some("not found".to_string()));
    assert_eq!(final_message(AgentStatus::PendingInit), None);
    assert_eq!(final_message(AgentStatus::Running), None);
}

#[test]
fn only_the_four_end_states_are_final() {
    assert!(is_final_status(&AgentStatus::Completed(None)));
    assert!(is_final_status(&AgentStatus::Completed(Some("m".to_string()))));
    assert!(is_final_status(&AgentStatus::Errored("e".to_string())));
    assert!(is_final_status(&AgentStatus::Shutdown));
    assert!(is_final_status(&AgentStatus::NotFound));
    assert!(!is_final_status(&AgentStatus::PendingInit));
    assert!(!is_final_status(&AgentStatus::Running));
    assert_eq!(STATUS_POLL_MILLIS, 200);
}

#[test]
fn user_input_goes_to_the_parent_and_its_answer_back_to_the_thread() {
    let mut shared = WorkerShared::new();
    let event = Event { id: "e1".to_string(), msg: EventMsg::RequestUserInput(questions()) };
    let DrainStep::AskUserInput { need, event_id, mut waiter } =
        on_event(&mut shared, THREAD, event)
    else {
        panic!("expected a question");
    };
    let key = AgentTreeRequestKey::new(THREAD, "e1");
    assert_eq!(
        need,
        AgentTreeIpcMessage::NeedUserInput(NeedUserInput {
            request_key: key.clone(),
            args: questions(),
        })
    );
    assert_eq!(event_id, "e1");
    assert!(shared.pending_user_input.contains(&key));

    let answer = AgentTreeIpcMessage::UserInputAnswer(UserInputAnswer {
        request_key: key.clone(),
        response: yes(),
    });
    let line = encode_line(&answer).expect("line");
    let outcome = on_input_line(&mut shared, line.trim_end());
    assert_eq!(outcome.emit, None);
    assert!(outcome.proceed);
    assert_eq!(outcome.delivery, Some(Delivery::Delivered));
    assert!(!shared.pending_user_input.contains(&key));

    let received = waiter.try_recv().ok();
    assert_eq!(received, Some(yes()));
    assert_eq!(
        answer_user_input(event_id, received),
        Op::UserInputAnswer { id: "e1".to_string(), response: yes() }
    );
}

#[test]
fn approval_without_an_answer_is_denied() {
    let mut shared = WorkerShared::new();
    let event = Event { id: "e7".to_string(), msg: EventMsg::ExecApprovalRequest(exec_event()) };
    let DrainStep::AskExecApproval { need, event_id, mut waiter } =
        on_event(&mut shared, THREAD, event)
    else {
        panic!("expected a question");
    };
    assert_eq!(
        need,
        AgentTreeIpcMessage::NeedExecApproval(NeedExecApproval {
            request_key: AgentTreeRequestKey::new(THREAD, "e7"),
            event: exec_event(),
        })
    );
    drop(shared);
    let received = waiter.try_recv().ok();
    assert_eq!(received, None);
    assert_eq!(
        answer_exec_approval(event_id, received),
        Op::ExecApproval { id: "e7".to_string(), decision: ReviewDecision::Denied }
    );
    assert_eq!(
        answer_exec_approval("e8".to_string(), Some(ReviewDecision::Approved)),
        Op::ExecApproval { id: "e8".to_string(), decision: ReviewDecision::Approved }
    );
    assert_eq!(
        answer_patch_approval("e9".to_string(), None),
        Op::PatchApproval { id: "e9".to_string(), decision: ReviewDecision::Denied }
    );
    assert_eq!(
        answer_user_input("e0".to_string(), None),
        Op::UserInputAnswer {
            id: "e0".to_string(),
            response: RequestUserInputResponse { answers: vec![] },
        }
    );
}

#[test]
fn patch_approval_is_asked_of_the_parent() {
    let mut shared = WorkerShared::new();
    let patch = ApplyPatchApprovalRequestEvent {
        changes: Json::Object(vec![]),
        reason: Some("fix".to_string()),
        grant_root: None,
    };
    let event = Event {
        id: "p1".to_string(),
        msg: EventMsg::ApplyPatchApprovalRequest(patch.clone()),
    };
    let DrainStep::AskPatchApproval { need, event_id, waiter: _ } =
        on_event(&mut shared, THREAD, event)
    else {
        panic!("expected a question");
    };
    assert_eq!(event_id, "p1");
    assert_eq!(
        need,
        AgentTreeIpcMessage::NeedPatchApproval(NeedPatchApproval {
            request_key: AgentTreeRequestKey::new(THREAD, "p1"),
            event: patch,
        })
    );
    assert!(shared.pending_patch_approval.contains(&AgentTreeRequestKey::new(THREAD, "p1")));
    assert!(!shared.pending_exec_approval.contains(&AgentTreeRequestKey::new(THREAD, "p1")));
}

#[test]
fn request_under_an_outstanding_key_is_refused_with_the_default() {
    let mut shared = WorkerShared::new();
    let first = Event { id: "e1".to_string(), msg: EventMsg::ExecApprovalRequest(exec_event()) };
    let second = Event { id: "e1".to_string(), msg: EventMsg::ExecApprovalRequest(exec_event()) };
    let DrainStep::AskExecApproval { mut waiter, .. } = on_event(&mut shared, THREAD, first) else {
        panic!("expected a question");
    };
    let DrainStep::Refused { kind, log, answer } = on_event(&mut shared, THREAD, second) else {
        panic!("expected a refusal");
    };
    assert_eq!(
        log,
        AgentTreeIpcMessage::Log(WorkerLog {
            level: WorkerLogLevel::Error,
            message: "exec approval failed: request key is already outstanding".to_string(),
        })
    );
    assert_eq!(kind, InteractiveKind::ExecApproval);
    assert_eq!(answer, Op::ExecApproval { id: "e1".to_string(), decision: ReviewDecision::Denied });
    assert_eq!(shared.pending_exec_approval.len(), 1);
    assert!(waiter.try_recv().is_err());
}

#[test]
fn ended_commands_are_recorded_in_their_order() {
    let mut shared = WorkerShared::new();
    let ended = |id: &str, words: &[&str], code: i32| Event {
        id: id.to_string(),
        msg: EventMsg::ExecCommandEnd(ExecCommandEndEvent {
            command: words.iter().map(|w| w.to_string()).collect(),
            exit_code: code,
            formatted_output: format!("{} out", id),
        }),
    };
    assert!(matches!(
        on_event(&mut shared, THREAD, ended("a", &["cargo", "build"], 0)),
        DrainStep::Recorded
    ));
    assert!(matches!(
        on_event(&mut shared, ThreadId { bits: 2 }, ended("b", &["false"], 1)),
        DrainStep::Recorded
    ));
    assert!(matches!(
        on_event(&mut shared, THREAD, Event { id: "c".to_string(), msg: EventMsg::Other }),
        DrainStep::Ignored
    ));
    assert_eq!(
        shared.commands,
        vec![
            WorkerCommandResult {
                command: "cargo build".to_string(),
                exit_code: Some(0),
                output: "a out".to_string(),
            },
            WorkerCommandResult {
                command: "false".to_string(),
                exit_code: Some(1),
                output: "b out".to_string(),
            },
        ]
    );
}

#[test]
fn handler_failures_are_logged_by_kind() {
    let log = |kind, detail: &str| match handler_failure_log(kind, detail) {
        AgentTreeIpcMessage::Log(log) => (log.level, log.message),
        other => panic!("unexpected {:?}", other),
    };
    assert_eq!(
        log(InteractiveKind::UserInput, "broken pipe"),
        (WorkerLogLevel::Error, "request_user_input failed: broken pipe".to_string())
    );
    assert_eq!(
        log(InteractiveKind::ExecApproval, "x"),
        (WorkerLogLevel::Error, "exec approval failed: x".to_string())
    );
    assert_eq!(
        log(InteractiveKind::PatchApproval, ""),
        (WorkerLogLevel::Error, "patch approval failed: ".to_string())
    );
}

#[test]
fn input_lines_are_dispatched_by_variant() {
    let mut shared = WorkerShared::new();

    let outcome = on_input_line(&mut shared, "{\"type\":\"log\",\"level\":\"debug\",\"message\":\"m\"}");
    assert_eq!((outcome.emit, outcome.proceed, outcome.delivery), (None, true, None));

    let outcome = on_input_line(&mut shared, "{\"type\":\"error\",\"message\":\"parent gone\"}");
    assert_eq!(
        outcome.emit,
        Some(AgentTreeIpcMessage::Error(WorkerError { message: "parent gone".to_string() }))
    );
    assert!(!outcome.proceed);

    let outcome = on_input_line(&mut shared, "{\"type\":\"work_request\",\"task\":\"again\"}");
    assert!(outcome.proceed);
    let Some(AgentTreeIpcMessage::Log(log)) = outcome.emit else {
        panic!("expected a warning");
    };
    assert_eq!(log.level, WorkerLogLevel::Warn);
    assert!(log.message.starts_with("ignored IPC message: "));
    assert!(log.message.contains("again"));

    let outcome = on_input_line(&mut shared, "{\"type\":\"ping\"}");
    assert!(outcome.proceed);
    assert_eq!(
        outcome.emit,
        Some(AgentTreeIpcMessage::Log(WorkerLog {
            level: WorkerLogLevel::Warn,
            message: "ignored IPC message: ping".to_string(),
        }))
    );

    let stray = AgentTreeIpcMessage::ExecApprovalAnswer(ExecApprovalAnswer {
        request_key: AgentTreeRequestKey::new(THREAD, "gone"),
        decision: ReviewDecision::Approved,
    });
    let line = encode_line(&stray).expect("line");
    let outcome = on_input_line(&mut shared, line.trim_end());
    assert_eq!(
        (outcome.emit, outcome.proceed, outcome.delivery),
        (None, true, Some(Delivery::Unmatched))
    );
}

#[test]
fn input_line_that_is_no_message_ends_the_reading() {
    let mut shared = WorkerShared::new();
    let outcome = on_input_line(&mut shared, "not json");
    assert!(!outcome.proceed);
    assert_eq!(outcome.delivery, None);
    let Some(AgentTreeIpcMessage::Error(error)) = outcome.emit else {
        panic!("expected an error");
    };
    assert!(error.message.starts_with("parse IPC JSON: "));

    let outcome = on_input_line(&mut shared, "{}");
    assert_eq!(
        outcome.emit,
        Some(AgentTreeIpcMessage::Error(WorkerError {
            message: "parse IPC JSON: not a well-formed message".to_string(),
        }))
    );
    assert!(!outcome.proceed);
}

#[test]
fn log_lines_for_the_reader_have_their_wording() {
    assert_eq!(
        ignored_message_log("x"),
        AgentTreeIpcMessage::Log(WorkerLog {
            level: WorkerLogLevel::Warn,
            message: "ignored IPC message: x".to_string(),
        })
    );
    assert_eq!(
        unreadable_line_error("reading", &DecodeError::Syntax("eof".to_string())),
        AgentTreeIpcMessage::Error(WorkerError { message: "reading: eof".to_string() })
    );
    assert_eq!(
        unreadable_line_error("reading", &DecodeError::Malformed),
        AgentTreeIpcMessage::Error(WorkerError {
            message: "reading: not a well-formed message".to_string(),
        })
    );
}

#[test]
fn request_whose_question_cannot_be_sent_is_given_up() {
    let mut shared = WorkerShared::new();
    let event = Event { id: "e1".to_string(), msg: EventMsg::RequestUserInput(questions()) };
    let DrainStep::AskUserInput { mut waiter, .. } = on_event(&mut shared, THREAD, event) else {
        panic!("expected a question");
    };
    let key = AgentTreeRequestKey::new(THREAD, "e1");
    assert!(!shared.abandon(InteractiveKind::ExecApproval, &key));
    assert!(shared.pending_user_input.contains(&key));
    assert!(shared.abandon(InteractiveKind::UserInput, &key));
    assert!(!shared.pending_user_input.contains(&key));
    assert_eq!(
        answer_user_input("e1".to_string(), waiter.try_recv().ok()),
        Op::UserInputAnswer {
            id: "e1".to_string(),
            response: RequestUserInputResponse { answers: vec![] },
        }
    );
}

#[test]
fn end_of_input_answers_outstanding_requests_with_the_default() {
    let mut shared = WorkerShared::new();
    assert!(!shared.input_closed);
    let exec = Event { id: "k".to_string(), msg: EventMsg::ExecApprovalRequest(exec_event()) };
    let DrainStep::AskExecApproval { need, event_id, waiter: mut exec_waiter } =
        on_event(&mut shared, THREAD, exec)
    else {
        panic!("expected a question");
    };
    assert!(encode_line(&need).expect("line").contains("\"type\":\"need_exec_approval\""));
    let input = Event { id: "q".to_string(), msg: EventMsg::RequestUserInput(questions()) };
    let DrainStep::AskUserInput { waiter: mut input_waiter, .. } =
        on_event(&mut shared, THREAD, input)
    else {
        panic!("expected a question");
    };
    let record = Event {
        id: "c".to_string(),
        msg: EventMsg::ExecCommandEnd(ExecCommandEndEvent {
            command: vec!["ls".to_string()],
            exit_code: 0,
            formatted_output: String::new(),
        }),
    };
    on_event(&mut shared, THREAD, record);
    assert!(exec_waiter.try_recv().is_err());

    on_input_closed(&mut shared);

    assert!(shared.input_closed);
    assert_eq!(shared.pending_user_input.len(), 0);
    assert_eq!(shared.pending_exec_approval.len(), 0);
    assert_eq!(shared.pending_patch_approval.len(), 0);
    assert_eq!(shared.commands.len(), 1);
    assert_eq!(
        answer_exec_approval(event_id, exec_waiter.try_recv().ok()),
        Op::ExecApproval { id: "k".to_string(), decision: ReviewDecision::default() }
    );
    assert_eq!(
        answer_user_input("q".to_string(), input_waiter.try_recv().ok()),
        Op::UserInputAnswer {
            id: "q".to_string(),
            response: RequestUserInputResponse { answers: vec![] },
        }
    );
}

#[test]
fn request_after_the_end_of_input_is_answered_at_once() {
    let mut shared = WorkerShared::new();
    on_input_closed(&mut shared);
    let event = Event { id: "e1".to_string(), msg: EventMsg::ExecApprovalRequest(exec_event()) };
    let DrainStep::Refused { kind, log, answer } = on_event(&mut shared, THREAD, event) else {
        panic!("expected a refusal");
    };
    assert_eq!(kind, InteractiveKind::ExecApproval);
    assert_eq!(
        log,
        AgentTreeIpcMessage::Log(WorkerLog {
            level: WorkerLogLevel::Error,
            message: "exec approval failed: the input is closed".to_string(),
        })
    );
    assert_eq!(answer, Op::ExecApproval { id: "e1".to_string(), decision: ReviewDecision::Denied });
    assert_eq!(shared.pending_exec_approval.len(), 0);

    let event = Event { id: "e2".to_string(), msg: EventMsg::RequestUserInput(questions()) };
    let DrainStep::Refused { kind, log, answer } = on_event(&mut shared, THREAD, event) else {
        panic!("expected a refusal");
    };
    assert_eq!(kind, InteractiveKind::UserInput);
    assert_eq!(
        log,
        AgentTreeIpcMessage::Log(WorkerLog {
            level: WorkerLogLevel::Error,
            message: "request_user_input failed: the input is closed".to_string(),
        })
    );
    assert_eq!(
        answer,
        Op::UserInputAnswer {
            id: "e2".to_string(),
            response: RequestUserInputResponse { answers: vec![] },
        }
    );
}

#[test]
fn line_that_ends_the_reading_ends_the_input() {
    for line in ["not json", "{\"type\":\"error\",\"message\":\"gone\"}"] {
        let mut shared = WorkerShared::new();
        let event = Event { id: "p".to_string(), msg: EventMsg::ExecApprovalRequest(exec_event()) };
        let DrainStep::AskExecApproval { mut waiter, .. } = on_event(&mut shared, THREAD, event)
        else {
            panic!("expected a question");
        };
        let outcome = on_input_line(&mut shared, line);
        assert!(!outcome.proceed);
        assert!(shared.input_closed);
        assert_eq!(shared.pending_exec_approval.len(), 0);
        assert_eq!(
            answer_exec_approval("p".to_string(), waiter.try_recv().ok()),
            Op::ExecApproval { id: "p".to_string(), decision: ReviewDecision::Denied }
        );
    }
    let mut shared = WorkerShared::new();
    let outcome = on_input_line(&mut shared, "{\"type\":\"log\",\"level\":\"info\",\"message\":\"m\"}");
    assert!(outcome.proceed);
    assert!(!shared.input_closed);
}

#[test]
fn failed_step_gives_up_the_request_it_entered() {
    let mut shared = WorkerShared::new();
    let event = Event { id: "e1".to_string(), msg: EventMsg::ExecApprovalRequest(exec_event()) };
    let step = on_event(&mut shared, THREAD, event);
    let key = AgentTreeRequestKey::new(THREAD, "e1");
    assert_eq!(step.entered_key(), Some(key.clone()));
    let DrainStep::AskExecApproval { mut waiter, .. } = step else {
        panic!("expected a question");
    };
    let log = on_handler_failure(
        &mut shared,
        InteractiveKind::ExecApproval,
        Some(&key),
        "broken pipe",
    );
    assert_eq!(
        log,
        AgentTreeIpcMessage::Log(WorkerLog {
            level: WorkerLogLevel::Error,
            message: "exec approval failed: broken pipe".to_string(),
        })
    );
    assert!(!shared.pending_exec_approval.contains(&key));
    assert!(waiter.try_recv().is_err());

    let again = Event { id: "e2".to_string(), msg: EventMsg::ExecApprovalRequest(exec_event()) };
    let DrainStep::AskExecApproval { waiter: mut kept, .. } = on_event(&mut shared, THREAD, again)
    else {
        panic!("expected a question");
    };
    let log = on_handler_failure(&mut shared, InteractiveKind::PatchApproval, None, "x");
    assert_eq!(
        log,
        AgentTreeIpcMessage::Log(WorkerLog {
            level: WorkerLogLevel::Error,
            message: "patch approval failed: x".to_string(),
        })
    );
    assert!(shared.pending_exec_approval.contains(&AgentTreeRequestKey::new(THREAD, "e2")));
    assert_eq!(
        kept.try_recv().err(),
        Some(tokio::sync::oneshot::error::TryRecvError::Empty)
    );
}

#[test]
fn only_a_step_that_asks_has_entered_a_request() {
    let mut shared = WorkerShared::new();
    let ended = Event {
        id: "c".to_string(),
        msg: EventMsg::ExecCommandEnd(ExecCommandEndEvent {
            command: vec![],
            exit_code: 0,
            formatted_output: String::new(),
        }),
    };
    assert_eq!(on_event(&mut shared, THREAD, ended).entered_key(), None);
    let other = Event { id: "o".to_string(), msg: EventMsg::Other };
    assert_eq!(on_event(&mut shared, THREAD, other).entered_key(), None);
    let first = Event { id: "e".to_string(), msg: EventMsg::RequestUserInput(questions()) };
    let second = Event { id: "e".to_string(), msg: EventMsg::RequestUserInput(questions()) };
    let asked = on_event(&mut shared, THREAD, first);
    assert_eq!(asked.entered_key(), Some(AgentTreeRequestKey::new(THREAD, "e")));
    assert_eq!(on_event(&mut shared, THREAD, second).entered_key(), None);
}
