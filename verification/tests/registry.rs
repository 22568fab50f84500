use agent_tree::ident::AgentTreeRequestKey;
use agent_tree::ident::ThreadId;
use agent_tree::ipc::ExecApprovalAnswer;
use agent_tree::ipc::PatchApprovalAnswer;
use agent_tree::ipc::RequestUserInputResponse;
use agent_tree::ipc::ReviewDecision;
use agent_tree::ipc::UserInputAnswer;
use agent_tree::json::Json;
use agent_tree::json::Member;
use agent_tree::registry::PendingRegistry;
use agent_tree::slot::abandon;
use agent_tree::slot::decision_or_default;
use agent_tree::slot::deliver;
use agent_tree::slot::deliver_exec_approval_answer;
use agent_tree::slot::deliver_patch_approval_answer;
use agent_tree::slot::deliver_user_input_answer;
use agent_tree::slot::register;
use agent_tree::slot::response_or_empty;
use agent_tree::slot::Delivery;
use tokio::sync::oneshot::Sender;

fn key(thread: u128, event_id: &str) -> AgentTreeRequestKey {
    AgentTreeRequestKey::new(ThreadId { bits: thread }, event_id)
}

#[test]
fn new_registry_is_empty() {
    let registry: PendingRegistry<u32> = PendingRegistry::new();
    assert_eq!(registry.len(), 0);
    assert!(!registry.contains(&key(1, "e1")));
}

#[test]
fn taking_gives_back_what_was_entered() {
    let mut registry: PendingRegistry<u32> = PendingRegistry::new();
    registry.insert(key(1, "e1"), 11);
    registry.insert(key(1, "e2"), 12);
    registry.insert(key(2, "e1"), 21);
    assert_eq!(registry.len(), 3);
    assert!(registry.contains(&key(1, "e2")));
    assert_eq!(registry.take(&key(1, "e2")), Some(12));
    assert_eq!(registry.len(), 2);
    assert!(!registry.contains(&key(1, "e2")));
    assert_eq!(registry.take(&key(2, "e1")), Some(21));
    assert_eq!(registry.take(&key(1, "e1")), Some(11));
    assert_eq!(registry.len(), 0);
}

#[test]
fn taking_an_absent_key_changes_nothing() {
    let mut registry: PendingRegistry<u32> = PendingRegistry::new();
    registry.insert(key(1, "e1"), 11);
    assert_eq!(registry.take(&key(1, "other")), None);
    assert_eq!(registry.take(&key(9, "e1")), None);
    assert_eq!(registry.len(), 1);
    assert_eq!(registry.take(&key(1, "e1")), Some(11));
}

#[test]
fn taking_twice_finds_nothing_the_second_time() {
    let mut registry: PendingRegistry<u32> = PendingRegistry::new();
    registry.insert(key(1, "e1"), 11);
    assert_eq!(registry.take(&key(1, "e1")), Some(11));
    assert_eq!(registry.take(&key(1, "e1")), None);
    assert_eq!(registry.len(), 0);
}

#[test]
fn delivered_value_reaches_the_waiter() {
    let mut registry: PendingRegistry<Sender<u32>> = PendingRegistry::new();
    let mut first = register(&mut registry, key(1, "e1"));
    let mut second = register(&mut registry, key(1, "e2"));
    assert_eq!(deliver(&mut registry, &key(1, "e2"), 7), Delivery::Delivered);
    assert_eq!(second.try_recv(), Ok(7));
    assert!(first.try_recv().is_err());
    assert_eq!(deliver(&mut registry, &key(1, "e1"), 8), Delivery::Delivered);
    assert_eq!(first.try_recv(), Ok(8));
    assert_eq!(registry.len(), 0);
}

#[test]
fn delivery_for_an_absent_key_is_dropped() {
    let mut registry: PendingRegistry<Sender<u32>> = PendingRegistry::new();
    let mut waiter = register(&mut registry, key(1, "e1"));
    assert_eq!(deliver(&mut registry, &key(1, "zz"), 7), Delivery::Unmatched);
    assert_eq!(registry.len(), 1);
    assert!(waiter.try_recv().is_err());
}

#[test]
fn second_delivery_has_no_effect() {
    let mut registry: PendingRegistry<Sender<u32>> = PendingRegistry::new();
    let mut waiter = register(&mut registry, key(1, "e1"));
    assert_eq!(deliver(&mut registry, &key(1, "e1"), 7), Delivery::Delivered);
    assert_eq!(deliver(&mut registry, &key(1, "e1"), 9), Delivery::Unmatched);
    assert_eq!(waiter.try_recv(), Ok(7));
}

#[test]
fn delivery_to_a_waiter_that_left_is_abandoned() {
    let mut registry: PendingRegistry<Sender<u32>> = PendingRegistry::new();
    let waiter = register(&mut registry, key(1, "e1"));
    drop(waiter);
    assert_eq!(deliver(&mut registry, &key(1, "e1"), 7), Delivery::Abandoned);
    assert_eq!(registry.len(), 0);
}

#[test]
fn dropped_slot_gives_the_waiter_the_default() {
    let mut registry: PendingRegistry<Sender<ReviewDecision>> = PendingRegistry::new();
    let mut waiter = register(&mut registry, key(1, "e1"));
    drop(registry);
    let received = waiter.try_recv().ok();
    assert_eq!(received, None);
    assert_eq!(decision_or_default(received), ReviewDecision::Denied);
    assert_eq!(decision_or_default(Some(ReviewDecision::Approved)), ReviewDecision::Approved);
}

#[test]
fn missing_response_is_the_empty_response() {
    assert_eq!(response_or_empty(None), RequestUserInputResponse { answers: vec![] });
    assert_eq!(RequestUserInputResponse::empty(), RequestUserInputResponse { answers: vec![] });
    let given = RequestUserInputResponse {
        answers: vec![Member { name: "q1".to_string(), value: Json::string("yes") }],
    };
    assert_eq!(response_or_empty(Some(given.clone())), given);
}

#[test]
fn answers_are_delivered_by_their_keys() {
    let mut responses: PendingRegistry<Sender<RequestUserInputResponse>> = PendingRegistry::new();
    let mut decisions: PendingRegistry<Sender<ReviewDecision>> = PendingRegistry::new();
    let mut patches: PendingRegistry<Sender<ReviewDecision>> = PendingRegistry::new();
    let mut response_waiter = register(&mut responses, key(1, "e1"));
    let mut decision_waiter = register(&mut decisions, key(1, "e2"));
    let mut patch_waiter = register(&mut patches, key(1, "e3"));

    let response = RequestUserInputResponse {
        answers: vec![Member { name: "q1".to_string(), value: Json::string("yes") }],
    };
    assert_eq!(
        deliver_user_input_answer(
            &mut responses,
            UserInputAnswer { request_key: key(1, "e1"), response: response.clone() }
        ),
        Delivery::Delivered
    );
    assert_eq!(response_waiter.try_recv(), Ok(response));

    assert_eq!(
        deliver_exec_approval_answer(
            &mut decisions,
            ExecApprovalAnswer { request_key: key(1, "e2"), decision: ReviewDecision::Abort }
        ),
        Delivery::Delivered
    );
    assert_eq!(decision_waiter.try_recv(), Ok(ReviewDecision::Abort));

    assert_eq!(
        deliver_patch_approval_answer(
            &mut patches,
            PatchApprovalAnswer { request_key: key(1, "e2"), decision: ReviewDecision::Approved }
        ),
        Delivery::Unmatched
    );
    assert!(patch_waiter.try_recv().is_err());
}

#[test]
fn abandoned_request_gives_the_waiter_the_default() {
    let mut registry: PendingRegistry<Sender<ReviewDecision>> = PendingRegistry::new();
    let mut waiter = register(&mut registry, key(1, "e1"));
    assert!(abandon(&mut registry, &key(1, "e1")));
    assert!(!abandon(&mut registry, &key(1, "e1")));
    assert_eq!(registry.len(), 0);
    assert_eq!(decision_or_default(waiter.try_recv().ok()), ReviewDecision::Denied);
    assert_eq!(
        deliver(&mut registry, &key(1, "e1"), ReviewDecision::Approved),
        Delivery::Unmatched
    );
}

#[test]
fn clearing_takes_out_every_request_and_drops_the_slots() {
    let mut registry: PendingRegistry<Sender<u32>> = PendingRegistry::new();
    let mut first = register(&mut registry, key(1, "e1"));
    let mut second = register(&mut registry, key(2, "e1"));
    assert_eq!(
        first.try_recv().err(),
        Some(tokio::sync::oneshot::error::TryRecvError::Empty)
    );
    registry.clear();
    assert_eq!(registry.len(), 0);
    assert!(!registry.contains(&key(1, "e1")));
    assert_eq!(
        first.try_recv().err(),
        Some(tokio::sync::oneshot::error::TryRecvError::Closed)
    );
    assert_eq!(
        second.try_recv().err(),
        Some(tokio::sync::oneshot::error::TryRecvError::Closed)
    );
    assert_eq!(deliver(&mut registry, &key(1, "e1"), 5), Delivery::Unmatched);
}
