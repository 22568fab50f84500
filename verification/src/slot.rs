//! Single-shot slots: the way an answer reaches the task that waits for it.

use crate::ident::AgentTreeRequestKey;
use crate::ipc::ExecApprovalAnswer;
use crate::ipc::PatchApprovalAnswer;
use crate::ipc::RequestUserInputResponse;
use crate::ipc::ReviewDecision;
use crate::ipc::ReviewDecisionView;
use crate::ipc::UserInputAnswer;
use crate::json::JsonView;
use crate::registry::PendingRegistry;
use tokio::sync::oneshot::Receiver;
use tokio::sync::oneshot::Sender;
use vstd::prelude::*;

verus! {

/// `tokio::sync::oneshot::Sender`: the slot, which takes one value. Nothing
/// is known of it here.
#[verifier::external_type_specification]
#[verifier::external_body]
#[verifier::reject_recursive_types(T)]
pub struct ExSender<T>(Sender<T>);

/// `tokio::sync::oneshot::Receiver`: the end at which a slot's value is
/// awaited. Nothing is known of it here.
#[verifier::external_type_specification]
#[verifier::external_body]
#[verifier::reject_recursive_types(T)]
pub struct ExReceiver<T>(Receiver<T>);

/// `tokio::sync::oneshot::error::RecvError`: what awaiting gives where the
/// slot was dropped unfilled. Nothing here names it, but `Receiver` is a
/// future of it, and Verus takes `Receiver` only with this type declared.
#[verifier::external_type_specification]
#[verifier::external_body]
pub struct ExRecvError(tokio::sync::oneshot::error::RecvError);

/// `tokio::sync::oneshot::channel`: a new slot and the end at which its value
/// is awaited.
#[verifier::external_body]
fn open_slot<T>() -> (Sender<T>, Receiver<T>) {
    tokio::sync::oneshot::channel()
}

/// `Sender::send`, which uses the slot up. It tells whether the awaiting end
/// was still there; nothing is known of that beforehand.
#[verifier::external_body]
fn fill_slot<T>(slot: Sender<T>, value: T) -> bool {
    slot.send(value).is_ok()
}

/// What became of an answer.
#[derive(Debug, Clone, Copy, PartialEq, Eq, Structural)]
pub enum Delivery {
    /// It was put into the slot of its request.
    Delivered,
    /// Its request was outstanding, but nobody waits for the answer any more.
    Abandoned,
    /// No request is outstanding under its key: it came late or twice.
    Unmatched,
}

/// Enters a request under `key` and hands back the end at which its answer is
/// awaited.
pub fn register<T>(registry: &mut PendingRegistry<Sender<T>>, key: AgentTreeRequestKey) -> (waiter:
    Receiver<T>)
    requires
        old(registry).well_formed(),
        !old(registry)@.contains_key(key@),
    ensures
        final(registry).well_formed(),
        final(registry)@.dom() == old(registry)@.dom().insert(key@),
        forall|k| old(registry)@.contains_key(k) ==> final(registry)@[k] == old(registry)@[k],
{
    let (slot, waiter) = open_slot();
    registry.insert(key, slot);
    waiter
}

/// Hands an answer to the request under `key`, which is thereby no longer
/// outstanding. An answer to a key under which nothing is outstanding is
/// dropped and changes nothing.
pub fn deliver<T>(
    registry: &mut PendingRegistry<Sender<T>>,
    key: &AgentTreeRequestKey,
    value: T,
) -> (outcome: Delivery)
    requires
        old(registry).well_formed(),
    ensures
        final(registry).well_formed(),
        final(registry)@ == old(registry)@.remove(key@),
        outcome is Unmatched <==> !old(registry)@.contains_key(key@),
        outcome is Unmatched ==> final(registry)@ == old(registry)@,
{
    match registry.take(key) {
        Some(slot) => if fill_slot(slot, value) {
            Delivery::Delivered
        } else {
            Delivery::Abandoned
        },
        None => {
            proof {
                assert(old(registry)@.remove(key@) =~= old(registry)@);
            }
            Delivery::Unmatched
        },
    }
}

/// Gives up the request under `key`: it is no longer outstanding, and its
/// slot is dropped unfilled, so that the task that waits for the answer goes
/// on with the default. Tells whether a request was outstanding under the
/// key.
pub fn abandon<T>(registry: &mut PendingRegistry<Sender<T>>, key: &AgentTreeRequestKey) -> (found:
    bool)
    requires
        old(registry).well_formed(),
    ensures
        final(registry).well_formed(),
        final(registry)@ == old(registry)@.remove(key@),
        found == old(registry)@.contains_key(key@),
{
    match registry.take(key) {
        Some(_) => true,
        None => false,
    }
}

/// Hands the user's answers to the request they answer.
pub fn deliver_user_input_answer(
    pending: &mut PendingRegistry<Sender<RequestUserInputResponse>>,
    answer: UserInputAnswer,
) -> (outcome: Delivery)
    requires
        old(pending).well_formed(),
    ensures
        final(pending).well_formed(),
        final(pending)@ == old(pending)@.remove(answer.request_key@),
        outcome is Unmatched <==> !old(pending)@.contains_key(answer.request_key@),
{
    deliver(pending, &answer.request_key, answer.response)
}

/// Hands the decision on a command to the request it answers.
pub fn deliver_exec_approval_answer(
    pending: &mut PendingRegistry<Sender<ReviewDecision>>,
    answer: ExecApprovalAnswer,
) -> (outcome: Delivery)
    requires
        old(pending).well_formed(),
    ensures
        final(pending).well_formed(),
        final(pending)@ == old(pending)@.remove(answer.request_key@),
        outcome is Unmatched <==> !old(pending)@.contains_key(answer.request_key@),
{
    deliver(pending, &answer.request_key, answer.decision)
}

/// Hands the decision on a patch to the request it answers.
pub fn deliver_patch_approval_answer(
    pending: &mut PendingRegistry<Sender<ReviewDecision>>,
    answer: PatchApprovalAnswer,
) -> (outcome: Delivery)
    requires
        old(pending).well_formed(),
    ensures
        final(pending).well_formed(),
        final(pending)@ == old(pending)@.remove(answer.request_key@),
        outcome is Unmatched <==> !old(pending)@.contains_key(answer.request_key@),
{
    deliver(pending, &answer.request_key, answer.decision)
}

/// What the waiting task goes on with: the answers it received, or no answers
/// where its slot was dropped unfilled.
pub fn response_or_empty(received: Option<RequestUserInputResponse>) -> (response:
    RequestUserInputResponse)
    ensures
        response@.answers == match received {
            Some(r) => r@.answers,
            None => Map::<Seq<char>, JsonView>::empty(),
        },
{
    match received {
        Some(response) => response,
        None => RequestUserInputResponse::empty(),
    }
}

/// What the waiting task goes on with: the decision it received, or the
/// default decision where its slot was dropped unfilled.
pub fn decision_or_default(received: Option<ReviewDecision>) -> (decision: ReviewDecision)
    ensures
        decision@ == match received {
            Some(d) => d@,
            None => ReviewDecisionView::Denied,
        },
{
    match received {
        Some(decision) => decision,
        None => ReviewDecision::default(),
    }
}

} // verus!
