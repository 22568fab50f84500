//! What a worker does with its input after the first line: it hands answers
//! to the requests they answer, and gives up what is outstanding when the
//! input ends.

use crate::drain::WorkerShared;
use crate::framing::DecodeError;
use crate::framing::decode_line;
use crate::framing::line_meaning;
use crate::ident::RequestKeyView;
use crate::ipc::AgentTreeIpcMessage;
use crate::ipc::IpcMessageView;
use crate::ipc::RequestUserInputResponse;
use crate::ipc::ReviewDecision;
use crate::ipc::WorkerError;
use crate::ipc::WorkerErrorView;
use crate::ipc::WorkerLog;
use crate::ipc::WorkerLogLevel;
use crate::ipc::WorkerLogView;
use crate::json::json_parse;
use crate::slot::Delivery;
use crate::slot::deliver_exec_approval_answer;
use crate::slot::deliver_patch_approval_answer;
use crate::slot::deliver_user_input_answer;
use crate::wire::Decoded;
use crate::wire::DecodedView;
use tokio::sync::oneshot::Sender;
use vstd::prelude::*;
use vstd::string::*;

verus! {

/// What `Debug` writes for a message; it serves the log only.
#[verifier::external_body]
pub(crate) fn debug_text(message: &AgentTreeIpcMessage) -> String {
    format!("{:?}", message)
}

/// The log line for a message that the reader has no use for.
pub fn ignored_message_log(detail: &str) -> (message: AgentTreeIpcMessage)
    ensures
        message@ == IpcMessageView::Log(
            WorkerLogView {
                level: WorkerLogLevel::Warn,
                message: "ignored IPC message: "@ + detail@,
            },
        ),
{
    let mut text = String::from_str("ignored IPC message: ");
    text.append(detail);
    AgentTreeIpcMessage::Log(WorkerLog { level: WorkerLogLevel::Warn, message: text })
}

/// What is said of a line that is JSON but no message.
pub open spec fn malformed_detail() -> Seq<char> {
    "not a well-formed message"@
}

/// What is said of a line that is no message. `context` says what was being
/// read.
pub open spec fn unreadable_line_text(context: Seq<char>, error: DecodeError) -> Seq<char> {
    context + ": "@ + match error {
        DecodeError::Syntax(detail) => detail@,
        DecodeError::Malformed => malformed_detail(),
    }
}

/// Says why a line is no message.
pub fn describe_unreadable_line(context: &str, error: &DecodeError) -> (text: String)
    ensures
        text@ == unreadable_line_text(context@, *error),
{
    let mut text = String::from_str(context);
    text.append(": ");
    match error {
        DecodeError::Syntax(detail) => {
            text.append(detail.as_str());
        },
        DecodeError::Malformed => {
            text.append("not a well-formed message");
        },
    }
    text
}

/// The error for a line that is no message.
pub fn unreadable_line_error(context: &str, error: &DecodeError) -> (message: AgentTreeIpcMessage)
    ensures
        message@ == IpcMessageView::Error(
            WorkerErrorView { message: unreadable_line_text(context@, *error) },
        ),
{
    AgentTreeIpcMessage::Error(WorkerError { message: describe_unreadable_line(context, error) })
}

/// What became of one line of input.
pub struct InputOutcome {
    /// The message to write out, if any.
    pub emit: Option<AgentTreeIpcMessage>,
    /// Whether further lines are to be read.
    pub proceed: bool,
    /// What became of the answer, where the line was one.
    pub delivery: Option<Delivery>,
}

/// Whether nothing outstanding changed.
pub open spec fn same_pending(before: WorkerShared, after: WorkerShared) -> bool {
    &&& after.pending_user_input == before.pending_user_input
    &&& after.pending_exec_approval == before.pending_exec_approval
    &&& after.pending_patch_approval == before.pending_patch_approval
}

/// Whether the input is known to have ended and nothing is outstanding any
/// more.
pub open spec fn input_ended(shared: WorkerShared) -> bool {
    &&& shared.input_closed
    &&& shared.pending_user_input@ == Map::<
        RequestKeyView,
        Sender<RequestUserInputResponse>,
    >::empty()
    &&& shared.pending_exec_approval@ == Map::<RequestKeyView, Sender<ReviewDecision>>::empty()
    &&& shared.pending_patch_approval@ == Map::<RequestKeyView, Sender<ReviewDecision>>::empty()
}

/// Takes the end of the input. No answer can arrive any more, so every
/// outstanding request is given up: its slot is dropped unfilled, and the
/// task that waits for the answer goes on with the default. Requests raised
/// from now on are answered with the default at once.
pub fn on_input_closed(shared: &mut WorkerShared)
    requires
        old(shared).well_formed(),
    ensures
        final(shared).well_formed(),
        input_ended(*final(shared)),
        final(shared).commands == old(shared).commands,
{
    shared.pending_user_input.clear();
    shared.pending_exec_approval.clear();
    shared.pending_patch_approval.clear();
    shared.input_closed = true;
}

/// Whether a message is a warning that begins with the words for a message
/// passed over.
pub open spec fn is_ignored_warning(message: IpcMessageView) -> bool {
    &&& message matches IpcMessageView::Log(log)
    &&& log.level == WorkerLogLevel::Warn
    &&& "ignored IPC message: "@.is_prefix_of(log.message)
}

/// Takes one line of input.
///
/// An answer is handed to the request under its key, which is thereby no
/// longer outstanding; an answer to a key under which nothing is outstanding
/// is dropped. A log line is passed over. An error is written out again and
/// ends the reading. So does a line that is no message, which is fatal. Any
/// other message is passed over with a warning. Where the reading ends, the
/// input is taken as ended.
pub fn on_input_line(shared: &mut WorkerShared, line: &str) -> (outcome: InputOutcome)
    requires
        old(shared).well_formed(),
    ensures
        final(shared).well_formed(),
        final(shared).commands == old(shared).commands,
        outcome.proceed ==> final(shared).input_closed == old(shared).input_closed,
        !outcome.proceed ==> input_ended(*final(shared)),
        match line_meaning(line@) {
            None => {
                &&& !outcome.proceed
                &&& outcome.delivery is None
                &&& outcome.emit matches Some(message)
                &&& message@ is Error
                &&& "parse IPC JSON: "@.is_prefix_of(message@->Error_0.message)
                &&& json_parse(line@) is Some ==> message@->Error_0.message == "parse IPC JSON"@
                    + ": "@ + malformed_detail()
            },
            Some(DecodedView::Message(IpcMessageView::UserInputAnswer(answer))) => {
                &&& final(shared).pending_user_input@ == old(shared).pending_user_input@.remove(
                    answer.request_key,
                )
                &&& final(shared).pending_exec_approval == old(shared).pending_exec_approval
                &&& final(shared).pending_patch_approval == old(shared).pending_patch_approval
                &&& outcome.proceed
                &&& outcome.emit is None
                &&& outcome.delivery matches Some(d)
                &&& d is Unmatched <==> !old(shared).pending_user_input@.contains_key(
                    answer.request_key,
                )
            },
            Some(DecodedView::Message(IpcMessageView::ExecApprovalAnswer(answer))) => {
                &&& final(shared).pending_exec_approval@ == old(
                    shared,
                ).pending_exec_approval@.remove(answer.request_key)
                &&& final(shared).pending_user_input == old(shared).pending_user_input
                &&& final(shared).pending_patch_approval == old(shared).pending_patch_approval
                &&& outcome.proceed
                &&& outcome.emit is None
                &&& outcome.delivery matches Some(d)
                &&& d is Unmatched <==> !old(shared).pending_exec_approval@.contains_key(
                    answer.request_key,
                )
            },
            Some(DecodedView::Message(IpcMessageView::PatchApprovalAnswer(answer))) => {
                &&& final(shared).pending_patch_approval@ == old(
                    shared,
                ).pending_patch_approval@.remove(answer.request_key)
                &&& final(shared).pending_user_input == old(shared).pending_user_input
                &&& final(shared).pending_exec_approval == old(shared).pending_exec_approval
                &&& outcome.proceed
                &&& outcome.emit is None
                &&& outcome.delivery matches Some(d)
                &&& d is Unmatched <==> !old(shared).pending_patch_approval@.contains_key(
                    answer.request_key,
                )
            },
            Some(DecodedView::Message(IpcMessageView::Log(_))) => {
                &&& same_pending(*old(shared), *final(shared))
                &&& outcome.proceed
                &&& outcome.emit is None
                &&& outcome.delivery is None
            },
            Some(DecodedView::Message(IpcMessageView::Error(error))) => {
                &&& !outcome.proceed
                &&& outcome.delivery is None
                &&& outcome.emit matches Some(message)
                &&& message@ == IpcMessageView::Error(error)
            },
            Some(_) => {
                &&& same_pending(*old(shared), *final(shared))
                &&& outcome.proceed
                &&& outcome.delivery is None
                &&& outcome.emit matches Some(message)
                &&& is_ignored_warning(message@)
            },
        },
{
    match decode_line(line) {
        Err(error) => {
            let message = unreadable_line_error("parse IPC JSON", &error);
            proof {
                reveal_strlit("parse IPC JSON: ");
                reveal_strlit("parse IPC JSON");
                reveal_strlit(": ");
                assert("parse IPC JSON"@ + ": "@ =~= "parse IPC JSON: "@);
                assert(message@->Error_0.message.subrange(0, "parse IPC JSON: "@.len() as int)
                    =~= "parse IPC JSON: "@);
            }
            on_input_closed(shared);
            InputOutcome { emit: Some(message), proceed: false, delivery: None }
        },
        Ok(Decoded::Message(AgentTreeIpcMessage::UserInputAnswer(answer))) => {
            let delivery = deliver_user_input_answer(&mut shared.pending_user_input, answer);
            InputOutcome { emit: None, proceed: true, delivery: Some(delivery) }
        },
        Ok(Decoded::Message(AgentTreeIpcMessage::ExecApprovalAnswer(answer))) => {
            let delivery = deliver_exec_approval_answer(&mut shared.pending_exec_approval, answer);
            InputOutcome { emit: None, proceed: true, delivery: Some(delivery) }
        },
        Ok(Decoded::Message(AgentTreeIpcMessage::PatchApprovalAnswer(answer))) => {
            let delivery = deliver_patch_approval_answer(
                &mut shared.pending_patch_approval,
                answer,
            );
            InputOutcome { emit: None, proceed: true, delivery: Some(delivery) }
        },
        Ok(Decoded::Message(AgentTreeIpcMessage::Log(_))) => InputOutcome {
            emit: None,
            proceed: true,
            delivery: None,
        },
        Ok(Decoded::Message(AgentTreeIpcMessage::Error(error))) => {
            on_input_closed(shared);
            InputOutcome {
                emit: Some(AgentTreeIpcMessage::Error(error)),
                proceed: false,
                delivery: None,
            }
        },
        Ok(Decoded::Message(other)) => {
            let detail = debug_text(&other);
            let message = ignored_message_log(detail.as_str());
            proof {
                let whole = message@->Log_0.message;
                assert(whole.subrange(0, "ignored IPC message: "@.len() as int)
                    =~= "ignored IPC message: "@);
            }
            InputOutcome { emit: Some(message), proceed: true, delivery: None }
        },
        Ok(Decoded::Unknown(tag)) => {
            let message = ignored_message_log(tag.as_str());
            proof {
                let whole = message@->Log_0.message;
                assert(whole.subrange(0, "ignored IPC message: "@.len() as int)
                    =~= "ignored IPC message: "@);
            }
            InputOutcome { emit: Some(message), proceed: true, delivery: None }
        },
    }
}

} // verus!
