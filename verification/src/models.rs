//! The models of values say everything that the values hold.
//!
//! Contracts speak of values through their models. These laws say that a model keeps each
//! field of its value, and which kind of value it is.

use crate::command::{
    Acceptance, AcceptanceView, CommandProgress, CommandStep, CommandStepView, CommandView,
    ProgressView, RequestId, RequestIdView, TurnCommand,
};
use crate::error::{result_view, BackendError};
use crate::json::json;
use crate::live_turn::Event;
use crate::protocol::{
    InputView, ItemView, NotificationView, ServerNotification, ThreadItem, Turn, UserInput,
};
use crate::session::JoinedSession;
use crate::shutdown::{
    ExitView, ShutdownAction, ShutdownActionView, ShutdownEvent, ShutdownEventView, WorkerExit,
};
use crate::snapshot::SnapshotMessage;
use crate::thread_id::{uuid_text, ThreadId};
use crate::worker::{WorkerAction, WorkerActionView, WorkerEvent, WorkerEventView};
use vstd::prelude::*;

verus! {

/// An error keeps its kind and its text, and a result its side.
pub proof fn law_model_of_errors<T: DeepView>(
    error: BackendError,
    result: Result<T, BackendError>,
)
    ensures
        error.deep_view().kind == error.kind,
        error.deep_view().message == error.message@,
        match result {
            Ok(value) => result_view(result) matches Ok(seen) && seen == value.deep_view(),
            Err(failure) => result_view(result) matches Err(seen) && seen == failure.deep_view(),
        },
{
}

/// A thread id is its number, and its text is that of the number.
pub proof fn law_model_of_thread_ids(id: ThreadId)
    ensures
        id.deep_view().uuid == id.uuid,
        id.text() == uuid_text(id.uuid),
{
}

/// An input keeps its text and its marked stretches.
pub proof fn law_model_of_inputs(input: UserInput, i: int)
    ensures
        match input {
            UserInput::Text { text, text_elements } => {
                &&& input.deep_view() matches InputView::Text {
                    text: seen,
                    text_elements: seen_elements,
                }
                &&& seen == text@
                &&& seen_elements.len() == text_elements@.len()
                &&& 0 <= i < text_elements@.len() ==> seen_elements[i] == text_elements@[i]
            },
            UserInput::NonText => input.deep_view() is NonText,
        },
{
}

/// An item keeps its side of the conversation, its id and its content.
pub proof fn law_model_of_items(item: ThreadItem, i: int)
    ensures
        match item {
            ThreadItem::UserMessage { id, client_id, content } => {
                &&& item.deep_view() matches ItemView::UserMessage {
                    id: seen_id,
                    client_id: seen_client,
                    content: seen,
                }
                &&& seen_id == id@
                &&& match client_id {
                    Some(client) => seen_client == Some(client@),
                    None => seen_client is None,
                }
                &&& seen.len() == content@.len()
                &&& 0 <= i < content@.len() ==> seen[i] == content@[i].deep_view()
            },
            ThreadItem::AgentMessage { id, text, phase, memory_citation } => {
                &&& item.deep_view() matches ItemView::AgentMessage {
                    id: seen_id,
                    text: seen,
                    phase: seen_phase,
                    memory_citation: seen_citation,
                }
                &&& seen_id == id@
                &&& seen == text@
                &&& match phase {
                    Some(phase) => seen_phase == Some(phase@),
                    None => seen_phase is None,
                }
                &&& match memory_citation {
                    Some(citation) => seen_citation == Some(citation@),
                    None => seen_citation is None,
                }
            },
        },
{
}

/// A turn keeps its id, its items, its status and its times.
pub proof fn law_model_of_turns(turn: Turn, i: int)
    ensures
        turn.deep_view().id == turn.id@,
        turn.deep_view().items.len() == turn.items@.len(),
        0 <= i < turn.items@.len() ==> turn.deep_view().items[i] == turn.items@[i].deep_view(),
        turn.deep_view().items_view == turn.items_view,
        turn.deep_view().status == turn.status,
        match turn.error {
            Some(error) => turn.deep_view().error == Some(error@),
            None => turn.deep_view().error is None,
        },
        turn.deep_view().started_at == turn.started_at,
        turn.deep_view().completed_at == turn.completed_at,
        turn.deep_view().duration_ms == turn.duration_ms,
{
}

/// A notification keeps what it is, the thread and the turn that it names, and what it
/// says of them.
pub proof fn law_model_of_notifications(notification: ServerNotification)
    ensures
        match notification {
            ServerNotification::TurnStarted(n) => {
                &&& notification.deep_view() matches NotificationView::TurnStarted {
                    thread_id,
                    turn,
                }
                &&& thread_id == n.thread_id@
                &&& turn == n.turn.deep_view()
            },
            ServerNotification::ItemStarted(n) => {
                &&& notification.deep_view() matches NotificationView::ItemStarted {
                    item,
                    thread_id,
                    turn_id,
                    started_at_ms,
                }
                &&& item == n.item.deep_view()
                &&& thread_id == n.thread_id@
                &&& turn_id == n.turn_id@
                &&& started_at_ms == n.started_at_ms
            },
            ServerNotification::ItemCompleted(n) => {
                &&& notification.deep_view() matches NotificationView::ItemCompleted {
                    item,
                    thread_id,
                    turn_id,
                    completed_at_ms,
                }
                &&& item == n.item.deep_view()
                &&& thread_id == n.thread_id@
                &&& turn_id == n.turn_id@
                &&& completed_at_ms == n.completed_at_ms
            },
            ServerNotification::AgentMessageDelta(n) => {
                &&& notification.deep_view() matches NotificationView::AgentMessageDelta {
                    thread_id,
                    turn_id,
                    item_id,
                    delta,
                }
                &&& thread_id == n.thread_id@
                &&& turn_id == n.turn_id@
                &&& item_id == n.item_id@
                &&& delta == n.delta@
            },
            ServerNotification::TurnCompleted(n) => {
                &&& notification.deep_view() matches NotificationView::TurnCompleted {
                    thread_id,
                    turn,
                }
                &&& thread_id == n.thread_id@
                &&& turn == n.turn.deep_view()
            },
        },
{
}

/// A message of the history keeps each of its fields, and a session each of its messages.
pub proof fn law_model_of_sessions(message: SnapshotMessage, session: JoinedSession, i: int)
    ensures
        message.deep_view().message_id == message.message_id@,
        message.deep_view().turn_id == message.turn_id@,
        message.deep_view().role == message.role@,
        message.deep_view().text == message.text@,
        message.deep_view().completed == message.completed,
        session.deep_view().session_id == session.session_id@,
        session.deep_view().thread_id == session.thread_id,
        session.deep_view().snapshot_messages.len() == session.snapshot_messages@.len(),
        0 <= i < session.snapshot_messages@.len() ==> session.deep_view().snapshot_messages[i]
            == session.snapshot_messages@[i].deep_view(),
{
}

/// An event keeps its fields and the value that it was read from.
pub proof fn law_model_of_events(event: Event)
    ensures
        event.deep_view().kind == event.kind@,
        event.deep_view().turn_id == event.turn_id@,
        event.deep_view().message_id == event.message_id@,
        event.deep_view().command_id == event.command_id@,
        event.deep_view().body == json(*event.body),
{
}

/// A command and its acceptance keep each of their fields.
pub proof fn law_model_of_commands(id: RequestId, command: TurnCommand, acceptance: Acceptance)
    ensures
        match id {
            RequestId::String(text) => id.deep_view() == RequestIdView::String(text@),
            RequestId::Integer(number) => id.deep_view() == RequestIdView::Integer(number),
        },
        command.deep_view() == (CommandView {
            request_id: command.request_id@,
            command_id: command.command_id@,
            text: command.text@,
        }),
        acceptance.deep_view() == (AcceptanceView {
            turn_id: acceptance.turn_id@,
            first_event_seq: acceptance.first_event_seq,
            last_event_seq: acceptance.last_event_seq,
            duplicate: acceptance.duplicate,
        }),
{
}

/// How a command stands is seen with what is told, accepted or started.
pub proof fn law_model_of_progress(step: CommandStep, progress: CommandProgress, i: int)
    ensures
        match step {
            CommandStep::Told(told) => {
                &&& step.deep_view() matches CommandStepView::Told(seen)
                &&& seen.len() == told@.len()
                &&& 0 <= i < told@.len() ==> seen[i] == told@[i].deep_view()
            },
            CommandStep::Accepted(acceptance) => step.deep_view() == CommandStepView::Accepted(
                acceptance.deep_view(),
            ),
        },
        match progress {
            CommandProgress::Told(told) => {
                &&& progress.deep_view() matches ProgressView::Told(seen)
                &&& seen.len() == told@.len()
                &&& 0 <= i < told@.len() ==> seen[i] == told@[i].deep_view()
            },
            CommandProgress::Started(turn) => progress.deep_view() == ProgressView::Started(
                turn.deep_view(),
            ),
            CommandProgress::Exhausted => progress.deep_view() is Exhausted,
        },
{
}

/// What the worker waits for, and what it does, is seen as it is.
pub proof fn law_model_of_the_worker(event: WorkerEvent, action: WorkerAction, i: int)
    ensures
        match event {
            WorkerEvent::CommandDone { failed } => event.deep_view()
                == (WorkerEventView::CommandDone { failed }),
            WorkerEvent::ShutdownRequested => event.deep_view() is ShutdownRequested,
            WorkerEvent::CommandsClosed => event.deep_view() is CommandsClosed,
            WorkerEvent::Received(value) => event.deep_view() == WorkerEventView::Received(
                json(value),
            ),
            WorkerEvent::NotDelivered(error) => event.deep_view()
                == WorkerEventView::NotDelivered(error.deep_view()),
            WorkerEvent::StreamClosed => event.deep_view() is StreamClosed,
            WorkerEvent::ReadFailed(text) => event.deep_view() == WorkerEventView::ReadFailed(
                text@,
            ),
        },
        match action {
            WorkerAction::Continue => action.deep_view() is Continue,
            WorkerAction::Tell(told) => {
                &&& action.deep_view() matches WorkerActionView::Tell(seen)
                &&& seen.len() == told@.len()
                &&& 0 <= i < told@.len() ==> seen[i] == told@[i].deep_view()
            },
            WorkerAction::CloseAndStop => action.deep_view() is CloseAndStop,
            WorkerAction::Stop => action.deep_view() is Stop,
            WorkerAction::Disconnect(message) => action.deep_view()
                == WorkerActionView::Disconnect(message@),
        },
{
}

/// What is observed of a shutdown, and what is done in it, is seen as it is.
pub proof fn law_model_of_shutdowns(
    exit: WorkerExit,
    event: ShutdownEvent,
    action: ShutdownAction,
)
    ensures
        match exit {
            WorkerExit::Finished => exit.deep_view() is Finished,
            WorkerExit::Cancelled(text) => exit.deep_view() == ExitView::Cancelled(text@),
            WorkerExit::Failed(text) => exit.deep_view() == ExitView::Failed(text@),
            WorkerExit::TimedOut => exit.deep_view() is TimedOut,
        },
        match event {
            ShutdownEvent::Asked { taken } => event.deep_view() == (ShutdownEventView::Asked {
                taken,
            }),
            ShutdownEvent::Acknowledged { in_time } => event.deep_view()
                == (ShutdownEventView::Acknowledged { in_time }),
            ShutdownEvent::Joined(end) => event.deep_view() == ShutdownEventView::Joined(
                end.deep_view(),
            ),
            ShutdownEvent::Reaped => event.deep_view() is Reaped,
        },
        match action {
            ShutdownAction::AwaitAcknowledgement => action.deep_view() is AwaitAcknowledgement,
            ShutdownAction::Join => action.deep_view() is Join,
            ShutdownAction::AbortAndJoin => action.deep_view() is AbortAndJoin,
            ShutdownAction::AbortAndReap => action.deep_view() is AbortAndReap,
            ShutdownAction::Return(result) => {
                &&& action.deep_view() matches ShutdownActionView::Return(seen)
                &&& match result {
                    Ok(_) => seen is Ok,
                    Err(error) => seen matches Err(failure) && failure == error.deep_view(),
                }
            },
        },
{
}

} // verus!
