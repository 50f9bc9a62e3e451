//! The decisions of the worker that owns the session's stream.
//!
//! The worker waits for whatever comes first, a command of the client or a line of
//! the session. What it does about each is decided here; waiting, reading, writing
//! and sending are left to whoever runs it.

use crate::error::{BackendError, ErrorKind, ErrorView};
use crate::json::{json, Json};
use crate::mapper::{forward, EventMapper, MapperView};
use crate::protocol::{NotificationView, ServerNotification};
use crate::text::joined;
use serde_json::Value;
use vstd::prelude::*;

verus! {

/// Something that the worker waited for.
pub enum WorkerEvent {
    /// A command was carried out, or failed, and its result was handed back.
    CommandDone { failed: bool },
    /// The client asked the worker to shut down.
    ShutdownRequested,
    /// The client is gone.
    CommandsClosed,
    /// The session sent a message.
    Received(Value),
    /// What the renderer was to be told could not be delivered.
    NotDelivered(BackendError),
    /// The session closed the stream.
    StreamClosed,
    /// A line could not be read, or is no message; the text is that of the error.
    ReadFailed(String),
}

/// What the worker does next.
pub enum WorkerAction {
    /// Wait for the next event.
    Continue,
    /// Tell the renderer, then wait for the next event.
    Tell(Vec<ServerNotification>),
    /// Close the stream, acknowledge, and stop.
    CloseAndStop,
    /// Stop without a word.
    Stop,
    /// Tell the renderer that the session is lost, and stop.
    Disconnect(String),
}

#[verifier::ext_equal]
pub enum WorkerEventView {
    CommandDone { failed: bool },
    ShutdownRequested,
    CommandsClosed,
    Received(Json),
    NotDelivered(ErrorView),
    StreamClosed,
    ReadFailed(Seq<char>),
}

#[verifier::ext_equal]
pub enum WorkerActionView {
    Continue,
    Tell(Seq<NotificationView>),
    CloseAndStop,
    Stop,
    Disconnect(Seq<char>),
}

impl DeepView for WorkerEvent {
    type V = WorkerEventView;

    open spec fn deep_view(&self) -> WorkerEventView {
        match self {
            WorkerEvent::CommandDone { failed } => WorkerEventView::CommandDone { failed: *failed },
            WorkerEvent::ShutdownRequested => WorkerEventView::ShutdownRequested,
            WorkerEvent::CommandsClosed => WorkerEventView::CommandsClosed,
            WorkerEvent::Received(value) => WorkerEventView::Received(json(*value)),
            WorkerEvent::NotDelivered(error) => WorkerEventView::NotDelivered(error.deep_view()),
            WorkerEvent::StreamClosed => WorkerEventView::StreamClosed,
            WorkerEvent::ReadFailed(text) => WorkerEventView::ReadFailed(text@),
        }
    }
}

impl DeepView for WorkerAction {
    type V = WorkerActionView;

    open spec fn deep_view(&self) -> WorkerActionView {
        match self {
            WorkerAction::Continue => WorkerActionView::Continue,
            WorkerAction::Tell(told) => WorkerActionView::Tell(told.deep_view()),
            WorkerAction::CloseAndStop => WorkerActionView::CloseAndStop,
            WorkerAction::Stop => WorkerActionView::Stop,
            WorkerAction::Disconnect(message) => WorkerActionView::Disconnect(message@),
        }
    }
}

/// Whether the worker waits on after an action.
pub open spec fn goes_on(action: WorkerActionView) -> bool {
    action is Continue || action is Tell
}

/// The farewell after a message that breaks the protocol or cannot be passed on.
pub open spec fn protocol_failure(error: ErrorView) -> WorkerActionView {
    WorkerActionView::Disconnect("CloudStaff mock protocol error: "@ + error.message)
}

/// What the worker does about an event, and the mapper after it.
pub open spec fn worker_step(mapper: MapperView, event: WorkerEventView) -> (
    MapperView,
    WorkerActionView,
) {
    match event {
        WorkerEventView::CommandDone { failed } => (
            mapper,
            if failed {
                WorkerActionView::Disconnect(
                    "CloudStaff mock command failed; reconnect required"@,
                )
            } else {
                WorkerActionView::Continue
            },
        ),
        WorkerEventView::ShutdownRequested => (mapper, WorkerActionView::CloseAndStop),
        WorkerEventView::CommandsClosed => (mapper, WorkerActionView::Stop),
        WorkerEventView::Received(message) => {
            let step = forward(mapper, message);
            (
                step.mapper,
                match step.told {
                    Ok(told) => WorkerActionView::Tell(told),
                    Err(error) => protocol_failure(error),
                },
            )
        },
        WorkerEventView::NotDelivered(error) => (mapper, protocol_failure(error)),
        WorkerEventView::StreamClosed => (
            mapper,
            WorkerActionView::Disconnect("CloudStaff mock session socket closed"@),
        ),
        WorkerEventView::ReadFailed(text) => (
            mapper,
            WorkerActionView::Disconnect("CloudStaff mock session read failed: "@ + text),
        ),
    }
}

/// Decides what the worker does about an event.
pub fn on_event(mapper: &mut EventMapper, event: WorkerEvent) -> (res: WorkerAction)
    ensures
        final(mapper)@ == worker_step(old(mapper)@, event.deep_view()).0,
        res.deep_view() == worker_step(old(mapper)@, event.deep_view()).1,
        old(mapper)@.well_formed() ==> final(mapper)@.well_formed(),
{
    match event {
        WorkerEvent::CommandDone { failed } => if failed {
            WorkerAction::Disconnect(
                "CloudStaff mock command failed; reconnect required".to_owned(),
            )
        } else {
            WorkerAction::Continue
        },
        WorkerEvent::ShutdownRequested => WorkerAction::CloseAndStop,
        WorkerEvent::CommandsClosed => WorkerAction::Stop,
        WorkerEvent::Received(message) => match mapper.forward_envelope(&message) {
            Ok(told) => WorkerAction::Tell(told),
            Err(error) => WorkerAction::Disconnect(
                joined("CloudStaff mock protocol error: ", error.message.as_str()),
            ),
        },
        WorkerEvent::NotDelivered(error) => WorkerAction::Disconnect(
            joined("CloudStaff mock protocol error: ", error.message.as_str()),
        ),
        WorkerEvent::StreamClosed => WorkerAction::Disconnect(
            "CloudStaff mock session socket closed".to_owned(),
        ),
        WorkerEvent::ReadFailed(text) => WorkerAction::Disconnect(
            joined("CloudStaff mock session read failed: ", text.as_str()),
        ),
    }
}

/// Why a notification was not delivered.
#[derive(Clone, Copy, Debug, PartialEq, Eq, Structural)]
pub enum DeliveryFailure {
    /// The renderer's buffer is full.
    Full,
    /// The renderer is gone.
    Closed,
}

/// The error for a notification that was not delivered.
pub fn delivery_error(failure: DeliveryFailure) -> (res: BackendError)
    ensures
        res.deep_view() == match failure {
            DeliveryFailure::Full => ErrorView {
                kind: ErrorKind::WouldBlock,
                message: "CloudStaff mock event buffer is full"@,
            },
            DeliveryFailure::Closed => ErrorView {
                kind: ErrorKind::BrokenPipe,
                message: "TUI event receiver closed"@,
            },
        },
{
    match failure {
        DeliveryFailure::Full => BackendError::new(
            ErrorKind::WouldBlock,
            "CloudStaff mock event buffer is full",
        ),
        DeliveryFailure::Closed => BackendError::new(
            ErrorKind::BrokenPipe,
            "TUI event receiver closed",
        ),
    }
}

/// What came of handing a command to the worker.
pub enum Handover<A> {
    /// The worker had stopped.
    NotTaken,
    /// The worker stopped before it answered.
    Lost,
    /// The worker answered.
    Answered(A),
}

/// The worker's answer to a command that was handed to it.
pub fn handed_over<A>(handover: Handover<A>) -> (res: Result<A, BackendError>)
    ensures
        match (handover, res) {
            (Handover::NotTaken, Err(error)) => error.deep_view() == (ErrorView {
                kind: ErrorKind::BrokenPipe,
                message: "CloudStaff mock worker stopped"@,
            }),
            (Handover::Lost, Err(error)) => error.deep_view() == (ErrorView {
                kind: ErrorKind::BrokenPipe,
                message: "CloudStaff mock response was lost"@,
            }),
            (Handover::Answered(answer), Ok(given)) => given == answer,
            _ => false,
        },
{
    match handover {
        Handover::NotTaken => Err(
            BackendError::new(ErrorKind::BrokenPipe, "CloudStaff mock worker stopped"),
        ),
        Handover::Lost => Err(
            BackendError::new(ErrorKind::BrokenPipe, "CloudStaff mock response was lost"),
        ),
        Handover::Answered(answer) => Ok(answer),
    }
}

/// After a message that it refuses, the worker stops, whatever the mapper kept of it:
/// nothing more is told.
pub proof fn law_worker_stops_at_a_refused_message(mapper: MapperView, message: Json)
    ensures
        goes_on(worker_step(mapper, WorkerEventView::Received(message)).1) <==> forward(
            mapper,
            message,
        ).told is Ok,
{
}

} // verus!
