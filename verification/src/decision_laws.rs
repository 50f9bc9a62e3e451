//! What the worker does about each event, how a shutdown goes, and what lines and fields
//! mean.

use crate::backend::unavailable;
use crate::error::{protocol_error, BackendError, ErrorKind, ErrorView};
use crate::json::{json_from_str, json_to_vec, Json};
use crate::live_turn::{changed_id, event_of, out_of_order, EventView, LivePhase, LiveTurnView};
use crate::mapper::{forward, map_event, MapperView};
use crate::shape::{has_any_text, has_number, has_some_number, has_some_text, has_text};
use crate::shutdown::{
    outcome_view, result_of, shutdown_step, ExitView, ShutdownActionView, ShutdownEventView,
};
use crate::transitions::is_event;
use crate::wire::{line_of, method_of, required_number, required_text, value_of};
use crate::worker::{worker_step, WorkerActionView, WorkerEventView};
use vstd::prelude::*;

verus! {

/// A message of the session is mapped, and the renderer is told exactly what the mapper
/// tells; one that is refused ends the session, with the reason.
pub proof fn law_worker_passes_on_what_is_mapped(mapper: MapperView, message: Json)
    ensures
        ({
            let (after, action) = worker_step(mapper, WorkerEventView::Received(message));
            &&& after == forward(mapper, message).mapper
            &&& match forward(mapper, message).told {
                Ok(told) => action == WorkerActionView::Tell(told),
                Err(error) => action == WorkerActionView::Disconnect(
                    "CloudStaff mock protocol error: "@ + error.message,
                ),
            }
        }),
{
}

/// What is no message of the session leaves the mapper alone: a command that went well
/// lets the worker wait on, a request to shut down closes the stream, a client that is
/// gone stops it, and everything else ends the session with a word to the renderer.
pub proof fn law_worker_stops_for_a_reason(
    mapper: MapperView,
    error: ErrorView,
    text: Seq<char>,
)
    ensures
        worker_step(mapper, WorkerEventView::CommandDone { failed: false }) == (
            mapper,
            WorkerActionView::Continue,
        ),
        worker_step(mapper, WorkerEventView::CommandDone { failed: true }) == (
            mapper,
            WorkerActionView::Disconnect("CloudStaff mock command failed; reconnect required"@),
        ),
        worker_step(mapper, WorkerEventView::ShutdownRequested) == (
            mapper,
            WorkerActionView::CloseAndStop,
        ),
        worker_step(mapper, WorkerEventView::CommandsClosed) == (mapper, WorkerActionView::Stop),
        worker_step(mapper, WorkerEventView::NotDelivered(error)) == (
            mapper,
            WorkerActionView::Disconnect("CloudStaff mock protocol error: "@ + error.message),
        ),
        worker_step(mapper, WorkerEventView::StreamClosed) == (
            mapper,
            WorkerActionView::Disconnect("CloudStaff mock session socket closed"@),
        ),
        worker_step(mapper, WorkerEventView::ReadFailed(text)) == (
            mapper,
            WorkerActionView::Disconnect("CloudStaff mock session read failed: "@ + text),
        ),
{
}

/// How a shutdown ends: well where the worker ran to its end, or was aborted without
/// having acknowledged; badly where it failed, was cancelled all the same, or had to be
/// reaped.
pub proof fn law_shutdown_ends_as_the_worker_did(graceful: bool, text: Seq<char>)
    ensures
        result_of(graceful, ExitView::Finished) is Ok,
        result_of(false, ExitView::Cancelled(text)) is Ok,
        result_of(true, ExitView::Cancelled(text)) matches Err(error) && error == (ErrorView {
            kind: ErrorKind::Other,
            message: "CloudStaff mock worker failed: "@ + text,
        }),
        result_of(graceful, ExitView::Failed(text)) matches Err(error) && error == (ErrorView {
            kind: ErrorKind::Other,
            message: "CloudStaff mock worker failed: "@ + text,
        }),
        result_of(graceful, ExitView::TimedOut) matches Err(error) && error == (ErrorView {
            kind: ErrorKind::TimedOut,
            message: "CloudStaff mock worker did not shut down"@,
        }),
{
}

/// What follows from each observation of a shutdown: a worker that cannot be asked or
/// does not acknowledge is aborted, one that does is awaited, one that does not end is
/// reaped, and the result is that of its end.
pub proof fn law_shutdown_goes_step_by_step(graceful: bool, exit: ExitView)
    ensures
        shutdown_step(graceful, ShutdownEventView::Asked { taken: true }).1
            == ShutdownActionView::AwaitAcknowledgement,
        shutdown_step(graceful, ShutdownEventView::Asked { taken: false }) == (
            false,
            ShutdownActionView::AbortAndJoin,
        ),
        shutdown_step(graceful, ShutdownEventView::Acknowledged { in_time: true }) == (
            true,
            ShutdownActionView::Join,
        ),
        shutdown_step(graceful, ShutdownEventView::Acknowledged { in_time: false }) == (
            false,
            ShutdownActionView::AbortAndJoin,
        ),
        exit is TimedOut ==> shutdown_step(graceful, ShutdownEventView::Joined(exit)) == (
            graceful,
            ShutdownActionView::AbortAndReap,
        ),
        !(exit is TimedOut) ==> shutdown_step(graceful, ShutdownEventView::Joined(exit)) == (
            graceful,
            ShutdownActionView::Return(result_of(graceful, exit)),
        ),
        shutdown_step(graceful, ShutdownEventView::Reaped) == (
            graceful,
            ShutdownActionView::Return(result_of(graceful, ExitView::TimedOut)),
        ),
{
}

/// A shutdown's result is seen with its error's kind and text.
pub proof fn law_outcomes_are_seen_as_they_are(result: Result<(), BackendError>)
    ensures
        match result {
            Ok(_) => outcome_view(result) is Ok,
            Err(error) => outcome_view(result) matches Err(seen) && seen.kind == error.kind
                && seen.message == error.message@,
        },
{
}

/// A required field is read exactly as the message holds it, and is missing exactly where
/// the message has no text of at least one character, or no number, under its name.
pub proof fn law_required_fields_are_read(
    value: Json,
    field: Seq<char>,
    text: Seq<char>,
    number: u64,
)
    ensures
        (required_text(value, field) matches Ok(read) && read == text) <==> has_text(
            value,
            field,
            text,
        ) && text.len() > 0,
        !has_some_text(value, field) ==> (required_text(value, field) matches Err(error) && error
            == (ErrorView {
            kind: ErrorKind::InvalidData,
            message: "mock message omitted "@ + field,
        })),
        (required_number(value, field) matches Ok(read) && read == number) <==> has_number(
            value,
            field,
            number,
        ),
        !has_some_number(value, field) ==> (required_number(value, field) matches Err(error)
            && error == (ErrorView {
            kind: ErrorKind::InvalidData,
            message: "mock message omitted "@ + field,
        })),
{
}

/// A line is the printed message and a line feed.
pub proof fn law_line_ends_with_a_line_feed(value: Json)
    ensures
        line_of(value) == json_to_vec(value) + seq![0x0au8],
{
    assert(line_of(value) =~= json_to_vec(value) + seq![0x0au8]);
}

/// A line that was read is the message that is parsed from it, and the end of the stream
/// is no message; what cannot be parsed is invalid data, for the parser's reason.
pub proof fn law_lines_are_parsed(text: Seq<char>)
    ensures
        value_of(None) matches Ok(read) && read is None,
        match json_from_str(text) {
            Ok(value) => value_of(Some(text)) matches Ok(read) && read == Some(value),
            Err(reason) => value_of(Some(text)) matches Err(error) && error == (ErrorView {
                kind: ErrorKind::InvalidData,
                message: reason,
            }),
        },
{
}

/// The method of a request is the text under that name, whatever it is, and unknown
/// where there is none.
pub proof fn law_method_is_named(value: Json, method: Seq<char>)
    ensures
        method_of(None) == "<unknown>"@,
        has_text(value, "method"@, method) ==> method_of(Some(value)) == method,
        !has_any_text(value, "method"@) ==> method_of(Some(value)) == "<unknown>"@,
{
}

/// The errors of this library say what they are made of.
pub proof fn law_errors_say_what_they_are(message: Seq<char>, role: Seq<char>)
    ensures
        protocol_error(message) == (ErrorView { kind: ErrorKind::InvalidData, message }),
        out_of_order() == (ErrorView {
            kind: ErrorKind::InvalidData,
            message: "CloudStaff mock event arrived out of order"@,
        }),
        changed_id(role) == (ErrorView {
            kind: ErrorKind::InvalidData,
            message: "CloudStaff mock changed "@ + role + " messageId within a turn"@,
        }),
        unavailable() == (ErrorView {
            kind: ErrorKind::Unsupported,
            message: "CloudStaff session backend is not connected in this build"@,
        }),
{
}

/// An event is read with exactly the fields that it holds, and whatever has the four
/// fields is an event.
pub proof fn law_events_are_read_as_they_are(event: EventView)
    ensures
        (event_of(event.body) matches Ok(read) && read == event) <==> is_event(event),
{
}

/// A turn of which nothing was seen is empty, but for the command that it answers.
pub proof fn law_fresh_turn_is_empty(command_id: Seq<char>)
    ensures
        LiveTurnView::new(command_id) == (LiveTurnView {
            started: false,
            command_id,
            phase: LivePhase::User,
            user_message_id: None,
            user_text: Seq::empty(),
            assistant_message_id: None,
            assistant_text: Seq::empty(),
            assistant_started: false,
        }),
{
}

/// What an event does to the turns does not depend on the number of the last event, and
/// leaves that number.
pub proof fn law_events_do_not_count(mapper: MapperView, body: Json, last_event_seq: u64)
    ensures
        ({
            let other = MapperView { last_event_seq, ..mapper };
            let step = map_event(mapper, body);
            &&& map_event(other, body).told == step.told
            &&& map_event(other, body).mapper == (MapperView { last_event_seq, ..step.mapper })
            &&& step.mapper.last_event_seq == mapper.last_event_seq
        }),
{
    let other = MapperView { last_event_seq, ..mapper };
    if let Ok(event) = event_of(body) {
        assert(other.turn_for(event) == mapper.turn_for(event));
    }
}

} // verus!
