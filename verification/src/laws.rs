//! What holds of a session as a whole.

use crate::attach::{lists, Thread};
use crate::command::{command_progress, CommandView, ProgressView};
use crate::error::{protocol_error, ErrorKind, ErrorView};
use crate::json::Json;
use crate::live_turn::{
    ends_turn, event_of, finished_items, lemma_event_kinds_differ, out_of_order, EventView,
    LivePhase, LiveTurnView,
};
use crate::mapper::{
    forward, lemma_map_event_keeps_well_formed, map_event, MapperStep, MapperView,
};
use crate::protocol::{turn_view, NotificationView, TurnStatus};
use crate::renderer::{
    in_step, law_renderer_can_follow, run, show_all, thread_of_notification, Screen, Session,
};
use crate::session::JoinedView;
use crate::snapshot::{history, turn_ids, turn_items, MessageView};
use crate::thread_id::ThreadId;
use crate::worker::{worker_step, WorkerActionView, WorkerEventView};
use vstd::prelude::*;

verus! {

/// A step that tells nothing but the given error.
pub open spec fn refused_with(step: MapperStep, error: ErrorView) -> bool {
    step.told matches Err(reported) && reported == error
}

/// An envelope with an event of the given number.
pub open spec fn is_numbered(envelope: Json, event_seq: u64) -> bool {
    envelope.text_at("type"@) == Some("session.event"@) && envelope.unsigned_at("eventSeq"@)
        == Some(event_seq)
}

/// An envelope with an event that the mapper takes next.
pub open spec fn is_next(mapper: MapperView, envelope: Json, event: EventView) -> bool {
    &&& envelope.text_at("type"@) == Some("session.event"@)
    &&& envelope.unsigned_at("eventSeq"@) matches Some(seq) && seq == mapper.last_event_seq + 1
    &&& envelope.get("event"@) matches Some(body) && event_of(body) matches Ok(read) && read
        == event
}

/// A mapper stays well formed, whatever it receives.
pub proof fn law_mapper_stays_well_formed(mapper: MapperView, envelope: Json)
    requires
        mapper.well_formed(),
    ensures
        forward(mapper, envelope).mapper.well_formed(),
{
    if let Some(body) = envelope.get("event"@) {
        lemma_map_event_keeps_well_formed(mapper, body);
        let mapped = map_event(mapper, body).mapper;
        let after = forward(mapper, envelope).mapper;
        assert(after != mapper ==> after.turns == mapped.turns && after.completed_turns
            == mapped.completed_turns);
    }
}

/// An event that was taken before is passed over: nothing changes and nothing is
/// told.
pub proof fn law_seen_event_is_fenced(mapper: MapperView, envelope: Json, event_seq: u64)
    requires
        is_numbered(envelope, event_seq),
        event_seq <= mapper.last_event_seq,
    ensures
        forward(mapper, envelope).mapper == mapper,
        forward(mapper, envelope).told is Ok,
        forward(mapper, envelope).told->Ok_0.len() == 0,
{
}

/// What has been accepted once is passed over when it comes again, now or after
/// any further envelopes.
pub proof fn law_accepted_envelope_is_fenced(
    mapper: MapperView,
    envelope: Json,
    further: Seq<Json>,
)
    requires
        forward(mapper, envelope).told is Ok,
        run(forward(mapper, envelope).mapper, further) is Some,
    ensures
        ({
            let later = run(forward(mapper, envelope).mapper, further)->Some_0.mapper;
            &&& forward(later, envelope).mapper == later
            &&& forward(later, envelope).told is Ok
            &&& forward(later, envelope).told->Ok_0.len() == 0
        }),
{
    law_event_numbers_never_fall(forward(mapper, envelope).mapper, further);
}

/// A session never goes back to an earlier event number.
pub proof fn law_event_numbers_never_fall(mapper: MapperView, envelopes: Seq<Json>)
    requires
        run(mapper, envelopes) is Some,
    ensures
        run(mapper, envelopes)->Some_0.mapper.last_event_seq >= mapper.last_event_seq,
    decreases envelopes.len(),
{
    if envelopes.len() > 0 {
        law_event_numbers_never_fall(mapper, envelopes.drop_last());
        let before = run(mapper, envelopes.drop_last())->Some_0.mapper;
        law_event_number_advances_by_one(before, envelopes.last());
    }
}

/// The event number moves to the next one when an event is taken, and otherwise
/// stays: a refused event may come again.
pub proof fn law_event_number_advances_by_one(mapper: MapperView, envelope: Json)
    ensures
        ({
            let step = forward(mapper, envelope);
            if step.told is Ok && envelope.unsigned_at("eventSeq"@)->0 > mapper.last_event_seq {
                step.mapper.last_event_seq == mapper.last_event_seq + 1
            } else {
                step.mapper.last_event_seq == mapper.last_event_seq
            }
        }),
{
}

/// An event that comes before its turn is refused, and nothing changes.
pub proof fn law_gap_is_refused(mapper: MapperView, envelope: Json, event_seq: u64)
    requires
        is_numbered(envelope, event_seq),
        event_seq > mapper.last_event_seq + 1,
    ensures
        forward(mapper, envelope).mapper == mapper,
        refused_with(
            forward(mapper, envelope),
            protocol_error("CloudStaff mock event sequence has a gap"@),
        ),
{
}

/// Every refusal is reported as invalid data.
pub proof fn law_refusals_are_invalid_data(mapper: MapperView, envelope: Json)
    requires
        forward(mapper, envelope).told is Err,
    ensures
        forward(mapper, envelope).told->Err_0.kind == ErrorKind::InvalidData,
{
}

/// A turn that is over is not reopened: its events are refused, and nothing
/// changes.
pub proof fn law_finished_turn_is_not_reopened(
    mapper: MapperView,
    envelope: Json,
    event: EventView,
)
    requires
        is_next(mapper, envelope, event),
        mapper.completed_turns.contains(event.turn_id),
    ensures
        forward(mapper, envelope).mapper == mapper,
        refused_with(
            forward(mapper, envelope),
            protocol_error("CloudStaff mock emitted an event after turn completion"@),
        ),
{
}

/// A turn that is over stays over, whatever comes.
pub proof fn law_finished_turns_stay_finished(mapper: MapperView, envelope: Json)
    ensures
        mapper.completed_turns.subset_of(forward(mapper, envelope).mapper.completed_turns),
{
}

/// A turn is over exactly from the accepted event that ends it.
pub proof fn law_turn_ends_with_the_agents_message(
    mapper: MapperView,
    envelope: Json,
    event: EventView,
)
    requires
        is_next(mapper, envelope, event),
        !mapper.completed_turns.contains(event.turn_id),
    ensures
        forward(mapper, envelope).mapper.completed_turns.contains(event.turn_id) <==> (ends_turn(
            event.kind,
        ) && forward(mapper, envelope).told is Ok),
{
}

/// A turn in which the agent speaks before the user's message is complete is
/// refused.
pub proof fn law_agent_cannot_speak_first(mapper: MapperView, envelope: Json, event: EventView)
    requires
        is_next(mapper, envelope, event),
        !mapper.completed_turns.contains(event.turn_id),
        mapper.turn_for(event).command_id == event.command_id,
        mapper.turn_for(event).phase == LivePhase::User,
        event.kind == "assistant.message.delta"@ || ends_turn(event.kind),
    ensures
        refused_with(forward(mapper, envelope), out_of_order()),
{
    lemma_event_kinds_differ();
}

/// A turn keeps the command that it answers for as long as it is under way.
pub proof fn law_turn_keeps_its_command(mapper: MapperView, envelope: Json, turn_id: Seq<char>)
    requires
        mapper.turns.contains_key(turn_id),
        forward(mapper, envelope).mapper.turns.contains_key(turn_id),
    ensures
        forward(mapper, envelope).mapper.turns[turn_id].command_id
            == mapper.turns[turn_id].command_id,
{
}

/// An event touches no turn but its own.
pub proof fn law_other_turns_are_untouched(
    mapper: MapperView,
    envelope: Json,
    event: EventView,
    turn_id: Seq<char>,
)
    requires
        is_next(mapper, envelope, event),
        turn_id != event.turn_id,
    ensures
        ({
            let after = forward(mapper, envelope).mapper;
            &&& after.turns.contains_key(turn_id) == mapper.turns.contains_key(turn_id)
            &&& mapper.turns.contains_key(turn_id) ==> after.turns[turn_id]
                == mapper.turns[turn_id]
            &&& after.completed_turns.contains(turn_id) == mapper.completed_turns.contains(turn_id)
        }),
{
}

/// While a command waits for its answer, an event does what it does otherwise: the
/// mapper takes the same step, and the renderer is told the same.
pub proof fn law_events_are_mapped_alike_during_a_command(
    command: CommandView,
    session_id: Seq<char>,
    mapper: MapperView,
    message: Json,
)
    requires
        message.text_at("type"@) == Some("session.event"@),
    ensures
        ({
            let waiting = command_progress(command, session_id, mapper, message);
            let idle = worker_step(mapper, WorkerEventView::Received(message));
            &&& waiting.0 == idle.0
            &&& match waiting.1 {
                Ok(ProgressView::Told(told)) => idle.1 == WorkerActionView::Tell(told),
                Ok(_) => false,
                Err(_) => idle.1 is Disconnect,
            }
        }),
{
    reveal_strlit("session.event");
    reveal_strlit("session.command.accepted");
    reveal_strlit("error");
    assert("session.event"@.len() == 13);
    assert("session.command.accepted"@.len() == 24);
    assert("error"@.len() == 5);
}

proof fn lemma_shown_notifications_name_the_thread(
    thread: ThreadId,
    screen: Screen,
    told: Seq<NotificationView>,
)
    requires
        show_all(thread, screen, told) is Some,
    ensures
        forall|i: int|
            0 <= i < told.len() ==> thread_of_notification(#[trigger] told[i]) == thread.text(),
    decreases told.len(),
{
    if told.len() > 0 {
        lemma_shown_notifications_name_the_thread(thread, screen, told.drop_last());
        assert forall|i: int| 0 <= i < told.len() implies thread_of_notification(
            #[trigger] told[i],
        ) == thread.text() by {
            if i < told.len() - 1 {
                assert(told.drop_last()[i] == told[i]);
            }
        }
    }
}

/// Everything that a joined session tells is about the thread that the renderer was
/// attached to.
pub proof fn law_live_events_name_the_attached_thread(
    session: JoinedView,
    thread: Thread,
    last_event_seq: u64,
    envelopes: Seq<Json>,
)
    requires
        lists(thread, session),
        run(MapperView::new(session.thread_id, last_event_seq), envelopes) is Some,
    ensures
        ({
            let told = run(
                MapperView::new(session.thread_id, last_event_seq),
                envelopes,
            )->Some_0.told;
            forall|i: int|
                0 <= i < told.len() ==> thread_of_notification(#[trigger] told[i]) == thread.id@
        }),
{
    law_renderer_can_follow(session.thread_id, last_event_seq, envelopes);
    let told = run(MapperView::new(session.thread_id, last_event_seq), envelopes)->Some_0.told;
    lemma_shown_notifications_name_the_thread(session.thread_id, Map::empty(), told);
}

/// A turn looks the same in the history as it did when it ended: the completed
/// messages of the user and the agent make the one turn that the renderer was told.
pub proof fn law_history_shows_a_turn_as_it_was_told(
    turn: LiveTurnView,
    event: EventView,
    text: Seq<char>,
)
    requires
        turn.well_formed(),
        turn.phase == LivePhase::Assistant,
    ensures
        history(
            seq![
                MessageView {
                    message_id: turn.user_message_id->Some_0,
                    turn_id: event.turn_id,
                    role: "user"@,
                    text: turn.user_text,
                    completed: true,
                },
                MessageView {
                    message_id: event.message_id,
                    turn_id: event.turn_id,
                    role: "assistant"@,
                    text,
                    completed: true,
                },
            ],
        ) == seq![
            turn_view(event.turn_id, TurnStatus::Completed, finished_items(turn, event, text)),
        ],
{
    reveal_strlit("user");
    reveal_strlit("assistant");
    assert("user"@.len() == 4);
    assert("assistant"@.len() == 9);
    let id = event.turn_id;
    let asked = MessageView {
        message_id: turn.user_message_id->Some_0,
        turn_id: id,
        role: "user"@,
        text: turn.user_text,
        completed: true,
    };
    let answered = MessageView {
        message_id: event.message_id,
        turn_id: id,
        role: "assistant"@,
        text,
        completed: true,
    };
    let none: Seq<MessageView> = Seq::empty();
    let one = none.push(asked);
    let both = one.push(answered);
    assert(seq![asked, answered] =~= both);
    assert(both.drop_last() =~= one);
    assert(one.drop_last() =~= none);
    assert(turn_ids(none) =~= Seq::empty());
    assert(turn_ids(one) =~= seq![id]);
    assert(turn_ids(one)[0] == id);
    assert(turn_ids(both) =~= seq![id]);
    assert(turn_items(none, id) =~= Seq::empty());
    assert(turn_items(one, id) =~= seq![finished_items(turn, event, text)[0]]);
    assert(turn_items(both, id) =~= finished_items(turn, event, text));
    assert(history(both) =~= seq![
        turn_view(id, TurnStatus::Completed, finished_items(turn, event, text)),
    ]);
}

/// Something that the worker takes up: an event of its own, or a message while a
/// command waits for its answer.
pub enum Input {
    Idle(WorkerEventView),
    Waiting { command: CommandView, session_id: Seq<char>, message: Json },
}

/// The mapper after an input and what the renderer is told, or nothing where the
/// worker stops or the command fails.
pub open spec fn take_up(mapper: MapperView, input: Input) -> Option<
    (MapperView, Seq<NotificationView>),
> {
    match input {
        Input::Idle(event) => {
            let (after, action) = worker_step(mapper, event);
            match action {
                WorkerActionView::Continue => Some((after, Seq::empty())),
                WorkerActionView::Tell(told) => Some((after, told)),
                _ => None,
            }
        },
        Input::Waiting { command, session_id, message } => {
            let (after, progress) = command_progress(command, session_id, mapper, message);
            match progress {
                Ok(ProgressView::Told(told)) => Some((after, told)),
                Ok(ProgressView::Started(_)) => Some((after, Seq::empty())),
                _ => None,
            }
        },
    }
}

/// The session after a number of inputs, or nothing where it came to an end before.
pub open spec fn serve(mapper: MapperView, inputs: Seq<Input>) -> Option<Session>
    decreases inputs.len(),
{
    if inputs.len() == 0 {
        Some(Session { mapper, told: Seq::empty() })
    } else {
        match serve(mapper, inputs.drop_last()) {
            Some(before) => match take_up(before.mapper, inputs.last()) {
                Some((after, told)) => Some(Session { mapper: after, told: before.told + told }),
                None => None,
            },
            None => None,
        }
    }
}

/// The envelope in an input, if it has one.
pub open spec fn envelope_in(input: Input) -> Option<Json> {
    match input {
        Input::Idle(WorkerEventView::Received(message)) => Some(message),
        Input::Idle(_) => None,
        Input::Waiting { message, .. } => if message.text_at("type"@) == Some("session.event"@) {
            Some(message)
        } else {
            None
        },
    }
}

/// The envelopes in a number of inputs, in order.
pub open spec fn envelopes_in(inputs: Seq<Input>) -> Seq<Json>
    decreases inputs.len(),
{
    if inputs.len() == 0 {
        Seq::empty()
    } else {
        match envelope_in(inputs.last()) {
            Some(envelope) => envelopes_in(inputs.drop_last()).push(envelope),
            None => envelopes_in(inputs.drop_last()),
        }
    }
}

/// Only the envelopes count: commands and whatever else the worker takes up between
/// them change neither what the mapper knows nor what the renderer is told.
pub proof fn law_only_envelopes_count(mapper: MapperView, inputs: Seq<Input>)
    requires
        serve(mapper, inputs) is Some,
    ensures
        serve(mapper, inputs) == run(mapper, envelopes_in(inputs)),
    decreases inputs.len(),
{
    if inputs.len() > 0 {
        law_only_envelopes_count(mapper, inputs.drop_last());
        let before = serve(mapper, inputs.drop_last())->Some_0;
        let earlier = envelopes_in(inputs.drop_last());
        if let Input::Waiting { command, session_id, message } = inputs.last() {
            if message.text_at("type"@) == Some("session.event"@) {
                law_events_are_mapped_alike_during_a_command(
                    command,
                    session_id,
                    before.mapper,
                    message,
                );
            }
        }
        match envelope_in(inputs.last()) {
            Some(envelope) => {
                assert(earlier.push(envelope).drop_last() =~= earlier);
            },
            None => {
                assert(before.told + Seq::<NotificationView>::empty() =~= before.told);
            },
        }
    }
}

/// The renderer can follow a served session, commands included: what is told from an
/// empty screen on is told in order, and in the end the renderer shows exactly the
/// turns that the mapper knows.
pub proof fn law_renderer_can_follow_commands(
    thread: ThreadId,
    last_event_seq: u64,
    inputs: Seq<Input>,
)
    requires
        serve(MapperView::new(thread, last_event_seq), inputs) is Some,
    ensures
        ({
            let session = serve(MapperView::new(thread, last_event_seq), inputs)->Some_0;
            show_all(thread, Map::empty(), session.told) matches Some(screen) && in_step(
                session.mapper,
                screen,
            )
        }),
{
    law_only_envelopes_count(MapperView::new(thread, last_event_seq), inputs);
    law_renderer_can_follow(thread, last_event_seq, envelopes_in(inputs));
}

} // verus!
