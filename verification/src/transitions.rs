//! What each message of a session does, case by case.
//!
//! Every law here starts from what an envelope is made of and what the mapper knows of
//! the turn, and ends with the whole of what the mapper knows afterwards and the whole of
//! what the renderer is told.

use crate::error::{ErrorKind, ErrorView};
use crate::json::Json;
use crate::live_turn::{
    lemma_event_kinds_differ, take_event, EventView, LivePhase, LiveTurnView,
};
use crate::mapper::{forward, map_event, MapperStep, MapperView};
use crate::protocol::{
    InputView, ItemView, NotificationView, TurnItemsView, TurnStatus, TurnView,
};
use crate::shape::{has, has_member, has_number, has_some_number, has_some_text, has_text};
use crate::thread_id::{uuid_text, ThreadId};
use vstd::prelude::*;

verus! {

/// An event with the fields that every event has.
pub open spec fn is_event(event: EventView) -> bool {
    &&& has_text(event.body, "type"@, event.kind) && event.kind.len() > 0
    &&& has_text(event.body, "turnId"@, event.turn_id) && event.turn_id.len() > 0
    &&& has_text(event.body, "messageId"@, event.message_id) && event.message_id.len() > 0
    &&& has_text(event.body, "commandId"@, event.command_id) && event.command_id.len() > 0
}

/// An envelope with the number that follows the last event.
pub open spec fn is_due(mapper: MapperView, envelope: Json) -> bool {
    &&& mapper.last_event_seq < u64::MAX
    &&& has_text(envelope, "type"@, "session.event"@)
    &&& has_number(envelope, "eventSeq"@, (mapper.last_event_seq + 1) as u64)
}

/// An envelope that brings an event when it is due.
pub open spec fn brings(mapper: MapperView, envelope: Json, event: EventView) -> bool {
    is_due(mapper, envelope) && has(envelope, "event"@, event.body) && is_event(event)
}

/// The turn of an event as the mapper knows it, or a turn of which nothing is known but
/// the command that it answers.
pub open spec fn known_turn(mapper: MapperView, event: EventView) -> LiveTurnView {
    if mapper.turns.contains_key(event.turn_id) {
        mapper.turns[event.turn_id]
    } else {
        LiveTurnView {
            started: false,
            command_id: event.command_id,
            phase: LivePhase::User,
            user_message_id: None,
            user_text: Seq::empty(),
            assistant_message_id: None,
            assistant_text: Seq::empty(),
            assistant_started: false,
        }
    }
}

/// Whether the turn of an event is open to it: it is not over, and it answers the
/// event's command.
pub open spec fn is_open(mapper: MapperView, event: EventView) -> bool {
    !mapper.completed_turns.contains(event.turn_id) && known_turn(mapper, event).command_id
        == event.command_id
}

/// Whether an event may speak of the user's message.
pub open spec fn user_may_speak(mapper: MapperView, event: EventView) -> bool {
    let turn = known_turn(mapper, event);
    turn.phase == LivePhase::User && (turn.user_message_id is None || turn.user_message_id
        == Some(event.message_id))
}

/// Whether an event may speak of the agent's message.
pub open spec fn agent_may_speak(mapper: MapperView, event: EventView) -> bool {
    let turn = known_turn(mapper, event);
    turn.phase == LivePhase::Assistant && (turn.assistant_message_id is None
        || turn.assistant_message_id == Some(event.message_id))
}

/// The thread's name in notifications.
pub open spec fn name_of(thread: ThreadId) -> Seq<char> {
    uuid_text(thread.uuid)
}

/// The start of a turn, told with the first accepted event of it.
pub open spec fn start_of_turn(mapper: MapperView, event: EventView) -> Seq<NotificationView> {
    if known_turn(mapper, event).started {
        Seq::empty()
    } else {
        seq![
            NotificationView::TurnStarted {
                thread_id: name_of(mapper.thread_id),
                turn: TurnView {
                    id: event.turn_id,
                    items: Seq::empty(),
                    items_view: TurnItemsView::Full,
                    status: TurnStatus::InProgress,
                    error: None,
                    started_at: None,
                    completed_at: None,
                    duration_ms: None,
                },
            },
        ]
    }
}

/// A user's message of one text.
pub open spec fn user_message(id: Seq<char>, text: Seq<char>) -> ItemView {
    ItemView::UserMessage {
        id,
        client_id: None,
        content: seq![InputView::Text { text, text_elements: Seq::empty() }],
    }
}

/// An agent's message of one text.
pub open spec fn agent_message(id: Seq<char>, text: Seq<char>) -> ItemView {
    ItemView::AgentMessage { id, text, phase: None, memory_citation: None }
}

/// The start of the agent's message, told with the first accepted event of it.
pub open spec fn start_of_agent_message(mapper: MapperView, event: EventView) -> Seq<
    NotificationView,
> {
    if known_turn(mapper, event).assistant_started {
        Seq::empty()
    } else {
        seq![
            NotificationView::ItemStarted {
                item: agent_message(event.message_id, Seq::empty()),
                thread_id: name_of(mapper.thread_id),
                turn_id: event.turn_id,
                started_at_ms: 0,
            },
        ]
    }
}

/// The mapper moves on to the next number and knows this of the event's turn; nothing
/// else changes.
pub open spec fn moved_on(mapper: MapperView, event: EventView, turn: LiveTurnView) -> MapperView {
    MapperView {
        thread_id: mapper.thread_id,
        last_event_seq: (mapper.last_event_seq + 1) as u64,
        turns: mapper.turns.insert(event.turn_id, turn),
        completed_turns: mapper.completed_turns,
    }
}

/// The mapper stays at its number and knows this of the event's turn; nothing else
/// changes.
pub open spec fn stayed(mapper: MapperView, event: EventView, turn: LiveTurnView) -> MapperView {
    MapperView {
        thread_id: mapper.thread_id,
        last_event_seq: mapper.last_event_seq,
        turns: mapper.turns.insert(event.turn_id, turn),
        completed_turns: mapper.completed_turns,
    }
}

/// A message is refused as invalid data, with this text.
pub open spec fn is_refused(step: MapperStep, message: Seq<char>) -> bool {
    step.told matches Err(error) && error == (ErrorView { kind: ErrorKind::InvalidData, message })
}

/// A message does this and tells this.
pub open spec fn comes_to(
    step: MapperStep,
    mapper: MapperView,
    told: Seq<NotificationView>,
) -> bool {
    step.mapper == mapper && (step.told matches Ok(notifications) && notifications == told)
}

/// A fresh mapper knows of no turn, and its last number is the one that it was given,
/// whatever that is.
pub proof fn law_fresh_mapper_knows_no_turn(
    thread_id: ThreadId,
    last_event_seq: u64,
    turn_id: Seq<char>,
)
    ensures
        MapperView::new(thread_id, last_event_seq).thread_id == thread_id,
        MapperView::new(thread_id, last_event_seq).last_event_seq == last_event_seq,
        !MapperView::new(thread_id, last_event_seq).turns.contains_key(turn_id),
        !MapperView::new(thread_id, last_event_seq).completed_turns.contains(turn_id),
{
}

/// What is no numbered event is refused, and nothing changes; nor does anything change
/// at a number that was taken, or at one that is not due yet.
pub proof fn law_envelopes_are_numbered(mapper: MapperView, envelope: Json, event_seq: u64)
    ensures
        !has_text(envelope, "type"@, "session.event"@) ==> is_refused(
            forward(mapper, envelope),
            "expected session.event envelope"@,
        ),
        has_text(envelope, "type"@, "session.event"@) && !has_some_number(envelope, "eventSeq"@)
            ==> is_refused(forward(mapper, envelope), "session.event omitted eventSeq"@),
        has_text(envelope, "type"@, "session.event"@) && has_number(
            envelope,
            "eventSeq"@,
            event_seq,
        ) && event_seq <= mapper.last_event_seq ==> comes_to(
            forward(mapper, envelope),
            mapper,
            Seq::empty(),
        ),
        has_text(envelope, "type"@, "session.event"@) && has_number(
            envelope,
            "eventSeq"@,
            event_seq,
        ) && event_seq > mapper.last_event_seq + 1 ==> is_refused(
            forward(mapper, envelope),
            "CloudStaff mock event sequence has a gap"@,
        ),
        is_due(mapper, envelope) && !has_member(envelope, "event"@) ==> is_refused(
            forward(mapper, envelope),
            "session.event omitted event"@,
        ),
        !is_due(mapper, envelope) || !has_member(envelope, "event"@) ==> forward(
            mapper,
            envelope,
        ).mapper == mapper,
{
}

/// An event without one of the fields that every event has is refused for the first one
/// that it lacks, and nothing changes.
pub proof fn law_event_fields_are_required(mapper: MapperView, envelope: Json, body: Json)
    requires
        is_due(mapper, envelope),
        has(envelope, "event"@, body),
    ensures
        !has_some_text(body, "type"@) ==> is_refused(
            forward(mapper, envelope),
            "mock message omitted "@ + "type"@,
        ),
        has_some_text(body, "type"@) && !has_some_text(body, "turnId"@) ==> is_refused(
            forward(mapper, envelope),
            "mock message omitted "@ + "turnId"@,
        ),
        has_some_text(body, "type"@) && has_some_text(body, "turnId"@) && !has_some_text(
            body,
            "messageId"@,
        ) ==> is_refused(forward(mapper, envelope), "mock message omitted "@ + "messageId"@),
        has_some_text(body, "type"@) && has_some_text(body, "turnId"@) && has_some_text(
            body,
            "messageId"@,
        ) && !has_some_text(body, "commandId"@) ==> is_refused(
            forward(mapper, envelope),
            "mock message omitted "@ + "commandId"@,
        ),
        !(has_some_text(body, "type"@) && has_some_text(body, "turnId"@) && has_some_text(
            body,
            "messageId"@,
        ) && has_some_text(body, "commandId"@)) ==> forward(mapper, envelope).mapper == mapper,
{
}

/// An event of a turn that is over, or that names another command than its turn answers,
/// is refused, and nothing changes.
pub proof fn law_closed_turns_take_no_event(mapper: MapperView, envelope: Json, event: EventView)
    requires
        brings(mapper, envelope, event),
    ensures
        mapper.completed_turns.contains(event.turn_id) ==> is_refused(
            forward(mapper, envelope),
            "CloudStaff mock emitted an event after turn completion"@,
        ),
        !mapper.completed_turns.contains(event.turn_id) && known_turn(mapper, event).command_id
            != event.command_id ==> is_refused(
            forward(mapper, envelope),
            "CloudStaff mock changed commandId within a turn"@,
        ),
        !is_open(mapper, event) ==> forward(mapper, envelope).mapper == mapper,
{
}

/// A piece of the user's message is added to the pieces before it, under the message's
/// id, and nothing is told but that the turn has started, if it has not been.
pub proof fn law_piece_of_the_users_message(
    mapper: MapperView,
    envelope: Json,
    event: EventView,
    delta: Seq<char>,
)
    requires
        brings(mapper, envelope, event),
        is_open(mapper, event),
        event.kind == "user.message.delta"@,
        user_may_speak(mapper, event),
        has_text(event.body, "delta"@, delta),
        delta.len() > 0,
    ensures
        comes_to(
            forward(mapper, envelope),
            moved_on(
                mapper,
                event,
                (LiveTurnView {
                    started: true,
                    user_message_id: Some(event.message_id),
                    user_text: known_turn(mapper, event).user_text + delta,
                    ..known_turn(mapper, event)
                }),
            ),
            start_of_turn(mapper, event),
        ),
{
    lemma_event_kinds_differ();
    assert(start_of_turn(mapper, event) + Seq::empty() =~= start_of_turn(mapper, event));
}

/// The whole of the user's message takes the place of its pieces; its item begins and
/// ends, with exactly the text of this event, and the agent has the word.
pub proof fn law_whole_of_the_users_message(
    mapper: MapperView,
    envelope: Json,
    event: EventView,
    text: Seq<char>,
)
    requires
        brings(mapper, envelope, event),
        is_open(mapper, event),
        event.kind == "user.message.completed"@,
        user_may_speak(mapper, event),
        has_text(event.body, "text"@, text),
        text.len() > 0,
    ensures
        comes_to(
            forward(mapper, envelope),
            moved_on(
                mapper,
                event,
                (LiveTurnView {
                    started: true,
                    phase: LivePhase::Assistant,
                    user_message_id: Some(event.message_id),
                    user_text: text,
                    ..known_turn(mapper, event)
                }),
            ),
            start_of_turn(mapper, event) + seq![
                NotificationView::ItemStarted {
                    item: user_message(event.message_id, text),
                    thread_id: name_of(mapper.thread_id),
                    turn_id: event.turn_id,
                    started_at_ms: 0,
                },
                NotificationView::ItemCompleted {
                    item: user_message(event.message_id, text),
                    thread_id: name_of(mapper.thread_id),
                    turn_id: event.turn_id,
                    completed_at_ms: 0,
                },
            ],
        ),
{
    lemma_event_kinds_differ();
}

/// A piece of the agent's message is passed on as it is, whatever pieces came before it;
/// the message begins with the first one.
pub proof fn law_piece_of_the_agents_message(
    mapper: MapperView,
    envelope: Json,
    event: EventView,
    delta: Seq<char>,
)
    requires
        brings(mapper, envelope, event),
        is_open(mapper, event),
        event.kind == "assistant.message.delta"@,
        agent_may_speak(mapper, event),
        has_text(event.body, "delta"@, delta),
        delta.len() > 0,
    ensures
        comes_to(
            forward(mapper, envelope),
            moved_on(
                mapper,
                event,
                (LiveTurnView {
                    started: true,
                    assistant_message_id: Some(event.message_id),
                    assistant_text: known_turn(mapper, event).assistant_text + delta,
                    assistant_started: true,
                    ..known_turn(mapper, event)
                }),
            ),
            start_of_turn(mapper, event) + start_of_agent_message(mapper, event) + seq![
                NotificationView::AgentMessageDelta {
                    thread_id: name_of(mapper.thread_id),
                    turn_id: event.turn_id,
                    item_id: event.message_id,
                    delta,
                },
            ],
        ),
{
    lemma_event_kinds_differ();
    let piece = NotificationView::AgentMessageDelta {
        thread_id: name_of(mapper.thread_id),
        turn_id: event.turn_id,
        item_id: event.message_id,
        delta,
    };
    assert(start_of_turn(mapper, event) + start_of_agent_message(mapper, event).push(piece)
        =~= start_of_turn(mapper, event) + start_of_agent_message(mapper, event) + seq![piece]);
}

/// The whole of the agent's message ends its item, with exactly the text of this event,
/// and the turn, which lists the user's message and the agent's; the turn moves from
/// those under way to those that are over.
pub proof fn law_whole_of_the_agents_message(
    mapper: MapperView,
    envelope: Json,
    event: EventView,
    text: Seq<char>,
    user_id: Seq<char>,
)
    requires
        brings(mapper, envelope, event),
        is_open(mapper, event),
        event.kind == "assistant.message.completed"@,
        agent_may_speak(mapper, event),
        has_text(event.body, "text"@, text),
        text.len() > 0,
        match known_turn(mapper, event).user_message_id {
            Some(id) => user_id == id,
            None => user_id == "user-"@ + event.turn_id,
        },
    ensures
        comes_to(
            forward(mapper, envelope),
            (MapperView {
                thread_id: mapper.thread_id,
                last_event_seq: (mapper.last_event_seq + 1) as u64,
                turns: mapper.turns.remove(event.turn_id),
                completed_turns: mapper.completed_turns.insert(event.turn_id),
            }),
            start_of_turn(mapper, event) + start_of_agent_message(mapper, event) + seq![
                NotificationView::ItemCompleted {
                    item: agent_message(event.message_id, text),
                    thread_id: name_of(mapper.thread_id),
                    turn_id: event.turn_id,
                    completed_at_ms: 0,
                },
                NotificationView::TurnCompleted {
                    thread_id: name_of(mapper.thread_id),
                    turn: TurnView {
                        id: event.turn_id,
                        items: seq![
                            user_message(user_id, known_turn(mapper, event).user_text),
                            agent_message(event.message_id, text),
                        ],
                        items_view: TurnItemsView::Full,
                        status: TurnStatus::Completed,
                        error: None,
                        started_at: None,
                        completed_at: None,
                        duration_ms: None,
                    },
                },
            ],
        ),
{
    lemma_event_kinds_differ();
    let told = forward(mapper, envelope).told->Ok_0;
    let start = start_of_turn(mapper, event);
    let begun = start_of_agent_message(mapper, event);
    let n = told.len();
    assert(told =~= start + begun + seq![told[n - 2], told[n - 1]]);
}

/// The turn itself, as the event that ends it leaves it: taken up, with the agent's
/// message under its id, and otherwise as it was.
pub proof fn law_ended_turn_is_left_as_it_was(
    turn: LiveTurnView,
    thread_id: Seq<char>,
    event: EventView,
)
    requires
        event.kind == "assistant.message.completed"@,
        turn.phase == LivePhase::Assistant,
        turn.assistant_message_id is None || turn.assistant_message_id == Some(event.message_id),
    ensures
        take_event(turn, thread_id, event).turn == (LiveTurnView {
            started: true,
            assistant_message_id: Some(event.message_id),
            ..turn
        }),
{
    lemma_event_kinds_differ();
}

/// A message that comes while the other one is due is refused. That the turn was taken
/// up stays.
pub proof fn law_messages_keep_their_order(mapper: MapperView, envelope: Json, event: EventView)
    requires
        brings(mapper, envelope, event),
        is_open(mapper, event),
        ({
            ||| known_turn(mapper, event).phase == LivePhase::Assistant && (event.kind
                == "user.message.delta"@ || event.kind == "user.message.completed"@)
            ||| known_turn(mapper, event).phase == LivePhase::User && (event.kind
                == "assistant.message.delta"@ || event.kind == "assistant.message.completed"@)
        }),
    ensures
        is_refused(forward(mapper, envelope), "CloudStaff mock event arrived out of order"@),
        forward(mapper, envelope).mapper == stayed(
            mapper,
            event,
            (LiveTurnView { started: true, ..known_turn(mapper, event) }),
        ),
{
    lemma_event_kinds_differ();
}

/// A message under another id than it began with is refused. That the turn was taken up
/// stays.
pub proof fn law_messages_keep_their_id(mapper: MapperView, envelope: Json, event: EventView)
    requires
        brings(mapper, envelope, event),
        is_open(mapper, event),
    ensures
        ({
            let turn = known_turn(mapper, event);
            let after = stayed(mapper, event, (LiveTurnView { started: true, ..turn }));
            &&& turn.phase == LivePhase::User && turn.user_message_id is Some
                && turn.user_message_id != Some(event.message_id) && (event.kind
                == "user.message.delta"@ || event.kind == "user.message.completed"@) ==> {
                &&& is_refused(
                    forward(mapper, envelope),
                    "CloudStaff mock changed "@ + "user"@ + " messageId within a turn"@,
                )
                &&& forward(mapper, envelope).mapper == after
            }
            &&& turn.phase == LivePhase::Assistant && turn.assistant_message_id is Some
                && turn.assistant_message_id != Some(event.message_id) && (event.kind
                == "assistant.message.delta"@ || event.kind == "assistant.message.completed"@)
                ==> {
                &&& is_refused(
                    forward(mapper, envelope),
                    "CloudStaff mock changed "@ + "assistant"@ + " messageId within a turn"@,
                )
                &&& forward(mapper, envelope).mapper == after
            }
        }),
{
    lemma_event_kinds_differ();
}

/// A message without its text is refused. That the turn was taken up stays, and so does
/// the message's id, and, for a piece of the agent's message, that it has begun.
pub proof fn law_messages_have_a_text(mapper: MapperView, envelope: Json, event: EventView)
    requires
        brings(mapper, envelope, event),
        is_open(mapper, event),
    ensures
        ({
            let turn = known_turn(mapper, event);
            let of_user = LiveTurnView {
                started: true,
                user_message_id: Some(event.message_id),
                ..turn
            };
            let of_agent = LiveTurnView {
                started: true,
                assistant_message_id: Some(event.message_id),
                ..turn
            };
            &&& event.kind == "user.message.delta"@ && user_may_speak(mapper, event)
                && !has_some_text(event.body, "delta"@) ==> {
                &&& is_refused(forward(mapper, envelope), "mock message omitted "@ + "delta"@)
                &&& forward(mapper, envelope).mapper == stayed(mapper, event, of_user)
            }
            &&& event.kind == "user.message.completed"@ && user_may_speak(mapper, event)
                && !has_some_text(event.body, "text"@) ==> {
                &&& is_refused(forward(mapper, envelope), "mock message omitted "@ + "text"@)
                &&& forward(mapper, envelope).mapper == stayed(mapper, event, of_user)
            }
            &&& event.kind == "assistant.message.delta"@ && agent_may_speak(mapper, event)
                && !has_some_text(event.body, "delta"@) ==> {
                &&& is_refused(forward(mapper, envelope), "mock message omitted "@ + "delta"@)
                &&& forward(mapper, envelope).mapper == stayed(
                    mapper,
                    event,
                    (LiveTurnView { assistant_started: true, ..of_agent }),
                )
            }
            &&& event.kind == "assistant.message.completed"@ && agent_may_speak(mapper, event)
                && !has_some_text(event.body, "text"@) ==> {
                &&& is_refused(forward(mapper, envelope), "mock message omitted "@ + "text"@)
                &&& forward(mapper, envelope).mapper == stayed(mapper, event, of_agent)
            }
        }),
{
    lemma_event_kinds_differ();
}

/// An event of any other kind is refused. That the turn was taken up stays.
pub proof fn law_other_kinds_are_refused(mapper: MapperView, envelope: Json, event: EventView)
    requires
        brings(mapper, envelope, event),
        is_open(mapper, event),
        event.kind != "user.message.delta"@,
        event.kind != "user.message.completed"@,
        event.kind != "assistant.message.delta"@,
        event.kind != "assistant.message.completed"@,
    ensures
        is_refused(forward(mapper, envelope), "unsupported CloudStaff mock event type"@),
        forward(mapper, envelope).mapper == stayed(
            mapper,
            event,
            (LiveTurnView { started: true, ..known_turn(mapper, event) }),
        ),
{
}

/// An event that is due is accepted exactly if its turn is open to it, it may speak of
/// its message, and it has the text that its kind needs.
pub proof fn law_events_are_accepted_exactly_when_allowed(
    mapper: MapperView,
    envelope: Json,
    event: EventView,
)
    requires
        brings(mapper, envelope, event),
    ensures
        forward(mapper, envelope).told is Ok <==> is_open(mapper, event) && ({
            ||| event.kind == "user.message.delta"@ && user_may_speak(mapper, event)
                && has_some_text(event.body, "delta"@)
            ||| event.kind == "user.message.completed"@ && user_may_speak(mapper, event)
                && has_some_text(event.body, "text"@)
            ||| event.kind == "assistant.message.delta"@ && agent_may_speak(mapper, event)
                && has_some_text(event.body, "delta"@)
            ||| event.kind == "assistant.message.completed"@ && agent_may_speak(mapper, event)
                && has_some_text(event.body, "text"@)
        }),
{
    lemma_event_kinds_differ();
}

/// Without its envelope an event does the same, but for the number.
pub proof fn law_envelope_adds_only_the_number(mapper: MapperView, envelope: Json, body: Json)
    requires
        is_due(mapper, envelope),
        has(envelope, "event"@, body),
    ensures
        forward(mapper, envelope).told == map_event(mapper, body).told,
        ({
            let mapped = map_event(mapper, body).mapper;
            let forwarded = forward(mapper, envelope).mapper;
            &&& forwarded.thread_id == mapped.thread_id
            &&& forwarded.turns == mapped.turns
            &&& forwarded.completed_turns == mapped.completed_turns
            &&& mapped.last_event_seq == mapper.last_event_seq
        }),
{
}

} // verus!
