//! Turns that run side by side do not disturb each other.
//!
//! The events of several turns may be interleaved in one session. What the renderer is
//! told of a turn is what the events of that turn alone would have told.

use crate::json::Json;
use crate::live_turn::{event_of, lemma_event_kinds_differ, EventView};
use crate::mapper::{forward, map_event_of, MapperView};
use crate::protocol::NotificationView;
use crate::renderer::{run, turn_of, Session};
use vstd::prelude::*;

verus! {

/// The session after a number of events, or nothing where one was refused.
pub open spec fn run_events(mapper: MapperView, events: Seq<EventView>) -> Option<Session>
    decreases events.len(),
{
    if events.len() == 0 {
        Some(Session { mapper, told: Seq::empty() })
    } else {
        match run_events(mapper, events.drop_last()) {
            Some(before) => {
                let step = map_event_of(before.mapper, events.last());
                match step.told {
                    Ok(more) => Some(Session { mapper: step.mapper, told: before.told + more }),
                    Err(_) => None,
                }
            },
            None => None,
        }
    }
}

/// The event in an envelope.
pub open spec fn event_in(envelope: Json) -> EventView {
    event_of(envelope.get("event"@)->Some_0)->Ok_0
}

/// The events that a session takes from a number of envelopes, none of which it refuses:
/// those that it has not seen before.
pub open spec fn taken_events(mapper: MapperView, envelopes: Seq<Json>) -> Seq<EventView>
    decreases envelopes.len(),
{
    if envelopes.len() == 0 {
        Seq::empty()
    } else {
        let before = taken_events(mapper, envelopes.drop_last());
        let last_event_seq = run(
            mapper,
            envelopes.drop_last(),
        )->Some_0.mapper.last_event_seq;
        if envelopes.last().unsigned_at("eventSeq"@)->Some_0 > last_event_seq {
            before.push(event_in(envelopes.last()))
        } else {
            before
        }
    }
}

/// The events of one turn.
pub open spec fn events_of_turn(events: Seq<EventView>, turn_id: Seq<char>) -> Seq<EventView> {
    events.filter(|event: EventView| event.turn_id == turn_id)
}

/// What is told of one turn.
pub open spec fn told_of_turn(told: Seq<NotificationView>, turn_id: Seq<char>) -> Seq<
    NotificationView,
> {
    told.filter(|notification: NotificationView| turn_of(notification) == turn_id)
}

/// Two mappers that know the same of one turn.
pub open spec fn agree_on(one: MapperView, other: MapperView, turn_id: Seq<char>) -> bool {
    &&& one.thread_id == other.thread_id
    &&& one.completed_turns.contains(turn_id) == other.completed_turns.contains(turn_id)
    &&& one.turns.contains_key(turn_id) == other.turns.contains_key(turn_id)
    &&& one.turns.contains_key(turn_id) ==> one.turns[turn_id] == other.turns[turn_id]
}

/// A session is the run of the events that it takes.
proof fn lemma_run_takes_events(mapper: MapperView, envelopes: Seq<Json>)
    requires
        run(mapper, envelopes) is Some,
    ensures
        run_events(mapper, taken_events(mapper, envelopes)) matches Some(session) && {
            &&& session.told == run(mapper, envelopes)->Some_0.told
            &&& session.mapper == (MapperView {
                last_event_seq: mapper.last_event_seq,
                ..run(mapper, envelopes)->Some_0.mapper
            })
        },
    decreases envelopes.len(),
{
    if envelopes.len() > 0 {
        let earlier = envelopes.drop_last();
        lemma_run_takes_events(mapper, earlier);
        let before = run(mapper, earlier)->Some_0;
        let events = taken_events(mapper, earlier);
        let envelope = envelopes.last();
        if envelope.unsigned_at("eventSeq"@)->Some_0 > before.mapper.last_event_seq {
            assert(events.push(event_in(envelope)).drop_last() =~= events);
        } else {
            assert(forward(before.mapper, envelope).told->Ok_0.len() == 0);
            assert(before.told + forward(before.mapper, envelope).told->Ok_0 =~= before.told);
        }
    }
}

/// Everything that an event tells is about its own turn.
proof fn lemma_event_tells_of_its_turn(mapper: MapperView, event: EventView)
    requires
        map_event_of(mapper, event).told is Ok,
    ensures
        ({
            let told = map_event_of(mapper, event).told->Ok_0;
            forall|i: int| 0 <= i < told.len() ==> turn_of(#[trigger] told[i]) == event.turn_id
        }),
{
    lemma_event_kinds_differ();
}

proof fn lemma_filter_of_one_turn(told: Seq<NotificationView>, own: Seq<char>, turn_id: Seq<char>)
    requires
        forall|i: int| 0 <= i < told.len() ==> turn_of(#[trigger] told[i]) == own,
    ensures
        told_of_turn(told, turn_id) == if own == turn_id {
            told
        } else {
            Seq::empty()
        },
    decreases told.len(),
{
    reveal(Seq::filter);
    if told.len() > 0 {
        lemma_filter_of_one_turn(told.drop_last(), own, turn_id);
        assert(turn_of(told[told.len() - 1]) == own);
        assert(told.drop_last().push(told.last()) =~= told);
    }
}

/// What an event does depends only on what the mapper knows of its turn.
proof fn lemma_event_sees_its_turn(one: MapperView, other: MapperView, event: EventView)
    requires
        agree_on(one, other, event.turn_id),
    ensures
        map_event_of(one, event).told == map_event_of(other, event).told,
        agree_on(
            map_event_of(one, event).mapper,
            map_event_of(other, event).mapper,
            event.turn_id,
        ),
{
    assert(one.turn_for(event) == other.turn_for(event));
}

/// An event leaves what the mapper knows of any other turn.
proof fn lemma_event_leaves_other_turns(mapper: MapperView, event: EventView, turn_id: Seq<char>)
    requires
        turn_id != event.turn_id,
    ensures
        agree_on(mapper, map_event_of(mapper, event).mapper, turn_id),
{
}

proof fn lemma_events_of_turn_last(events: Seq<EventView>, turn_id: Seq<char>)
    requires
        events.len() > 0,
    ensures
        events_of_turn(events, turn_id) == if events.last().turn_id == turn_id {
            events_of_turn(events.drop_last(), turn_id).push(events.last())
        } else {
            events_of_turn(events.drop_last(), turn_id)
        },
{
    reveal(Seq::filter);
}

proof fn lemma_events_tell_independently(
    mapper: MapperView,
    events: Seq<EventView>,
    turn_id: Seq<char>,
)
    requires
        run_events(mapper, events) is Some,
    ensures
        run_events(mapper, events_of_turn(events, turn_id)) matches Some(alone) && {
            &&& alone.told == told_of_turn(run_events(mapper, events)->Some_0.told, turn_id)
            &&& agree_on(alone.mapper, run_events(mapper, events)->Some_0.mapper, turn_id)
        },
    decreases events.len(),
{
    if events.len() == 0 {
        reveal(Seq::filter);
    } else {
        let earlier = events.drop_last();
        let event = events.last();
        lemma_events_tell_independently(mapper, earlier, turn_id);
        lemma_events_of_turn_last(events, turn_id);
        let before = run_events(mapper, earlier)->Some_0;
        let own = events_of_turn(earlier, turn_id);
        let alone = run_events(mapper, own)->Some_0;
        let more = map_event_of(before.mapper, event).told->Ok_0;
        lemma_event_tells_of_its_turn(before.mapper, event);
        lemma_filter_of_one_turn(more, event.turn_id, turn_id);
        Seq::filter_distributes_over_add(
            before.told,
            more,
            |notification: NotificationView| turn_of(notification) == turn_id,
        );
        if event.turn_id == turn_id {
            lemma_event_sees_its_turn(alone.mapper, before.mapper, event);
            assert(own.push(event).drop_last() =~= own);
        } else {
            lemma_event_leaves_other_turns(before.mapper, event, turn_id);
            assert(alone.told + Seq::<NotificationView>::empty() =~= alone.told);
        }
    }
}

/// What a session tells of a turn is what the events of that turn alone would have told,
/// in the same order, and the turn ends up in the same state.
pub proof fn law_turns_are_told_independently(
    mapper: MapperView,
    envelopes: Seq<Json>,
    turn_id: Seq<char>,
)
    requires
        run(mapper, envelopes) is Some,
    ensures
        ({
            let session = run(mapper, envelopes)->Some_0;
            let own = events_of_turn(taken_events(mapper, envelopes), turn_id);
            run_events(mapper, own) matches Some(alone) && {
                &&& alone.told == told_of_turn(session.told, turn_id)
                &&& agree_on(alone.mapper, session.mapper, turn_id)
            }
        }),
{
    lemma_run_takes_events(mapper, envelopes);
    lemma_events_tell_independently(mapper, taken_events(mapper, envelopes), turn_id);
}

} // verus!
