//! What a renderer that appends pieces ends up with.
//!
//! A renderer shows an agent's message as it grows by appending each piece that it is
//! told. These laws say what it then shows, in terms of what the session sent.

use crate::json::Json;
use crate::laws::law_mapper_stays_well_formed;
use crate::live_turn::{lemma_event_kinds_differ, EventView};
use crate::mapper::{forward, MapperView};
use crate::protocol::NotificationView;
use crate::renderer::run;
use crate::shape::has_text;
use crate::transitions::{
    brings, is_due, known_turn, law_envelopes_are_numbered,
    law_event_fields_are_required, law_events_are_accepted_exactly_when_allowed,
    law_piece_of_the_agents_message, law_piece_of_the_users_message,
    law_whole_of_the_agents_message, law_whole_of_the_users_message,
};
use vstd::prelude::*;

verus! {

/// The pieces of the agent's message of a turn that were told, one after the other.
pub open spec fn pieces_told(told: Seq<NotificationView>, turn_id: Seq<char>) -> Seq<char>
    decreases told.len(),
{
    if told.len() == 0 {
        Seq::empty()
    } else {
        let before = pieces_told(told.drop_last(), turn_id);
        match told.last() {
            NotificationView::AgentMessageDelta { turn_id: of, delta, .. } => if of == turn_id {
                before + delta
            } else {
                before
            },
            _ => before,
        }
    }
}

/// The text of an object under a key, or nothing.
pub open spec fn text_in(value: Json, key: Seq<char>) -> Seq<char> {
    match value {
        Json::Object(members) => match members[key] {
            Json::Text(text) => text,
            _ => Seq::empty(),
        },
        _ => Seq::empty(),
    }
}

/// The event in an envelope.
pub open spec fn body_of(envelope: Json) -> Json {
    envelope->Object_0["event"@]
}

/// Whether an envelope holds a piece of the agent's message of a turn.
pub open spec fn is_piece_of(envelope: Json, turn_id: Seq<char>) -> bool {
    has_text(body_of(envelope), "type"@, "assistant.message.delta"@) && has_text(
        body_of(envelope),
        "turnId"@,
        turn_id,
    )
}

/// The piece of the agent's message of a turn that an envelope holds, if it is due, or
/// nothing.
pub open spec fn piece_in(mapper: MapperView, envelope: Json, turn_id: Seq<char>) -> Seq<char> {
    if is_due(mapper, envelope) && is_piece_of(envelope, turn_id) {
        text_in(body_of(envelope), "delta"@)
    } else {
        Seq::empty()
    }
}

/// The pieces of the agent's message of a turn that a session took, one after the other:
/// those with a number after the last one that was taken before.
pub open spec fn pieces_sent(
    mapper: MapperView,
    envelopes: Seq<Json>,
    turn_id: Seq<char>,
) -> Seq<char>
    decreases envelopes.len(),
{
    if envelopes.len() == 0 {
        Seq::empty()
    } else {
        let earlier = envelopes.drop_last();
        pieces_sent(mapper, earlier, turn_id) + piece_in(
            run(mapper, earlier)->Some_0.mapper,
            envelopes.last(),
            turn_id,
        )
    }
}

proof fn lemma_pieces_told_concat(
    first: Seq<NotificationView>,
    second: Seq<NotificationView>,
    turn_id: Seq<char>,
)
    ensures
        pieces_told(first + second, turn_id) == pieces_told(first, turn_id) + pieces_told(
            second,
            turn_id,
        ),
    decreases second.len(),
{
    if second.len() == 0 {
        assert(first + second =~= first);
        assert(pieces_told(first, turn_id) + pieces_told(second, turn_id) =~= pieces_told(
            first,
            turn_id,
        ));
    } else {
        lemma_pieces_told_concat(first, second.drop_last(), turn_id);
        assert((first + second).drop_last() =~= first + second.drop_last());
        assert((first + second).last() == second.last());
        assert(pieces_told(first + second, turn_id) =~= pieces_told(first, turn_id)
            + pieces_told(second, turn_id));
    }
}

proof fn lemma_no_pieces_told(told: Seq<NotificationView>, turn_id: Seq<char>)
    requires
        forall|i: int| 0 <= i < told.len() ==> !(#[trigger] told[i] is AgentMessageDelta),
    ensures
        pieces_told(told, turn_id) == Seq::<char>::empty(),
    decreases told.len(),
{
    if told.len() > 0 {
        assert forall|i: int| 0 <= i < told.len() - 1 implies !(#[trigger] told.drop_last()[i]
            is AgentMessageDelta) by {
            assert(told.drop_last()[i] == told[i]);
        }
        lemma_no_pieces_told(told.drop_last(), turn_id);
        assert(!(told[told.len() - 1] is AgentMessageDelta));
    }
}

/// An accepted envelope tells the piece that it holds, exactly, and no other.
pub proof fn law_envelope_tells_its_own_piece(
    mapper: MapperView,
    envelope: Json,
    turn_id: Seq<char>,
)
    requires
        mapper.well_formed(),
        forward(mapper, envelope).told is Ok,
    ensures
        pieces_told(forward(mapper, envelope).told->Ok_0, turn_id) == piece_in(
            mapper,
            envelope,
            turn_id,
        ),
{
    lemma_event_kinds_differ();
    let told = forward(mapper, envelope).told->Ok_0;
    if is_due(mapper, envelope) {
        let body = body_of(envelope);
        law_envelopes_are_numbered(mapper, envelope, 0);
        law_event_fields_are_required(mapper, envelope, body);
        let event = EventView {
            kind: text_in(body, "type"@),
            turn_id: text_in(body, "turnId"@),
            message_id: text_in(body, "messageId"@),
            command_id: text_in(body, "commandId"@),
            body,
        };
        assert(brings(mapper, envelope, event));
        law_events_are_accepted_exactly_when_allowed(mapper, envelope, event);
        let delta = text_in(body, "delta"@);
        let text = text_in(body, "text"@);
        if event.kind == "assistant.message.delta"@ {
            law_piece_of_the_agents_message(mapper, envelope, event, delta);
            let before = told.drop_last();
            assert forall|i: int| 0 <= i < before.len() implies !(#[trigger] before[i]
                is AgentMessageDelta) by {
                assert(before[i] == told[i]);
            }
            lemma_no_pieces_told(before, turn_id);
            assert(Seq::<char>::empty() + delta =~= delta);
        } else {
            if event.kind == "user.message.delta"@ {
                law_piece_of_the_users_message(mapper, envelope, event, delta);
            } else if event.kind == "user.message.completed"@ {
                law_whole_of_the_users_message(mapper, envelope, event, text);
            } else {
                law_whole_of_the_agents_message(
                    mapper,
                    envelope,
                    event,
                    text,
                    known_turn(mapper, event).user_message_id->Some_0,
                );
            }
            lemma_no_pieces_told(told, turn_id);
        }
    } else {
        assert(told.len() == 0);
    }
}

proof fn lemma_run_stays_well_formed(mapper: MapperView, envelopes: Seq<Json>)
    requires
        mapper.well_formed(),
        run(mapper, envelopes) is Some,
    ensures
        run(mapper, envelopes)->Some_0.mapper.well_formed(),
    decreases envelopes.len(),
{
    if envelopes.len() > 0 {
        lemma_run_stays_well_formed(mapper, envelopes.drop_last());
        law_mapper_stays_well_formed(
            run(mapper, envelopes.drop_last())->Some_0.mapper,
            envelopes.last(),
        );
    }
}

/// Appended in order, the pieces that a session tells of a turn are the pieces that it
/// was sent of it: nothing is lost, repeated or changed.
pub proof fn law_pieces_are_told_as_they_were_sent(
    mapper: MapperView,
    envelopes: Seq<Json>,
    turn_id: Seq<char>,
)
    requires
        mapper.well_formed(),
        run(mapper, envelopes) is Some,
    ensures
        pieces_told(run(mapper, envelopes)->Some_0.told, turn_id) == pieces_sent(
            mapper,
            envelopes,
            turn_id,
        ),
    decreases envelopes.len(),
{
    if envelopes.len() > 0 {
        let earlier = envelopes.drop_last();
        law_pieces_are_told_as_they_were_sent(mapper, earlier, turn_id);
        lemma_run_stays_well_formed(mapper, earlier);
        let before = run(mapper, earlier)->Some_0;
        let more = forward(before.mapper, envelopes.last()).told->Ok_0;
        lemma_pieces_told_concat(before.told, more, turn_id);
        law_envelope_tells_its_own_piece(before.mapper, envelopes.last(), turn_id);
    }
}

} // verus!
