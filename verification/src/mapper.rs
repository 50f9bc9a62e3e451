//! From session events to what the renderer is told.
//!
//! Events are numbered. The mapper takes each number once and in order: what it
//! has already seen is passed over, and a number that comes too early is refused.

use crate::error::{invalid_data, protocol_error, result_view, BackendError, ErrorView};
use crate::json::{json, member, text_at, unsigned_at, Json};
use crate::live_turn::{
    ends_turn, event_of, lemma_event_kinds_differ, read_event, take_event, EventView, LiveTurn,
    LiveTurnView,
};
use crate::pieces::{law_envelope_tells_its_own_piece, piece_in, pieces_told};
use crate::protocol::{NotificationView, ServerNotification};
use crate::thread_id::ThreadId;
use serde_json::Value;
use vstd::hash_map::StringHashMap;
use vstd::hash_set::StringHashSet;
use vstd::prelude::*;

verus! {

/// Follows the events of one session.
pub struct EventMapper {
    thread_id: ThreadId,
    last_event_seq: u64,
    turns: StringHashMap<LiveTurn>,
    completed_turns: StringHashSet,
}

/// What a mapper knows.
#[verifier::ext_equal]
pub struct MapperView {
    /// The thread that the renderer shows.
    pub thread_id: ThreadId,
    /// The number of the last event that was taken.
    pub last_event_seq: u64,
    /// The turns under way, by id.
    pub turns: Map<Seq<char>, LiveTurnView>,
    /// The ids of the turns that are over.
    pub completed_turns: Set<Seq<char>>,
}

impl View for EventMapper {
    type V = MapperView;

    closed spec fn view(&self) -> MapperView {
        MapperView {
            thread_id: self.thread_id,
            last_event_seq: self.last_event_seq,
            turns: self.turns@.map_values(|turn: LiveTurn| turn@),
            completed_turns: self.completed_turns@,
        }
    }
}

impl MapperView {
    /// A mapper that has seen no turn.
    pub open spec fn new(thread_id: ThreadId, last_event_seq: u64) -> MapperView {
        MapperView {
            thread_id,
            last_event_seq,
            turns: Map::empty(),
            completed_turns: Set::empty(),
        }
    }

    /// What holds of every mapper: no turn is both under way and over, and each
    /// turn under way is well formed.
    pub open spec fn well_formed(self) -> bool {
        forall|id: Seq<char>| #[trigger]
            self.turns.contains_key(id) ==> !self.completed_turns.contains(id)
                && self.turns[id].well_formed()
    }

    /// The turn that an event speaks of, as it stands before the event.
    pub open spec fn turn_for(self, event: EventView) -> LiveTurnView {
        if self.turns.contains_key(event.turn_id) {
            self.turns[event.turn_id]
        } else {
            LiveTurnView::new(event.command_id)
        }
    }
}

/// A mapper after a message, and what the renderer is told.
#[verifier::ext_equal]
pub struct MapperStep {
    pub mapper: MapperView,
    pub told: Result<Seq<NotificationView>, ErrorView>,
}

/// What an event does to a mapper. A turn that is over takes no more events, a
/// turn keeps the command that it answers, and the event that ends a turn moves
/// it from those under way to those that are over.
pub open spec fn map_event_of(mapper: MapperView, event: EventView) -> MapperStep {
    if mapper.completed_turns.contains(event.turn_id) {
        MapperStep {
            mapper,
            told: Err(
                protocol_error("CloudStaff mock emitted an event after turn completion"@),
            ),
        }
    } else if mapper.turn_for(event).command_id != event.command_id {
        MapperStep {
            mapper,
            told: Err(protocol_error("CloudStaff mock changed commandId within a turn"@)),
        }
    } else {
        let step = take_event(mapper.turn_for(event), mapper.thread_id.text(), event);
        let after = if ends_turn(event.kind) && step.told is Ok {
            MapperView {
                turns: mapper.turns.remove(event.turn_id),
                completed_turns: mapper.completed_turns.insert(event.turn_id),
                ..mapper
            }
        } else {
            MapperView { turns: mapper.turns.insert(event.turn_id, step.turn), ..mapper }
        };
        MapperStep { mapper: after, told: step.told }
    }
}

/// What the JSON form of an event does to a mapper.
pub open spec fn map_event(mapper: MapperView, body: Json) -> MapperStep {
    match event_of(body) {
        Ok(event) => map_event_of(mapper, event),
        Err(error) => MapperStep { mapper, told: Err(error) },
    }
}

/// What a numbered event does to a mapper.
pub open spec fn forward(mapper: MapperView, envelope: Json) -> MapperStep {
    if envelope.text_at("type"@) != Some("session.event"@) {
        MapperStep { mapper, told: Err(protocol_error("expected session.event envelope"@)) }
    } else {
        match envelope.unsigned_at("eventSeq"@) {
            None => MapperStep {
                mapper,
                told: Err(protocol_error("session.event omitted eventSeq"@)),
            },
            Some(event_seq) => if event_seq <= mapper.last_event_seq {
                MapperStep { mapper, told: Ok(Seq::empty()) }
            } else if event_seq != mapper.last_event_seq + 1 {
                MapperStep {
                    mapper,
                    told: Err(protocol_error("CloudStaff mock event sequence has a gap"@)),
                }
            } else {
                match envelope.get("event"@) {
                    None => MapperStep {
                        mapper,
                        told: Err(protocol_error("session.event omitted event"@)),
                    },
                    Some(body) => {
                        let step = map_event(mapper, body);
                        if step.told is Ok {
                            MapperStep {
                                mapper: MapperView { last_event_seq: event_seq, ..step.mapper },
                                told: step.told,
                            }
                        } else {
                            step
                        }
                    },
                }
            },
        }
    }
}

/// A mapper stays well formed, whatever event it gets.
pub proof fn lemma_map_event_keeps_well_formed(mapper: MapperView, body: Json)
    requires
        mapper.well_formed(),
    ensures
        map_event(mapper, body).mapper.well_formed(),
{
    lemma_event_kinds_differ();
    let after = map_event(mapper, body).mapper;
    if after != mapper {
        let event = event_of(body)->Ok_0;
        assert forall|id: Seq<char>| #[trigger] after.turns.contains_key(id) implies {
            &&& !after.completed_turns.contains(id)
            &&& after.turns[id].well_formed()
        } by {
            if id != event.turn_id {
                assert(mapper.turns.contains_key(id));
            } else {
                let turn = mapper.turn_for(event);
                assert(mapper.turns.contains_key(id) ==> turn.well_formed());
            }
        }
    }
}

impl EventMapper {
    /// A mapper that has seen no turn and takes the event after `last_event_seq`
    /// next.
    pub fn new(thread_id: ThreadId, last_event_seq: u64) -> (res: EventMapper)
        ensures
            res@ == MapperView::new(thread_id, last_event_seq),
            res@.well_formed(),
    {
        let mapper = EventMapper {
            thread_id,
            last_event_seq,
            turns: StringHashMap::new(),
            completed_turns: StringHashSet::new(),
        };
        assert(mapper@ =~= MapperView::new(thread_id, last_event_seq));
        mapper
    }

    /// The number of the last event that was taken.
    pub fn last_event_seq(&self) -> (res: u64)
        ensures
            res == self@.last_event_seq,
    {
        self.last_event_seq
    }

    /// Takes an event: changes the mapper and says what the renderer is told.
    pub fn map_event(&mut self, body: &Value) -> (res: Result<
        Vec<ServerNotification>,
        BackendError,
    >)
        ensures
            final(self)@ == map_event(old(self)@, json(*body)).mapper,
            result_view(res) == map_event(old(self)@, json(*body)).told,
            old(self)@.well_formed() ==> final(self)@.well_formed(),
    {
        proof {
            if self@.well_formed() {
                lemma_map_event_keeps_well_formed(self@, json(*body));
            }
        }
        let event = match read_event(body) {
            Ok(event) => event,
            Err(error) => return Err(error),
        };
        if self.completed_turns.contains(event.turn_id) {
            return Err(invalid_data("CloudStaff mock emitted an event after turn completion"));
        }
        let thread_id = self.thread_id.to_string();
        let mut live = match self.turns.get(event.turn_id) {
            Some(live) => live.copy(),
            None => LiveTurn::new(event.command_id.to_owned()),
        };
        assert(live@ == self@.turn_for(event.deep_view()));
        if *live.command_id() != *event.command_id {
            return Err(invalid_data("CloudStaff mock changed commandId within a turn"));
        }
        let result = live.take_event(thread_id.as_str(), &event);
        let ended = result.is_ok() && *event.kind == *"assistant.message.completed";
        if ended {
            self.turns.remove(event.turn_id);
            self.completed_turns.insert(event.turn_id.to_owned());
        } else {
            self.turns.insert(event.turn_id.to_owned(), live);
        }
        assert(self@ =~= map_event(old(self)@, json(*body)).mapper);
        result
    }

    /// Takes a numbered event. An event that was taken before changes nothing and
    /// tells nothing; an event that does not follow the last one is refused.
    pub fn forward_envelope(&mut self, envelope: &Value) -> (res: Result<
        Vec<ServerNotification>,
        BackendError,
    >)
        ensures
            final(self)@ == forward(old(self)@, json(*envelope)).mapper,
            result_view(res) == forward(old(self)@, json(*envelope)).told,
            old(self)@.well_formed() ==> final(self)@.well_formed(),
            old(self)@.well_formed() ==> (res matches Ok(told) ==> forall|turn_id: Seq<char>|
                #[trigger] pieces_told(told.deep_view(), turn_id) == piece_in(
                    old(self)@,
                    json(*envelope),
                    turn_id,
                )),
    {
        proof {
            if self@.well_formed() && forward(self@, json(*envelope)).told is Ok {
                assert forall|turn_id: Seq<char>| #[trigger]
                    pieces_told(forward(self@, json(*envelope)).told->Ok_0, turn_id) == piece_in(
                        self@,
                        json(*envelope),
                        turn_id,
                    ) by {
                    law_envelope_tells_its_own_piece(self@, json(*envelope), turn_id);
                }
            }
        }
        let is_event = match text_at(envelope, "type") {
            Some(kind) => *kind == *"session.event",
            None => false,
        };
        if !is_event {
            return Err(invalid_data("expected session.event envelope"));
        }
        let event_seq: u64 = match unsigned_at(envelope, "eventSeq") {
            Some(event_seq) => event_seq,
            None => return Err(invalid_data("session.event omitted eventSeq")),
        };
        if event_seq <= self.last_event_seq {
            let told: Vec<ServerNotification> = Vec::new();
            assert(told.deep_view() =~= Seq::<NotificationView>::empty());
            return Ok(told);
        }
        if event_seq != self.last_event_seq + 1 {
            return Err(invalid_data("CloudStaff mock event sequence has a gap"));
        }
        let body = match member(envelope, "event") {
            Some(body) => body,
            None => return Err(invalid_data("session.event omitted event")),
        };
        match self.map_event(body) {
            Ok(told) => {
                let ghost mapped = self@;
                self.last_event_seq = event_seq;
                assert(mapped.well_formed() ==> self@.well_formed()) by {
                    assert(self@.turns == mapped.turns);
                    assert(self@.completed_turns == mapped.completed_turns);
                }
                assert(told.deep_view() == forward(old(self)@, json(*envelope)).told->Ok_0);
                Ok(told)
            },
            Err(error) => Err(error),
        }
    }
}

} // verus!
