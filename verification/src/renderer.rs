//! What a renderer may count on.
//!
//! A renderer keeps one entry per turn and knows in which order a turn is told.
//! This module states that order as a model of the renderer, and proves that the
//! notifications of a session, from its first event on, always respect it.

use crate::json::Json;
use crate::live_turn::{
    advance, agent_opening, ends_turn, event_of, item_started, lemma_event_kinds_differ,
    turn_opening, EventView, LivePhase, LiveTurnView,
};
use crate::mapper::{forward, map_event, map_event_of, MapperView};
use crate::protocol::{
    agent_item_view, turn_view, user_item_view, ItemView, NotificationView, TurnStatus,
};
use crate::thread_id::ThreadId;
use vstd::prelude::*;

verus! {

/// How far the telling of a turn has come.
#[verifier::ext_equal]
pub enum Stage {
    /// The turn has begun.
    Begun,
    /// The user's message has begun.
    UserBegun(ItemView),
    /// The user's message is there.
    UserShown(ItemView),
    /// The agent's message, under the given id, is growing.
    AgentGrowing { user: ItemView, agent_id: Seq<char> },
    /// Both messages are there.
    AgentShown { user: ItemView, agent: ItemView },
    /// The turn is over.
    Over,
}

/// The turns that a renderer shows, by id.
pub type Screen = Map<Seq<char>, Stage>;

/// The stage of a turn, if it has begun.
pub open spec fn stage(screen: Screen, turn_id: Seq<char>) -> Option<Stage> {
    if screen.contains_key(turn_id) {
        Some(screen[turn_id])
    } else {
        None
    }
}

/// The next stage of a turn after a notification about it, or nothing where the
/// notification comes out of turn.
pub open spec fn next_stage(before: Option<Stage>, told: NotificationView) -> Option<Stage> {
    match (told, before) {
        (NotificationView::TurnStarted { turn, .. }, None) => if turn == turn_view(
            turn.id,
            TurnStatus::InProgress,
            Seq::empty(),
        ) {
            Some(Stage::Begun)
        } else {
            None
        },
        (NotificationView::ItemStarted { item, .. }, Some(Stage::Begun)) => if item
            is UserMessage {
            Some(Stage::UserBegun(item))
        } else {
            None
        },
        (NotificationView::ItemCompleted { item, .. }, Some(Stage::UserBegun(begun))) => if item
            == begun {
            Some(Stage::UserShown(item))
        } else {
            None
        },
        (NotificationView::ItemStarted { item, .. }, Some(Stage::UserShown(user))) => match item {
            ItemView::AgentMessage { id, text, .. } => if text.len() == 0 {
                Some(Stage::AgentGrowing { user, agent_id: id })
            } else {
                None
            },
            _ => None,
        },
        (
            NotificationView::AgentMessageDelta { item_id, .. },
            Some(Stage::AgentGrowing { user, agent_id }),
        ) => if item_id == agent_id {
            before
        } else {
            None
        },
        (
            NotificationView::ItemCompleted { item, .. },
            Some(Stage::AgentGrowing { user, agent_id }),
        ) => match item {
            ItemView::AgentMessage { id, .. } => if id == agent_id {
                Some(Stage::AgentShown { user, agent: item })
            } else {
                None
            },
            _ => None,
        },
        (
            NotificationView::TurnCompleted { turn, .. },
            Some(Stage::AgentShown { user, agent }),
        ) => if turn == turn_view(turn.id, TurnStatus::Completed, seq![user, agent]) {
            Some(Stage::Over)
        } else {
            None
        },
        _ => None,
    }
}

/// The turn that a notification is about.
pub open spec fn turn_of(told: NotificationView) -> Seq<char> {
    match told {
        NotificationView::TurnStarted { turn, .. } => turn.id,
        NotificationView::ItemStarted { turn_id, .. } => turn_id,
        NotificationView::ItemCompleted { turn_id, .. } => turn_id,
        NotificationView::AgentMessageDelta { turn_id, .. } => turn_id,
        NotificationView::TurnCompleted { turn, .. } => turn.id,
    }
}

/// The thread that a notification names.
pub open spec fn thread_of_notification(told: NotificationView) -> Seq<char> {
    match told {
        NotificationView::TurnStarted { thread_id, .. } => thread_id,
        NotificationView::ItemStarted { thread_id, .. } => thread_id,
        NotificationView::ItemCompleted { thread_id, .. } => thread_id,
        NotificationView::AgentMessageDelta { thread_id, .. } => thread_id,
        NotificationView::TurnCompleted { thread_id, .. } => thread_id,
    }
}

/// The screen of a thread after one notification, or nothing where the
/// notification comes out of turn or names another thread.
pub open spec fn show(thread: ThreadId, screen: Screen, told: NotificationView) -> Option<Screen> {
    if thread_of_notification(told) != thread.text() {
        None
    } else {
        match next_stage(stage(screen, turn_of(told)), told) {
            Some(after) => Some(screen.insert(turn_of(told), after)),
            None => None,
        }
    }
}

/// The screen after a number of notifications.
pub open spec fn show_all(thread: ThreadId, screen: Screen, told: Seq<NotificationView>) -> Option<
    Screen,
>
    decreases told.len(),
{
    if told.len() == 0 {
        Some(screen)
    } else {
        match show_all(thread, screen, told.drop_last()) {
            Some(before) => show(thread, before, told.last()),
            None => None,
        }
    }
}

/// A session that went well so far: its mapper and everything that was told.
#[verifier::ext_equal]
pub struct Session {
    pub mapper: MapperView,
    pub told: Seq<NotificationView>,
}

/// The session after a number of envelopes, or nothing where one was refused.
pub open spec fn run(mapper: MapperView, envelopes: Seq<Json>) -> Option<Session>
    decreases envelopes.len(),
{
    if envelopes.len() == 0 {
        Some(Session { mapper, told: Seq::empty() })
    } else {
        match run(mapper, envelopes.drop_last()) {
            Some(before) => {
                let step = forward(before.mapper, envelopes.last());
                match step.told {
                    Ok(more) => Some(Session { mapper: step.mapper, told: before.told + more }),
                    Err(_) => None,
                }
            },
            None => None,
        }
    }
}

/// The user's message of a turn whose user has spoken.
pub open spec fn shown_user(turn: LiveTurnView) -> ItemView {
    user_item_view(turn.user_message_id->0, turn.user_text)
}

/// The stage at which the renderer is with a turn under way.
pub open spec fn stage_of(turn: LiveTurnView) -> Stage {
    if turn.phase == LivePhase::User {
        Stage::Begun
    } else if !turn.assistant_started {
        Stage::UserShown(shown_user(turn))
    } else {
        Stage::AgentGrowing { user: shown_user(turn), agent_id: turn.assistant_message_id->0 }
    }
}

/// The renderer shows exactly the turns that the mapper knows, each at its stage.
pub open spec fn in_step(mapper: MapperView, screen: Screen) -> bool {
    &&& mapper.well_formed()
    &&& forall|id: Seq<char>| #[trigger]
        stage(screen, id) == if mapper.completed_turns.contains(id) {
            Some(Stage::Over)
        } else if mapper.turns.contains_key(id) {
            Some(stage_of(mapper.turns[id]))
        } else {
            None
        }
}

proof fn lemma_show_push(
    thread: ThreadId,
    screen: Screen,
    told: Seq<NotificationView>,
    last: NotificationView,
)
    ensures
        show_all(thread, screen, told.push(last)) == (match show_all(thread, screen, told) {
            Some(before) => show(thread, before, last),
            None => None,
        }),
{
    assert(told.push(last).drop_last() =~= told);
}

proof fn lemma_show_concat(
    thread: ThreadId,
    screen: Screen,
    first: Seq<NotificationView>,
    second: Seq<NotificationView>,
)
    ensures
        show_all(thread, screen, first + second) == (match show_all(thread, screen, first) {
            Some(between) => show_all(thread, between, second),
            None => None,
        }),
    decreases second.len(),
{
    if second.len() == 0 {
        assert(first + second =~= first);
    } else {
        lemma_show_concat(thread, screen, first, second.drop_last());
        assert((first + second).drop_last() =~= first + second.drop_last());
        assert((first + second).last() == second.last());
    }
}

/// An accepted event takes the renderer from the stage of the turn before it to
/// the stage after it.
proof fn lemma_event_in_step(mapper: MapperView, event: EventView, screen: Screen)
    requires
        in_step(mapper, screen),
        map_event_of(mapper, event).told is Ok,
    ensures
        show_all(mapper.thread_id, screen, map_event_of(mapper, event).told->Ok_0) matches Some(
            after,
        ) && in_step(map_event_of(mapper, event).mapper, after),
{
    lemma_event_kinds_differ();
    let thread = mapper.thread_id;
    let name = thread.text();
    let id = event.turn_id;
    let turn = mapper.turn_for(event);
    let live = LiveTurnView { started: true, ..turn };
    let opening = turn_opening(turn, name, id);
    let rest = advance(live, name, event).told->Ok_0;
    let told = map_event_of(mapper, event).told->Ok_0;
    assert(told == opening + rest);
    lemma_show_concat(thread, screen, opening, rest);
    // The opening brings a new turn to its first stage and leaves any other turn.
    let opened = screen.insert(id, stage_of(live));
    assert(show_all(thread, screen, opening) == Some(opened)) by {
        if turn.started {
            assert(opened =~= screen);
        } else {
            lemma_show_push(
                thread,
                screen,
                Seq::empty(),
                NotificationView::TurnStarted {
                    thread_id: name,
                    turn: turn_view(id, TurnStatus::InProgress, Seq::empty()),
                },
            );
            assert(opening =~= Seq::empty().push(
                NotificationView::TurnStarted {
                    thread_id: name,
                    turn: turn_view(id, TurnStatus::InProgress, Seq::empty()),
                },
            ));
        }
    }
    let after_mapper = map_event_of(mapper, event).mapper;
    let agent_told = agent_opening(live, name, event);
    let agent_begun = item_started(name, id, agent_item_view(event.message_id, Seq::empty()));
    let growing = opened.insert(
        id,
        Stage::AgentGrowing { user: shown_user(live), agent_id: event.message_id },
    );
    if event.kind == "assistant.message.delta"@ || ends_turn(event.kind) {
        assert(live.phase == LivePhase::Assistant);
        assert(show_all(thread, opened, agent_told) == Some(growing)) by {
            if live.assistant_started {
                assert(growing =~= opened);
            } else {
                lemma_show_push(thread, opened, Seq::empty(), agent_begun);
                assert(agent_told =~= Seq::empty().push(agent_begun));
            }
        }
    }
    let after = if event.kind == "user.message.delta"@ {
        opened
    } else if event.kind == "user.message.completed"@ {
        let item = rest[0]->ItemStarted_item;
        lemma_show_push(thread, opened, Seq::empty(), rest[0]);
        lemma_show_push(thread, opened, Seq::empty().push(rest[0]), rest[1]);
        assert(rest =~= Seq::empty().push(rest[0]).push(rest[1]));
        opened.insert(id, Stage::UserBegun(item)).insert(id, Stage::UserShown(item))
    } else if event.kind == "assistant.message.delta"@ {
        lemma_show_push(thread, opened, agent_told, rest.last());
        assert(rest =~= agent_told.push(rest.last()));
        growing.insert(id, growing[id])
    } else {
        let item = rest[rest.len() - 2]->ItemCompleted_item;
        lemma_show_push(thread, opened, agent_told, rest[rest.len() - 2]);
        lemma_show_push(thread, opened, agent_told.push(rest[rest.len() - 2]), rest.last());
        assert(rest =~= agent_told.push(rest[rest.len() - 2]).push(rest.last()));
        growing.insert(id, Stage::AgentShown { user: shown_user(live), agent: item }).insert(
            id,
            Stage::Over,
        )
    };
    assert(show_all(thread, screen, told) == Some(after));
    assert forall|other: Seq<char>| #[trigger]
        stage(after, other) == if after_mapper.completed_turns.contains(other) {
            Some(Stage::Over)
        } else if after_mapper.turns.contains_key(other) {
            Some(stage_of(after_mapper.turns[other]))
        } else {
            None
        } by {
        if other != id {
            assert(stage(after, other) == stage(screen, other));
        }
    }
    assert(after_mapper.well_formed());
}

/// An accepted envelope keeps the renderer in step.
proof fn lemma_envelope_in_step(mapper: MapperView, envelope: Json, screen: Screen)
    requires
        in_step(mapper, screen),
        forward(mapper, envelope).told is Ok,
    ensures
        forward(mapper, envelope).mapper.thread_id == mapper.thread_id,
        show_all(mapper.thread_id, screen, forward(mapper, envelope).told->Ok_0) matches Some(after)
            && in_step(forward(mapper, envelope).mapper, after),
{
    if envelope.unsigned_at("eventSeq"@)->0 > mapper.last_event_seq {
        let body = envelope.get("event"@)->0;
        lemma_event_in_step(mapper, event_of(body)->Ok_0, screen);
        let step = map_event(mapper, body);
        let after = show_all(mapper.thread_id, screen, step.told->Ok_0)->0;
        assert(in_step(step.mapper, after));
        let numbered = forward(mapper, envelope).mapper;
        assert(numbered.turns == step.mapper.turns);
        assert(numbered.completed_turns == step.mapper.completed_turns);
        assert(in_step(numbered, after));
    }
}

/// The renderer can follow every session: from an empty screen, what a fresh mapper
/// tells about a number of envelopes, none of which it refused, is told in order.
/// Each turn begins once, before anything else is said of it; the user's message
/// begins and ends before the agent's begins; each piece of the agent's message
/// goes to the message that is growing; and the turn ends last, listing the two
/// messages that were shown. All of it names the session's thread, and in the end
/// the renderer shows exactly the turns that the mapper knows.
pub proof fn law_renderer_can_follow(
    thread: ThreadId,
    last_event_seq: u64,
    envelopes: Seq<Json>,
)
    requires
        run(MapperView::new(thread, last_event_seq), envelopes) is Some,
    ensures
        ({
            let session = run(MapperView::new(thread, last_event_seq), envelopes)->Some_0;
            &&& session.mapper.thread_id == thread
            &&& show_all(thread, Map::empty(), session.told) matches Some(screen) && in_step(
                session.mapper,
                screen,
            )
        }),
    decreases envelopes.len(),
{
    let fresh = MapperView::new(thread, last_event_seq);
    if envelopes.len() == 0 {
        assert forall|id: Seq<char>| #[trigger]
            stage(Map::empty(), id) == None::<Stage> by {}
        assert(in_step(fresh, Map::empty()));
    } else {
        law_renderer_can_follow(thread, last_event_seq, envelopes.drop_last());
        let before = run(fresh, envelopes.drop_last())->Some_0;
        let screen = show_all(thread, Map::empty(), before.told)->Some_0;
        lemma_envelope_in_step(before.mapper, envelopes.last(), screen);
        lemma_show_concat(
            thread,
            Map::empty(),
            before.told,
            forward(before.mapper, envelopes.last()).told->Ok_0,
        );
    }
}

} // verus!
