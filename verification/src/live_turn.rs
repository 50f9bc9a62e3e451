//! A turn while its events stream in.
//!
//! The user's message comes first, piece by piece and then whole; the agent's
//! message follows in the same way and closes the turn. Each message keeps one id.
//! Anything else is refused.

use crate::error::{invalid_data, protocol_error, result_view, BackendError, ErrorView};
use crate::json::{json, Json};
use crate::protocol::{
    agent_item, agent_item_view, turn, turn_view, user_item, user_item_view,
    AgentMessageDeltaNotification, ItemCompletedNotification, ItemStartedNotification, ItemView,
    NotificationView, ServerNotification, ThreadItem, TurnCompletedNotification,
    TurnStartedNotification, TurnStatus,
};
use crate::text::joined;
use crate::wire::{required_str, required_text};
use serde_json::Value;
use vstd::prelude::*;

verus! {

/// Whose message the turn is receiving.
#[derive(Clone, Copy, Debug, PartialEq, Eq, Structural)]
pub enum LivePhase {
    User,
    Assistant,
}

/// A turn that has not been completed.
#[derive(Debug)]
pub struct LiveTurn {
    started: bool,
    command_id: String,
    phase: LivePhase,
    user_message_id: Option<String>,
    user_text: String,
    assistant_message_id: Option<String>,
    assistant_text: String,
    assistant_started: bool,
}

/// A [`LiveTurn`] with its texts as sequences of characters.
#[verifier::ext_equal]
pub struct LiveTurnView {
    /// Whether an event of the turn has been taken up.
    pub started: bool,
    /// The command that the turn answers.
    pub command_id: Seq<char>,
    pub phase: LivePhase,
    pub user_message_id: Option<Seq<char>>,
    /// The user's message as far as it is known.
    pub user_text: Seq<char>,
    pub assistant_message_id: Option<Seq<char>>,
    /// The pieces of the agent's message.
    pub assistant_text: Seq<char>,
    /// Whether the agent's message has been announced.
    pub assistant_started: bool,
}

impl View for LiveTurn {
    type V = LiveTurnView;

    closed spec fn view(&self) -> LiveTurnView {
        LiveTurnView {
            started: self.started,
            command_id: self.command_id@,
            phase: self.phase,
            user_message_id: self.user_message_id.deep_view(),
            user_text: self.user_text@,
            assistant_message_id: self.assistant_message_id.deep_view(),
            assistant_text: self.assistant_text@,
            assistant_started: self.assistant_started,
        }
    }
}

impl LiveTurnView {
    /// A turn of which nothing has been seen.
    pub open spec fn new(command_id: Seq<char>) -> LiveTurnView {
        LiveTurnView {
            started: false,
            command_id,
            phase: LivePhase::User,
            user_message_id: None,
            user_text: Seq::empty(),
            assistant_message_id: None,
            assistant_text: Seq::empty(),
            assistant_started: false,
        }
    }

    /// What holds of every turn that is under way: the agent speaks only after the
    /// user's message is there, with an id and a text, and what has been announced has
    /// an id.
    pub open spec fn well_formed(self) -> bool {
        &&& self.started
        &&& self.phase == LivePhase::Assistant ==> {
            &&& self.user_message_id is Some
            &&& self.user_text.len() > 0
        }
        &&& self.phase == LivePhase::User ==> {
            &&& self.assistant_message_id is None
            &&& self.assistant_text.len() == 0
        }
        &&& self.assistant_started ==> self.assistant_message_id is Some
    }
}

/// The fields that every event has, and the event itself.
#[verifier::ext_equal]
pub struct EventView {
    pub kind: Seq<char>,
    pub turn_id: Seq<char>,
    pub message_id: Seq<char>,
    pub command_id: Seq<char>,
    pub body: Json,
}

/// The fields that every event has, and the event itself.
pub struct Event<'a> {
    pub kind: &'a str,
    pub turn_id: &'a str,
    pub message_id: &'a str,
    pub command_id: &'a str,
    pub body: &'a Value,
}

impl<'a> DeepView for Event<'a> {
    type V = EventView;

    open spec fn deep_view(&self) -> EventView {
        EventView {
            kind: self.kind@,
            turn_id: self.turn_id@,
            message_id: self.message_id@,
            command_id: self.command_id@,
            body: json(*self.body),
        }
    }
}

/// Reads the fields that every event has; the first one missing is the error.
pub open spec fn event_of(body: Json) -> Result<EventView, ErrorView> {
    match (
        required_text(body, "type"@),
        required_text(body, "turnId"@),
        required_text(body, "messageId"@),
        required_text(body, "commandId"@),
    ) {
        (Err(error), _, _, _) => Err(error),
        (_, Err(error), _, _) => Err(error),
        (_, _, Err(error), _) => Err(error),
        (_, _, _, Err(error)) => Err(error),
        (Ok(kind), Ok(turn_id), Ok(message_id), Ok(command_id)) => Ok(
            EventView { kind, turn_id, message_id, command_id, body },
        ),
    }
}

/// Reads the fields that every event has.
pub fn read_event<'a>(body: &'a Value) -> (res: Result<Event<'a>, BackendError>)
    ensures
        result_view(res) == event_of(json(*body)),
{
    let kind = match required_str(body, "type") {
        Ok(kind) => kind,
        Err(error) => return Err(error),
    };
    let turn_id = match required_str(body, "turnId") {
        Ok(turn_id) => turn_id,
        Err(error) => return Err(error),
    };
    let message_id = match required_str(body, "messageId") {
        Ok(message_id) => message_id,
        Err(error) => return Err(error),
    };
    let command_id = match required_str(body, "commandId") {
        Ok(command_id) => command_id,
        Err(error) => return Err(error),
    };
    Ok(Event { kind, turn_id, message_id, command_id, body })
}

/// The error for a message in the wrong phase.
pub open spec fn out_of_order() -> ErrorView {
    protocol_error("CloudStaff mock event arrived out of order"@)
}

/// Accepts an event only in its own phase.
pub fn require_phase(actual: LivePhase, expected: LivePhase) -> (res: Result<(), BackendError>)
    ensures
        match res {
            Ok(_) => actual == expected,
            Err(error) => actual != expected && error.deep_view() == out_of_order(),
        },
{
    if actual == expected {
        Ok(())
    } else {
        Err(invalid_data("CloudStaff mock event arrived out of order"))
    }
}

/// The error for a message whose id is not the one that it began with.
pub open spec fn changed_id(role: Seq<char>) -> ErrorView {
    protocol_error("CloudStaff mock changed "@ + role + " messageId within a turn"@)
}

/// Accepts the first id of a message, and from then on no other.
pub fn require_stable_id(current: &mut Option<String>, incoming: &str, role: &str) -> (res: Result<
    (),
    BackendError,
>)
    ensures
        match res {
            Ok(_) => {
                &&& old(current).deep_view() is None || old(current).deep_view() == Some(incoming@)
                &&& final(current).deep_view() == Some(incoming@)
            },
            Err(error) => {
                &&& old(current).deep_view() is Some && old(current).deep_view() != Some(incoming@)
                &&& *final(current) == *old(current)
                &&& error.deep_view() == changed_id(role@)
            },
        },
{
    let known = match &*current {
        Some(known) => Some(*known.as_str() == *incoming),
        None => None,
    };
    match known {
        Some(true) => Ok(()),
        Some(false) => Err(
            invalid_data(
                joined("CloudStaff mock changed ", role).concat(
                    " messageId within a turn",
                ).as_str(),
            ),
        ),
        None => {
            *current = Some(incoming.to_owned());
            Ok(())
        },
    }
}

/// A turn after an event, and what the renderer is told; on an error nothing is
/// told, but what the turn took up before the error stays.
#[verifier::ext_equal]
pub struct Step {
    pub turn: LiveTurnView,
    pub told: Result<Seq<NotificationView>, ErrorView>,
}

/// The turn with the id of the user's message fixed, if the event may speak of
/// that message.
pub open spec fn for_user(turn: LiveTurnView, event: EventView) -> Result<LiveTurnView, ErrorView> {
    if turn.phase != LivePhase::User {
        Err(out_of_order())
    } else if turn.user_message_id is Some && turn.user_message_id != Some(event.message_id) {
        Err(changed_id("user"@))
    } else {
        Ok(LiveTurnView { user_message_id: Some(event.message_id), ..turn })
    }
}

/// The turn with the id of the agent's message fixed, if the event may speak of
/// that message.
pub open spec fn for_assistant(turn: LiveTurnView, event: EventView) -> Result<
    LiveTurnView,
    ErrorView,
> {
    if turn.phase != LivePhase::Assistant {
        Err(out_of_order())
    } else if turn.assistant_message_id is Some && turn.assistant_message_id != Some(
        event.message_id,
    ) {
        Err(changed_id("assistant"@))
    } else {
        Ok(LiveTurnView { assistant_message_id: Some(event.message_id), ..turn })
    }
}

pub open spec fn item_started(
    thread_id: Seq<char>,
    turn_id: Seq<char>,
    item: ItemView,
) -> NotificationView {
    NotificationView::ItemStarted { item, thread_id, turn_id, started_at_ms: 0 }
}

pub open spec fn item_completed(
    thread_id: Seq<char>,
    turn_id: Seq<char>,
    item: ItemView,
) -> NotificationView {
    NotificationView::ItemCompleted { item, thread_id, turn_id, completed_at_ms: 0 }
}

/// The announcement of the agent's message, unless it has been made.
pub open spec fn agent_opening(
    turn: LiveTurnView,
    thread_id: Seq<char>,
    event: EventView,
) -> Seq<NotificationView> {
    if turn.assistant_started {
        Seq::empty()
    } else {
        seq![
            item_started(
                thread_id,
                event.turn_id,
                agent_item_view(event.message_id, Seq::empty()),
            ),
        ]
    }
}

/// A piece of the user's message: it is kept, and nothing is told.
pub open spec fn user_delta(turn: LiveTurnView, event: EventView) -> Step {
    match for_user(turn, event) {
        Err(error) => Step { turn, told: Err(error) },
        Ok(named) => match required_text(event.body, "delta"@) {
            Err(error) => Step { turn: named, told: Err(error) },
            Ok(delta) => Step {
                turn: LiveTurnView { user_text: named.user_text + delta, ..named },
                told: Ok(Seq::empty()),
            },
        },
    }
}

/// The whole of the user's message: it takes the place of the pieces, the item
/// begins and ends, and the agent has the word.
pub open spec fn user_completed(
    turn: LiveTurnView,
    thread_id: Seq<char>,
    event: EventView,
) -> Step {
    match for_user(turn, event) {
        Err(error) => Step { turn, told: Err(error) },
        Ok(named) => match required_text(event.body, "text"@) {
            Err(error) => Step { turn: named, told: Err(error) },
            Ok(text) => {
                let item = user_item_view(event.message_id, text);
                Step {
                    turn: LiveTurnView { user_text: text, phase: LivePhase::Assistant, ..named },
                    told: Ok(
                        seq![
                            item_started(thread_id, event.turn_id, item),
                            item_completed(thread_id, event.turn_id, item),
                        ],
                    ),
                }
            },
        },
    }
}

/// A piece of the agent's message: the item begins with the first one, and each
/// one is passed on.
pub open spec fn assistant_delta(
    turn: LiveTurnView,
    thread_id: Seq<char>,
    event: EventView,
) -> Step {
    match for_assistant(turn, event) {
        Err(error) => Step { turn, told: Err(error) },
        Ok(named) => {
            let announced = LiveTurnView { assistant_started: true, ..named };
            match required_text(event.body, "delta"@) {
                Err(error) => Step { turn: announced, told: Err(error) },
                Ok(delta) => Step {
                    turn: LiveTurnView {
                        assistant_text: announced.assistant_text + delta,
                        ..announced
                    },
                    told: Ok(
                        agent_opening(turn, thread_id, event).push(
                            NotificationView::AgentMessageDelta {
                                thread_id,
                                turn_id: event.turn_id,
                                item_id: event.message_id,
                                delta,
                            },
                        ),
                    ),
                },
            }
        },
    }
}

/// The id under which the user's message is listed when the turn is over.
pub open spec fn listed_user_id(turn: LiveTurnView, turn_id: Seq<char>) -> Seq<char> {
    match turn.user_message_id {
        Some(id) => id,
        None => "user-"@ + turn_id,
    }
}

/// The two messages of a turn that is over.
pub open spec fn finished_items(turn: LiveTurnView, event: EventView, text: Seq<char>) -> Seq<
    ItemView,
> {
    seq![
        user_item_view(listed_user_id(turn, event.turn_id), turn.user_text),
        agent_item_view(event.message_id, text),
    ]
}

/// The whole of the agent's message: its item ends, after it has begun, and the
/// turn is over.
pub open spec fn assistant_completed(
    turn: LiveTurnView,
    thread_id: Seq<char>,
    event: EventView,
) -> Step {
    match for_assistant(turn, event) {
        Err(error) => Step { turn, told: Err(error) },
        Ok(named) => match required_text(event.body, "text"@) {
            Err(error) => Step { turn: named, told: Err(error) },
            Ok(text) => Step {
                turn: named,
                told: Ok(
                    agent_opening(turn, thread_id, event).push(
                        item_completed(
                            thread_id,
                            event.turn_id,
                            agent_item_view(event.message_id, text),
                        ),
                    ).push(
                        NotificationView::TurnCompleted {
                            thread_id,
                            turn: turn_view(
                                event.turn_id,
                                TurnStatus::Completed,
                                finished_items(turn, event, text),
                            ),
                        },
                    ),
                ),
            },
        },
    }
}

/// Whether an event of this kind ends its turn.
pub open spec fn ends_turn(kind: Seq<char>) -> bool {
    kind == "assistant.message.completed"@
}

/// No two kinds of event have the same name.
pub proof fn lemma_event_kinds_differ()
    ensures
        "user.message.delta"@ != "user.message.completed"@,
        "user.message.delta"@ != "assistant.message.delta"@,
        "user.message.completed"@ != "assistant.message.delta"@,
        !ends_turn("user.message.delta"@),
        !ends_turn("user.message.completed"@),
        !ends_turn("assistant.message.delta"@),
{
    reveal_strlit("user.message.delta");
    reveal_strlit("user.message.completed");
    reveal_strlit("assistant.message.delta");
    reveal_strlit("assistant.message.completed");
    assert("user.message.delta"@.len() == 18);
    assert("user.message.completed"@.len() == 22);
    assert("assistant.message.delta"@.len() == 23);
    assert("assistant.message.completed"@.len() == 27);
}

/// The announcement of the turn, unless it has been made.
pub open spec fn turn_opening(turn: LiveTurnView, thread_id: Seq<char>, turn_id: Seq<char>) -> Seq<
    NotificationView,
> {
    if turn.started {
        Seq::empty()
    } else {
        seq![
            NotificationView::TurnStarted {
                thread_id,
                turn: turn_view(turn_id, TurnStatus::InProgress, Seq::empty()),
            },
        ]
    }
}

/// What an event does to a turn that has been taken up.
pub open spec fn advance(turn: LiveTurnView, thread_id: Seq<char>, event: EventView) -> Step {
    if event.kind == "user.message.delta"@ {
        user_delta(turn, event)
    } else if event.kind == "user.message.completed"@ {
        user_completed(turn, thread_id, event)
    } else if event.kind == "assistant.message.delta"@ {
        assistant_delta(turn, thread_id, event)
    } else if ends_turn(event.kind) {
        assistant_completed(turn, thread_id, event)
    } else {
        Step { turn, told: Err(protocol_error("unsupported CloudStaff mock event type"@)) }
    }
}

/// What an event does to a turn: the first one takes the turn up.
pub open spec fn take_event(turn: LiveTurnView, thread_id: Seq<char>, event: EventView) -> Step {
    let step = advance(LiveTurnView { started: true, ..turn }, thread_id, event);
    Step {
        turn: step.turn,
        told: match step.told {
            Ok(told) => Ok(turn_opening(turn, thread_id, event.turn_id) + told),
            Err(error) => Err(error),
        },
    }
}

fn item_started_notification(thread_id: &str, turn_id: &str, item: ThreadItem) -> (res:
    ServerNotification)
    ensures
        res.deep_view() == item_started(thread_id@, turn_id@, item.deep_view()),
{
    ServerNotification::ItemStarted(
        ItemStartedNotification {
            item,
            thread_id: thread_id.to_owned(),
            turn_id: turn_id.to_owned(),
            started_at_ms: 0,
        },
    )
}

fn item_completed_notification(thread_id: &str, turn_id: &str, item: ThreadItem) -> (res:
    ServerNotification)
    ensures
        res.deep_view() == item_completed(thread_id@, turn_id@, item.deep_view()),
{
    ServerNotification::ItemCompleted(
        ItemCompletedNotification {
            item,
            thread_id: thread_id.to_owned(),
            turn_id: turn_id.to_owned(),
            completed_at_ms: 0,
        },
    )
}

impl LiveTurn {
    /// A turn of which nothing has been seen.
    pub fn new(command_id: String) -> (res: LiveTurn)
        ensures
            res@ == LiveTurnView::new(command_id@),
    {
        LiveTurn {
            started: false,
            command_id,
            phase: LivePhase::User,
            user_message_id: None,
            user_text: String::new(),
            assistant_message_id: None,
            assistant_text: String::new(),
            assistant_started: false,
        }
    }

    /// A second turn in the same state.
    pub fn copy(&self) -> (res: LiveTurn)
        ensures
            res@ == self@,
    {
        LiveTurn {
            started: self.started,
            command_id: self.command_id.clone(),
            phase: self.phase,
            user_message_id: self.user_message_id.clone(),
            user_text: self.user_text.clone(),
            assistant_message_id: self.assistant_message_id.clone(),
            assistant_text: self.assistant_text.clone(),
            assistant_started: self.assistant_started,
        }
    }

    /// The command that the turn answers.
    pub fn command_id(&self) -> (res: &str)
        ensures
            res@ == self@.command_id,
    {
        self.command_id.as_str()
    }

    fn fix_user_id(&mut self, event: &Event) -> (res: Result<(), BackendError>)
        ensures
            match (res, for_user(old(self)@, event.deep_view())) {
                (Ok(_), Ok(named)) => final(self)@ == named,
                (Err(error), Err(expected)) => final(self)@ == old(self)@ && error.deep_view()
                    == expected,
                _ => false,
            },
    {
        match require_phase(self.phase, LivePhase::User) {
            Ok(_) => require_stable_id(&mut self.user_message_id, event.message_id, "user"),
            Err(error) => Err(error),
        }
    }

    fn fix_assistant_id(&mut self, event: &Event) -> (res: Result<(), BackendError>)
        ensures
            match (res, for_assistant(old(self)@, event.deep_view())) {
                (Ok(_), Ok(named)) => final(self)@ == named,
                (Err(error), Err(expected)) => final(self)@ == old(self)@ && error.deep_view()
                    == expected,
                _ => false,
            },
    {
        match require_phase(self.phase, LivePhase::Assistant) {
            Ok(_) => require_stable_id(
                &mut self.assistant_message_id,
                event.message_id,
                "assistant",
            ),
            Err(error) => Err(error),
        }
    }

    fn user_delta(&mut self, event: &Event) -> (res: Result<
        Vec<ServerNotification>,
        BackendError,
    >)
        ensures
            final(self)@ == user_delta(old(self)@, event.deep_view()).turn,
            result_view(res) == user_delta(old(self)@, event.deep_view()).told,
    {
        match self.fix_user_id(event) {
            Ok(_) => {},
            Err(error) => return Err(error),
        }
        match required_str(event.body, "delta") {
            Ok(delta) => {
                self.user_text.append(delta);
                let told: Vec<ServerNotification> = Vec::new();
                assert(told.deep_view() =~= Seq::<NotificationView>::empty());
                Ok(told)
            },
            Err(error) => Err(error),
        }
    }

    fn user_completed(&mut self, thread_id: &str, event: &Event) -> (res: Result<
        Vec<ServerNotification>,
        BackendError,
    >)
        ensures
            final(self)@ == user_completed(old(self)@, thread_id@, event.deep_view()).turn,
            result_view(res) == user_completed(old(self)@, thread_id@, event.deep_view()).told,
    {
        match self.fix_user_id(event) {
            Ok(_) => {},
            Err(error) => return Err(error),
        }
        match required_str(event.body, "text") {
            Ok(text) => {
                self.user_text = text.to_owned();
                self.phase = LivePhase::Assistant;
                let mut told: Vec<ServerNotification> = Vec::new();
                told.push(
                    item_started_notification(
                        thread_id,
                        event.turn_id,
                        user_item(event.message_id.to_owned(), text.to_owned()),
                    ),
                );
                told.push(
                    item_completed_notification(
                        thread_id,
                        event.turn_id,
                        user_item(event.message_id.to_owned(), text.to_owned()),
                    ),
                );
                assert(told.deep_view() =~= user_completed(
                    old(self)@,
                    thread_id@,
                    event.deep_view(),
                ).told->Ok_0);
                Ok(told)
            },
            Err(error) => Err(error),
        }
    }

    fn agent_opening(&self, thread_id: &str, event: &Event) -> (res: Vec<ServerNotification>)
        ensures
            res.deep_view() == agent_opening(self@, thread_id@, event.deep_view()),
    {
        let mut told: Vec<ServerNotification> = Vec::new();
        if !self.assistant_started {
            told.push(
                item_started_notification(
                    thread_id,
                    event.turn_id,
                    agent_item(event.message_id.to_owned(), String::new()),
                ),
            );
        }
        assert(told.deep_view() =~= agent_opening(self@, thread_id@, event.deep_view()));
        told
    }

    fn assistant_delta(&mut self, thread_id: &str, event: &Event) -> (res: Result<
        Vec<ServerNotification>,
        BackendError,
    >)
        ensures
            final(self)@ == assistant_delta(old(self)@, thread_id@, event.deep_view()).turn,
            result_view(res) == assistant_delta(old(self)@, thread_id@, event.deep_view()).told,
    {
        match self.fix_assistant_id(event) {
            Ok(_) => {},
            Err(error) => return Err(error),
        }
        let mut told = self.agent_opening(thread_id, event);
        self.assistant_started = true;
        match required_str(event.body, "delta") {
            Ok(delta) => {
                self.assistant_text.append(delta);
                told.push(
                    ServerNotification::AgentMessageDelta(
                        AgentMessageDeltaNotification {
                            thread_id: thread_id.to_owned(),
                            turn_id: event.turn_id.to_owned(),
                            item_id: event.message_id.to_owned(),
                            delta: delta.to_owned(),
                        },
                    ),
                );
                assert(told.deep_view() =~= assistant_delta(
                    old(self)@,
                    thread_id@,
                    event.deep_view(),
                ).told->Ok_0);
                Ok(told)
            },
            Err(error) => Err(error),
        }
    }

    fn assistant_completed(&mut self, thread_id: &str, event: &Event) -> (res: Result<
        Vec<ServerNotification>,
        BackendError,
    >)
        ensures
            final(self)@ == assistant_completed(old(self)@, thread_id@, event.deep_view()).turn,
            result_view(res) == assistant_completed(
                old(self)@,
                thread_id@,
                event.deep_view(),
            ).told,
    {
        match self.fix_assistant_id(event) {
            Ok(_) => {},
            Err(error) => return Err(error),
        }
        let text = match required_str(event.body, "text") {
            Ok(text) => text,
            Err(error) => return Err(error),
        };
        let mut told = self.agent_opening(thread_id, event);
        told.push(
            item_completed_notification(
                thread_id,
                event.turn_id,
                agent_item(event.message_id.to_owned(), text.to_owned()),
            ),
        );
        let user_id = match &self.user_message_id {
            Some(id) => id.clone(),
            None => joined("user-", event.turn_id),
        };
        let mut items: Vec<ThreadItem> = Vec::new();
        items.push(user_item(user_id, self.user_text.clone()));
        items.push(agent_item(event.message_id.to_owned(), text.to_owned()));
        assert(items.deep_view() =~= finished_items(old(self)@, event.deep_view(), text@));
        told.push(
            ServerNotification::TurnCompleted(
                TurnCompletedNotification {
                    thread_id: thread_id.to_owned(),
                    turn: turn(event.turn_id, TurnStatus::Completed, items),
                },
            ),
        );
        assert(told.deep_view() =~= assistant_completed(
            old(self)@,
            thread_id@,
            event.deep_view(),
        ).told->Ok_0);
        Ok(told)
    }

    fn advance(&mut self, thread_id: &str, event: &Event) -> (res: Result<
        Vec<ServerNotification>,
        BackendError,
    >)
        ensures
            final(self)@ == advance(old(self)@, thread_id@, event.deep_view()).turn,
            result_view(res) == advance(old(self)@, thread_id@, event.deep_view()).told,
    {
        if *event.kind == *"user.message.delta" {
            self.user_delta(event)
        } else if *event.kind == *"user.message.completed" {
            self.user_completed(thread_id, event)
        } else if *event.kind == *"assistant.message.delta" {
            self.assistant_delta(thread_id, event)
        } else if *event.kind == *"assistant.message.completed" {
            self.assistant_completed(thread_id, event)
        } else {
            Err(invalid_data("unsupported CloudStaff mock event type"))
        }
    }

    /// Takes an event of the turn: changes the turn and says what the renderer is
    /// told.
    pub fn take_event(&mut self, thread_id: &str, event: &Event) -> (res: Result<
        Vec<ServerNotification>,
        BackendError,
    >)
        ensures
            final(self)@ == take_event(old(self)@, thread_id@, event.deep_view()).turn,
            result_view(res) == take_event(old(self)@, thread_id@, event.deep_view()).told,
    {
        let mut told: Vec<ServerNotification> = Vec::new();
        if !self.started {
            self.started = true;
            told.push(
                ServerNotification::TurnStarted(
                    TurnStartedNotification {
                        thread_id: thread_id.to_owned(),
                        turn: turn(event.turn_id, TurnStatus::InProgress, Vec::new()),
                    },
                ),
            );
            assert(told.deep_view()[0]->TurnStarted_turn.items =~= Seq::<ItemView>::empty());
        }
        assert(told.deep_view() =~= turn_opening(old(self)@, thread_id@, event.turn_id@));
        match self.advance(thread_id, event) {
            Ok(mut rest) => {
                let ghost rest_view = rest.deep_view();
                told.append(&mut rest);
                assert(told.deep_view() =~= turn_opening(old(self)@, thread_id@, event.turn_id@)
                    + rest_view);
                Ok(told)
            },
            Err(error) => Err(error),
        }
    }
}

} // verus!
