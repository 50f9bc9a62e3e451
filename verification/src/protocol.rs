//! The vocabulary shared with the renderer: turns, their items, and the
//! notifications that announce them.

use vstd::prelude::*;

verus! {

/// Where a turn stands.
#[derive(Clone, Copy, Debug, PartialEq, Eq, Structural)]
pub enum TurnStatus {
    InProgress,
    Completed,
}

/// How much of a turn's item list is present.
#[derive(Clone, Copy, Debug, PartialEq, Eq, Structural)]
pub enum TurnItemsView {
    Full,
}

/// A marked stretch of an input text.
#[derive(Clone, Copy, Debug, PartialEq, Eq, Structural)]
pub struct TextElement {
    /// The first byte of the stretch.
    pub start: usize,
    /// The byte after its last one.
    pub end: usize,
}

impl DeepView for TextElement {
    type V = TextElement;

    open spec fn deep_view(&self) -> TextElement {
        *self
    }
}

/// One piece of what a user hands in.
#[derive(Debug)]
pub enum UserInput {
    Text { text: String, text_elements: Vec<TextElement> },
    /// Any piece that is not text: an image, a skill, a mention.
    NonText,
}

#[verifier::ext_equal]
pub enum InputView {
    Text { text: Seq<char>, text_elements: Seq<TextElement> },
    NonText,
}

impl DeepView for UserInput {
    type V = InputView;

    open spec fn deep_view(&self) -> InputView {
        match self {
            UserInput::Text { text, text_elements } => InputView::Text {
                text: text@,
                text_elements: text_elements.deep_view(),
            },
            UserInput::NonText => InputView::NonText,
        }
    }
}

/// One entry of a turn.
#[derive(Debug)]
pub enum ThreadItem {
    UserMessage { id: String, client_id: Option<String>, content: Vec<UserInput> },
    AgentMessage {
        id: String,
        text: String,
        phase: Option<String>,
        memory_citation: Option<String>,
    },
}

#[verifier::ext_equal]
pub enum ItemView {
    UserMessage { id: Seq<char>, client_id: Option<Seq<char>>, content: Seq<InputView> },
    AgentMessage {
        id: Seq<char>,
        text: Seq<char>,
        phase: Option<Seq<char>>,
        memory_citation: Option<Seq<char>>,
    },
}

impl DeepView for ThreadItem {
    type V = ItemView;

    open spec fn deep_view(&self) -> ItemView {
        match self {
            ThreadItem::UserMessage { id, client_id, content } => ItemView::UserMessage {
                id: id@,
                client_id: client_id.deep_view(),
                content: content.deep_view(),
            },
            ThreadItem::AgentMessage { id, text, phase, memory_citation } => ItemView::AgentMessage {
                id: id@,
                text: text@,
                phase: phase.deep_view(),
                memory_citation: memory_citation.deep_view(),
            },
        }
    }
}

/// One exchange between the user and the agent.
#[derive(Debug)]
pub struct Turn {
    pub id: String,
    pub items: Vec<ThreadItem>,
    pub items_view: TurnItemsView,
    pub status: TurnStatus,
    pub error: Option<String>,
    pub started_at: Option<i64>,
    pub completed_at: Option<i64>,
    pub duration_ms: Option<i64>,
}

#[verifier::ext_equal]
pub struct TurnView {
    pub id: Seq<char>,
    pub items: Seq<ItemView>,
    pub items_view: TurnItemsView,
    pub status: TurnStatus,
    pub error: Option<Seq<char>>,
    pub started_at: Option<i64>,
    pub completed_at: Option<i64>,
    pub duration_ms: Option<i64>,
}

impl DeepView for Turn {
    type V = TurnView;

    open spec fn deep_view(&self) -> TurnView {
        TurnView {
            id: self.id@,
            items: self.items.deep_view(),
            items_view: self.items_view,
            status: self.status,
            error: self.error.deep_view(),
            started_at: self.started_at,
            completed_at: self.completed_at,
            duration_ms: self.duration_ms,
        }
    }
}

/// A turn has begun.
#[derive(Debug)]
pub struct TurnStartedNotification {
    pub thread_id: String,
    pub turn: Turn,
}

/// An item of a turn has appeared.
#[derive(Debug)]
pub struct ItemStartedNotification {
    pub item: ThreadItem,
    pub thread_id: String,
    pub turn_id: String,
    pub started_at_ms: i64,
}

/// An item of a turn has its final content.
#[derive(Debug)]
pub struct ItemCompletedNotification {
    pub item: ThreadItem,
    pub thread_id: String,
    pub turn_id: String,
    pub completed_at_ms: i64,
}

/// The agent's message has grown.
#[derive(Debug)]
pub struct AgentMessageDeltaNotification {
    pub thread_id: String,
    pub turn_id: String,
    pub item_id: String,
    pub delta: String,
}

/// A turn is over.
#[derive(Debug)]
pub struct TurnCompletedNotification {
    pub thread_id: String,
    pub turn: Turn,
}

/// What the renderer is told.
#[derive(Debug)]
pub enum ServerNotification {
    TurnStarted(TurnStartedNotification),
    ItemStarted(ItemStartedNotification),
    ItemCompleted(ItemCompletedNotification),
    AgentMessageDelta(AgentMessageDeltaNotification),
    TurnCompleted(TurnCompletedNotification),
}

#[verifier::ext_equal]
pub enum NotificationView {
    TurnStarted { thread_id: Seq<char>, turn: TurnView },
    ItemStarted {
        item: ItemView,
        thread_id: Seq<char>,
        turn_id: Seq<char>,
        started_at_ms: i64,
    },
    ItemCompleted {
        item: ItemView,
        thread_id: Seq<char>,
        turn_id: Seq<char>,
        completed_at_ms: i64,
    },
    AgentMessageDelta {
        thread_id: Seq<char>,
        turn_id: Seq<char>,
        item_id: Seq<char>,
        delta: Seq<char>,
    },
    TurnCompleted { thread_id: Seq<char>, turn: TurnView },
}

impl DeepView for ServerNotification {
    type V = NotificationView;

    open spec fn deep_view(&self) -> NotificationView {
        match self {
            ServerNotification::TurnStarted(n) => NotificationView::TurnStarted {
                thread_id: n.thread_id@,
                turn: n.turn.deep_view(),
            },
            ServerNotification::ItemStarted(n) => NotificationView::ItemStarted {
                item: n.item.deep_view(),
                thread_id: n.thread_id@,
                turn_id: n.turn_id@,
                started_at_ms: n.started_at_ms,
            },
            ServerNotification::ItemCompleted(n) => NotificationView::ItemCompleted {
                item: n.item.deep_view(),
                thread_id: n.thread_id@,
                turn_id: n.turn_id@,
                completed_at_ms: n.completed_at_ms,
            },
            ServerNotification::AgentMessageDelta(n) => NotificationView::AgentMessageDelta {
                thread_id: n.thread_id@,
                turn_id: n.turn_id@,
                item_id: n.item_id@,
                delta: n.delta@,
            },
            ServerNotification::TurnCompleted(n) => NotificationView::TurnCompleted {
                thread_id: n.thread_id@,
                turn: n.turn.deep_view(),
            },
        }
    }
}

/// A turn with its full item list, no error and no times.
pub open spec fn turn_view(id: Seq<char>, status: TurnStatus, items: Seq<ItemView>) -> TurnView {
    TurnView {
        id,
        items,
        items_view: TurnItemsView::Full,
        status,
        error: None,
        started_at: None,
        completed_at: None,
        duration_ms: None,
    }
}

/// A user's message of one plain text.
pub open spec fn user_item_view(id: Seq<char>, text: Seq<char>) -> ItemView {
    ItemView::UserMessage {
        id,
        client_id: None,
        content: seq![InputView::Text { text, text_elements: Seq::empty() }],
    }
}

/// An agent's message of one plain text.
pub open spec fn agent_item_view(id: Seq<char>, text: Seq<char>) -> ItemView {
    ItemView::AgentMessage { id, text, phase: None, memory_citation: None }
}

/// A turn with its full item list, no error and no times.
pub fn turn(id: &str, status: TurnStatus, items: Vec<ThreadItem>) -> (res: Turn)
    ensures
        res.deep_view() == turn_view(id@, status, items.deep_view()),
{
    Turn {
        id: id.to_owned(),
        items,
        items_view: TurnItemsView::Full,
        status,
        error: None,
        started_at: None,
        completed_at: None,
        duration_ms: None,
    }
}

/// A user's message of one plain text.
pub fn user_item(id: String, text: String) -> (res: ThreadItem)
    ensures
        res.deep_view() == user_item_view(id@, text@),
{
    let mut content: Vec<UserInput> = Vec::new();
    content.push(UserInput::Text { text, text_elements: Vec::new() });
    let item = ThreadItem::UserMessage { id, client_id: None, content };
    assert(item.deep_view()->content =~~= user_item_view(id@, text@)->content);
    item
}

/// An agent's message of one plain text.
pub fn agent_item(id: String, text: String) -> (res: ThreadItem)
    ensures
        res.deep_view() == agent_item_view(id@, text@),
{
    ThreadItem::AgentMessage { id, text, phase: None, memory_citation: None }
}

} // verus!
