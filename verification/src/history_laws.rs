//! What the history of a session holds.
//!
//! These laws speak of the turns that are listed, for any number of messages and turns,
//! and of the messages that they were made of.

use crate::attach::{lists, preview_of, Thread};
use crate::protocol::{InputView, ItemView, TurnItemsView, TurnStatus, TurnView};
use crate::session::JoinedView;
use crate::snapshot::{
    history, law_history_lists_each_turn_once, turn_ids, turn_items, MessageView,
};
use crate::thread_id::uuid_text;
use vstd::prelude::*;

verus! {

/// Whether a message is a completed one of a turn.
pub open spec fn belongs_to(message: MessageView, turn_id: Seq<char>) -> bool {
    message.completed && message.turn_id == turn_id
}

/// Whether a message is the user's or the agent's.
pub open spec fn is_spoken(message: MessageView) -> bool {
    message.role == "user"@ || message.role == "assistant"@
}

/// A message of the user or the agent as an item.
pub open spec fn as_item(message: MessageView) -> ItemView {
    if message.role == "user"@ {
        ItemView::UserMessage {
            id: message.message_id,
            client_id: None,
            content: seq![InputView::Text { text: message.text, text_elements: Seq::empty() }],
        }
    } else {
        ItemView::AgentMessage {
            id: message.message_id,
            text: message.text,
            phase: None,
            memory_citation: None,
        }
    }
}

/// A completed turn that holds exactly the completed messages of the user and the agent
/// with its id, in their order.
pub open spec fn is_turn_of(turn: TurnView, messages: Seq<MessageView>) -> bool {
    turn == (TurnView {
        id: turn.id,
        items: messages.filter(
            |message: MessageView| belongs_to(message, turn.id) && is_spoken(message),
        ).map_values(|message: MessageView| as_item(message)),
        items_view: TurnItemsView::Full,
        status: TurnStatus::Completed,
        error: None,
        started_at: None,
        completed_at: None,
        duration_ms: None,
    })
}

/// Whether the message at an index is the first completed one of a turn.
pub open spec fn is_first_of(messages: Seq<MessageView>, turn_id: Seq<char>, i: int) -> bool {
    &&& 0 <= i < messages.len()
    &&& belongs_to(messages[i], turn_id)
    &&& forall|j: int| 0 <= j < i ==> !belongs_to(#[trigger] messages[j], turn_id)
}

proof fn lemma_roles_differ()
    ensures
        "user"@ != "assistant"@,
{
    reveal_strlit("user");
    reveal_strlit("assistant");
    assert("user"@.len() == 4);
    assert("assistant"@.len() == 9);
}

proof fn lemma_items_of_turn(messages: Seq<MessageView>, turn_id: Seq<char>)
    ensures
        turn_items(messages, turn_id) == messages.filter(
            |message: MessageView| belongs_to(message, turn_id) && is_spoken(message),
        ).map_values(|message: MessageView| as_item(message)),
    decreases messages.len(),
{
    reveal(Seq::filter);
    lemma_roles_differ();
    let kept = |message: MessageView| belongs_to(message, turn_id) && is_spoken(message);
    let shown = |message: MessageView| as_item(message);
    if messages.len() > 0 {
        let earlier = messages.drop_last();
        lemma_items_of_turn(earlier, turn_id);
        if kept(messages.last()) {
            assert(earlier.filter(kept).push(messages.last()).map_values(shown)
                =~= earlier.filter(kept).map_values(shown).push(shown(messages.last())));
        }
    }
    assert(turn_items(messages, turn_id) =~= messages.filter(kept).map_values(shown));
}

/// Each listed turn is completed and holds exactly the completed messages of the user and
/// the agent with its id, in their order.
pub proof fn law_listed_turns_hold_their_messages(messages: Seq<MessageView>, k: int)
    requires
        0 <= k < history(messages).len(),
    ensures
        is_turn_of(history(messages)[k], messages),
{
    lemma_items_of_turn(messages, turn_ids(messages)[k]);
}

/// There are as many turns as there are turn ids among the completed messages, and no
/// two of them have the same id.
pub proof fn law_as_many_turns_as_ids(messages: Seq<MessageView>)
    ensures
        history(messages).len() == messages.filter(
            |message: MessageView| message.completed,
        ).map_values(|message: MessageView| message.turn_id).to_set().len(),
        forall|k: int, l: int|
            0 <= k < l < history(messages).len() ==> (#[trigger] history(messages)[k]).id != (
            #[trigger] history(messages)[l]).id,
{
    let completed = |message: MessageView| message.completed;
    let id_of = |message: MessageView| message.turn_id;
    let kept = messages.filter(completed);
    let ids = turn_ids(messages);
    law_history_lists_each_turn_once(messages);
    assert forall|k: int, l: int| 0 <= k < l < history(messages).len() implies (
    #[trigger] history(messages)[k]).id != (#[trigger] history(messages)[l]).id by {
        assert(ids[k] != ids[l]);
    }
    assert forall|id: Seq<char>| #[trigger]
        ids.to_set().contains(id) == kept.map_values(id_of).to_set().contains(id) by {
        if ids.contains(id) {
            let i = choose|i: int|
                0 <= i < messages.len() && (#[trigger] messages[i]).completed
                    && messages[i].turn_id == id;
            messages.lemma_filter_contains(completed, i);
            let k = choose|k: int| 0 <= k < kept.len() && kept[k] == messages[i];
            assert(kept.map_values(id_of)[k] == id);
        }
        if kept.map_values(id_of).contains(id) {
            let k = choose|k: int|
                0 <= k < kept.map_values(id_of).len() && kept.map_values(id_of)[k] == id;
            messages.lemma_filter_pred(completed, k);
            assert(kept.contains(kept[k]));
            messages.lemma_filter_contains_rev(completed, kept[k]);
            let i = choose|i: int| 0 <= i < messages.len() && messages[i] == kept[k];
            assert(messages[i].completed && messages[i].turn_id == id);
        }
    }
    assert(ids.to_set() =~= kept.map_values(id_of).to_set());
    ids.unique_seq_to_set();
}

/// Every completed message has its turn in the history, and one of the user or the agent
/// is an item of that turn.
pub proof fn law_every_message_is_in_the_history(messages: Seq<MessageView>, i: int)
    requires
        0 <= i < messages.len(),
        messages[i].completed,
    ensures
        exists|k: int|
            0 <= k < history(messages).len() && (#[trigger] history(messages)[k]).id
                == messages[i].turn_id && (is_spoken(messages[i]) ==> history(
                messages,
            )[k].items.contains(as_item(messages[i]))),
{
    let id = messages[i].turn_id;
    law_history_lists_each_turn_once(messages);
    assert(turn_ids(messages).contains(id));
    let k = choose|k: int| 0 <= k < turn_ids(messages).len() && turn_ids(messages)[k] == id;
    assert(history(messages)[k].id == id);
    if is_spoken(messages[i]) {
        let kept = |message: MessageView| belongs_to(message, id) && is_spoken(message);
        let shown = |message: MessageView| as_item(message);
        lemma_items_of_turn(messages, id);
        messages.lemma_filter_contains(kept, i);
        let at = choose|at: int|
            0 <= at < messages.filter(kept).len() && messages.filter(kept)[at] == messages[i];
        assert(messages.filter(kept).map_values(shown)[at] == as_item(messages[i]));
    }
}

/// Every turn in the history has a completed message.
pub proof fn law_every_turn_has_a_message(messages: Seq<MessageView>, k: int)
    requires
        0 <= k < history(messages).len(),
    ensures
        exists|i: int|
            0 <= i < messages.len() && belongs_to(#[trigger] messages[i], history(messages)[k].id),
{
    law_history_lists_each_turn_once(messages);
    let id = history(messages)[k].id;
    assert(turn_ids(messages)[k] == id);
    assert(turn_ids(messages).contains(id));
    let i = choose|i: int|
        0 <= i < messages.len() && (#[trigger] messages[i]).completed && messages[i].turn_id == id;
    assert(belongs_to(messages[i], id));
}

proof fn lemma_ids_in_order(messages: Seq<MessageView>, k: int, l: int, i: int, j: int)
    requires
        0 <= k < l < turn_ids(messages).len(),
        is_first_of(messages, turn_ids(messages)[k], i),
        is_first_of(messages, turn_ids(messages)[l], j),
    ensures
        i < j,
    decreases messages.len(),
{
    let earlier = messages.drop_last();
    let before = turn_ids(earlier);
    let ids = turn_ids(messages);
    law_history_lists_each_turn_once(messages);
    law_history_lists_each_turn_once(earlier);
    assert(ids[k] != ids[l]);
    if l < before.len() {
        assert(before.contains(before[l]));
        assert(before.contains(before[k]));
        let at_l = choose|at: int|
            0 <= at < earlier.len() && (#[trigger] earlier[at]).completed && earlier[at].turn_id
                == ids[l];
        let at_k = choose|at: int|
            0 <= at < earlier.len() && (#[trigger] earlier[at]).completed && earlier[at].turn_id
                == ids[k];
        assert(belongs_to(messages[at_l], ids[l]));
        assert(belongs_to(messages[at_k], ids[k]));
        assert(is_first_of(earlier, before[k], i));
        assert(is_first_of(earlier, before[l], j));
        lemma_ids_in_order(earlier, k, l, i, j);
    } else {
        assert(before.contains(before[k]));
        let at_k = choose|at: int|
            0 <= at < earlier.len() && (#[trigger] earlier[at]).completed && earlier[at].turn_id
                == ids[k];
        assert(belongs_to(messages[at_k], ids[k]));
        if j < earlier.len() {
            assert(earlier[j].completed && earlier[j].turn_id == ids[l]);
            assert(before.contains(ids[l]));
            assert(false);
        }
    }
}

/// The turns are listed in the order of their first completed messages.
pub proof fn law_turns_are_listed_in_order(
    messages: Seq<MessageView>,
    k: int,
    l: int,
    i: int,
    j: int,
)
    requires
        0 <= k < l < history(messages).len(),
        is_first_of(messages, history(messages)[k].id, i),
        is_first_of(messages, history(messages)[l].id, j),
    ensures
        i < j,
{
    lemma_ids_in_order(messages, k, l, i, j);
}

/// Whether the message at an index is the first of the user, completed or not.
pub open spec fn is_users_first(messages: Seq<MessageView>, i: int) -> bool {
    &&& 0 <= i < messages.len()
    &&& messages[i].role == "user"@
    &&& forall|j: int| 0 <= j < i ==> (#[trigger] messages[j]).role != "user"@
}

/// The preview is the text of the user's first message, wherever it stands and whether or
/// not it is completed.
pub proof fn law_preview_is_the_users_first_message(messages: Seq<MessageView>, i: int)
    requires
        is_users_first(messages, i),
    ensures
        preview_of(messages) == messages[i].text,
    decreases i,
{
    if i > 0 {
        let rest = messages.drop_first();
        assert(messages[0].role != "user"@);
        assert(rest[i - 1] == messages[i]);
        assert forall|j: int| 0 <= j < i - 1 implies (#[trigger] rest[j]).role != "user"@ by {
            assert(rest[j] == messages[j + 1]);
        }
        law_preview_is_the_users_first_message(rest, i - 1);
    }
}

/// Without a message of the user the preview is empty.
pub proof fn law_no_preview_without_the_user(messages: Seq<MessageView>)
    requires
        forall|j: int| 0 <= j < messages.len() ==> (#[trigger] messages[j]).role != "user"@,
    ensures
        preview_of(messages) == Seq::<char>::empty(),
    decreases messages.len(),
{
    if messages.len() > 0 {
        let rest = messages.drop_first();
        assert(messages[0].role != "user"@);
        assert forall|j: int| 0 <= j < rest.len() implies (#[trigger] rest[j]).role != "user"@ by {
            assert(rest[j] == messages[j + 1]);
        }
        law_no_preview_without_the_user(rest);
    }
}

/// A thread that lists a joined session shows the session's thread and id, the text of
/// the user's first message, and every turn of the history.
pub proof fn law_attached_thread_shows_the_session(
    thread: Thread,
    session: JoinedView,
    i: int,
    k: int,
)
    requires
        lists(thread, session),
    ensures
        thread.id@ == uuid_text(session.thread_id.uuid),
        thread.session_id@ == session.session_id,
        is_users_first(session.snapshot_messages, i) ==> thread.preview@
            == session.snapshot_messages[i].text,
        (forall|j: int|
            0 <= j < session.snapshot_messages.len() ==> (
            #[trigger] session.snapshot_messages[j]).role != "user"@) ==> thread.preview@.len()
            == 0,
        0 <= k < thread.turns@.len() ==> is_turn_of(
            thread.turns@[k].deep_view(),
            session.snapshot_messages,
        ),
        thread.turns@.len() == session.snapshot_messages.filter(
            |message: MessageView| message.completed,
        ).map_values(|message: MessageView| message.turn_id).to_set().len(),
{
    let messages = session.snapshot_messages;
    if is_users_first(messages, i) {
        law_preview_is_the_users_first_message(messages, i);
    }
    if forall|j: int| 0 <= j < messages.len() ==> (#[trigger] messages[j]).role != "user"@ {
        law_no_preview_without_the_user(messages);
    }
    law_as_many_turns_as_ids(messages);
    assert(thread.turns.deep_view().len() == thread.turns@.len());
    if 0 <= k < thread.turns@.len() {
        law_listed_turns_hold_their_messages(messages, k);
        assert(thread.turns.deep_view()[k] == thread.turns@[k].deep_view());
    }
}

} // verus!
