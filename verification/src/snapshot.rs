//! The history that a session hands over when it is joined.

use crate::history_laws::{
    is_turn_of, law_as_many_turns_as_ids, law_listed_turns_hold_their_messages,
};
use crate::protocol::{
    agent_item, agent_item_view, turn, turn_view, user_item, user_item_view, ItemView, Turn,
    TurnStatus, TurnView,
};
use vstd::hash_map::StringHashMap;
use vstd::prelude::*;

verus! {

/// A message of the history.
#[derive(Clone, Debug)]
pub struct SnapshotMessage {
    pub message_id: String,
    pub turn_id: String,
    pub role: String,
    pub text: String,
    pub completed: bool,
}

#[verifier::ext_equal]
pub struct MessageView {
    pub message_id: Seq<char>,
    pub turn_id: Seq<char>,
    pub role: Seq<char>,
    pub text: Seq<char>,
    pub completed: bool,
}

impl DeepView for SnapshotMessage {
    type V = MessageView;

    open spec fn deep_view(&self) -> MessageView {
        MessageView {
            message_id: self.message_id@,
            turn_id: self.turn_id@,
            role: self.role@,
            text: self.text@,
            completed: self.completed,
        }
    }
}

/// The item that a message becomes; only the user and the agent have items.
pub open spec fn item_of(message: MessageView) -> Option<ItemView> {
    if message.role == "user"@ {
        Some(user_item_view(message.message_id, message.text))
    } else if message.role == "assistant"@ {
        Some(agent_item_view(message.message_id, message.text))
    } else {
        None
    }
}

/// The ids of the turns with a completed message, in the order of their first one.
pub open spec fn turn_ids(messages: Seq<MessageView>) -> Seq<Seq<char>>
    decreases messages.len(),
{
    if messages.len() == 0 {
        Seq::empty()
    } else {
        let before = turn_ids(messages.drop_last());
        let last = messages.last();
        if last.completed && !before.contains(last.turn_id) {
            before.push(last.turn_id)
        } else {
            before
        }
    }
}

/// The items of a turn: its completed messages, in order.
pub open spec fn turn_items(messages: Seq<MessageView>, turn_id: Seq<char>) -> Seq<ItemView>
    decreases messages.len(),
{
    if messages.len() == 0 {
        Seq::empty()
    } else {
        let before = turn_items(messages.drop_last(), turn_id);
        let last = messages.last();
        if last.completed && last.turn_id == turn_id && item_of(last) is Some {
            before.push(item_of(last)->Some_0)
        } else {
            before
        }
    }
}

/// The turns of a history.
pub open spec fn history(messages: Seq<MessageView>) -> Seq<TurnView> {
    turn_ids(messages).map_values(
        |id: Seq<char>| turn_view(id, TurnStatus::Completed, turn_items(messages, id)),
    )
}

/// Each turn of a history is listed once, and a turn is listed exactly if one of its
/// messages is completed.
pub proof fn law_history_lists_each_turn_once(messages: Seq<MessageView>)
    ensures
        turn_ids(messages).no_duplicates(),
        forall|id: Seq<char>| #[trigger]
            turn_ids(messages).contains(id) <==> exists|i: int|
                0 <= i < messages.len() && (#[trigger] messages[i]).completed && messages[i].turn_id
                    == id,
    decreases messages.len(),
{
    if messages.len() > 0 {
        let earlier = messages.drop_last();
        let last = messages.last();
        let before = turn_ids(earlier);
        law_history_lists_each_turn_once(earlier);
        assert forall|id: Seq<char>| #[trigger] turn_ids(messages).contains(id) <==> exists|i: int|
            0 <= i < messages.len() && (#[trigger] messages[i]).completed && messages[i].turn_id
                == id by {
            if turn_ids(messages).contains(id) {
                if before.contains(id) {
                    let i = choose|i: int|
                        0 <= i < earlier.len() && (#[trigger] earlier[i]).completed
                            && earlier[i].turn_id == id;
                    assert(messages[i] == earlier[i]);
                } else {
                    let k = choose|k: int|
                        0 <= k < turn_ids(messages).len() && turn_ids(messages)[k] == id;
                    if k < before.len() {
                        assert(before[k] == id);
                    }
                    assert(messages[messages.len() - 1].turn_id == id);
                }
            }
            if exists|i: int|
                0 <= i < messages.len() && (#[trigger] messages[i]).completed && messages[i].turn_id
                    == id {
                let i = choose|i: int|
                    0 <= i < messages.len() && (#[trigger] messages[i]).completed
                        && messages[i].turn_id == id;
                if i < earlier.len() {
                    assert(earlier[i] == messages[i]);
                    assert(before.contains(id));
                }
                if before.contains(id) {
                    let k = choose|k: int| 0 <= k < before.len() && before[k] == id;
                    assert(turn_ids(messages)[k] == id);
                } else {
                    assert(turn_ids(messages)[before.len() as int] == id);
                }
            }
        }
    }
}

/// Every completed message of the user or the agent is an item of its turn.
pub proof fn law_history_keeps_every_message(messages: Seq<MessageView>, i: int)
    requires
        0 <= i < messages.len(),
        messages[i].completed,
        item_of(messages[i]) is Some,
    ensures
        turn_items(messages, messages[i].turn_id).contains(item_of(messages[i])->Some_0),
    decreases messages.len(),
{
    let id = messages[i].turn_id;
    let earlier = messages.drop_last();
    let before = turn_items(earlier, id);
    let item = item_of(messages[i])->Some_0;
    if i < earlier.len() {
        assert(earlier[i] == messages[i]);
        law_history_keeps_every_message(earlier, i);
        let k = choose|k: int| 0 <= k < before.len() && before[k] == item;
        assert(turn_items(messages, id)[k] == item);
    } else {
        assert(turn_items(messages, id)[before.len() as int] == item);
    }
}

/// Whether a message becomes an item of a turn.
pub open spec fn is_item_of(message: MessageView, turn_id: Seq<char>) -> bool {
    message.completed && message.turn_id == turn_id && item_of(message) is Some
}

/// The items of a turn are its completed messages of the user and the agent, each one
/// once and in order, and nothing else.
pub proof fn law_items_are_the_messages_in_order(messages: Seq<MessageView>, turn_id: Seq<char>)
    ensures
        turn_items(messages, turn_id) == messages.filter(
            |message: MessageView| is_item_of(message, turn_id),
        ).map_values(|message: MessageView| item_of(message)->Some_0),
    decreases messages.len(),
{
    reveal(Seq::filter);
    let kept = |message: MessageView| is_item_of(message, turn_id);
    let shown = |message: MessageView| item_of(message)->Some_0;
    if messages.len() > 0 {
        let earlier = messages.drop_last();
        law_items_are_the_messages_in_order(earlier, turn_id);
        if kept(messages.last()) {
            assert(earlier.filter(kept).push(messages.last()).map_values(shown)
                =~= earlier.filter(kept).map_values(shown).push(shown(messages.last())));
        }
    }
    assert(turn_items(messages, turn_id) =~= messages.filter(kept).map_values(shown));
}

/// A history only grows: with more messages, the turns that were listed stay in their
/// places, and so do the items of each turn.
pub proof fn law_history_only_grows(messages: Seq<MessageView>, n: int)
    requires
        0 <= n <= messages.len(),
    ensures
        turn_ids(messages.take(n)).is_prefix_of(turn_ids(messages)),
        forall|id: Seq<char>| #[trigger]
            turn_items(messages.take(n), id).is_prefix_of(turn_items(messages, id)),
    decreases messages.len(),
{
    if n == messages.len() {
        assert(messages.take(n) =~= messages);
    } else {
        let earlier = messages.drop_last();
        law_history_only_grows(earlier, n);
        assert(earlier.take(n) =~= messages.take(n));
        assert forall|id: Seq<char>| #[trigger]
            turn_items(messages.take(n), id).is_prefix_of(turn_items(messages, id)) by {
            assert(turn_items(earlier.take(n), id).is_prefix_of(turn_items(earlier, id)));
        }
    }
}

/// A message that is not completed leaves no trace in the history.
pub proof fn law_unfinished_message_leaves_no_trace(
    before: Seq<MessageView>,
    message: MessageView,
    after: Seq<MessageView>,
)
    requires
        !message.completed,
    ensures
        history(before.push(message) + after) == history(before + after),
{
    lemma_unfinished_message_adds_nothing(before, message, after);
    let with = before.push(message) + after;
    assert(turn_ids(with) == turn_ids(before + after));
    assert(history(with) =~= history(before + after));
}

proof fn lemma_unfinished_message_adds_nothing(
    before: Seq<MessageView>,
    message: MessageView,
    after: Seq<MessageView>,
)
    requires
        !message.completed,
    ensures
        turn_ids(before.push(message) + after) == turn_ids(before + after),
        forall|id: Seq<char>|
            turn_items(before.push(message) + after, id) == #[trigger] turn_items(
                before + after,
                id,
            ),
    decreases after.len(),
{
    let with = before.push(message) + after;
    let without = before + after;
    if after.len() == 0 {
        assert(with =~= before.push(message));
        assert(without =~= before);
        assert(before.push(message).drop_last() =~= before);
    } else {
        lemma_unfinished_message_adds_nothing(before, message, after.drop_last());
        assert(with.drop_last() =~= before.push(message) + after.drop_last());
        assert(without.drop_last() =~= before + after.drop_last());
        assert(with.last() == without.last());
        assert forall|id: Seq<char>| turn_items(with, id) == #[trigger] turn_items(without, id) by {
            assert(turn_items(with.drop_last(), id) == turn_items(without.drop_last(), id));
        }
    }
}

/// A turn that is not listed has no items.
proof fn lemma_unlisted_turn_has_no_items(messages: Seq<MessageView>, turn_id: Seq<char>)
    requires
        !turn_ids(messages).contains(turn_id),
    ensures
        turn_items(messages, turn_id) =~= Seq::empty(),
    decreases messages.len(),
{
    if messages.len() > 0 {
        let before = turn_ids(messages.drop_last());
        if before.contains(turn_id) {
            let k = choose|k: int| 0 <= k < before.len() && before[k] == turn_id;
            assert(turn_ids(messages)[k] == turn_id);
        }
        if messages.last().completed && messages.last().turn_id == turn_id {
            assert(turn_ids(messages)[before.len() as int] == turn_id);
        }
        lemma_unlisted_turn_has_no_items(messages.drop_last(), turn_id);
    }
}

/// The turns of a history: one for each turn id among the completed messages, in
/// the order of their first one, with the messages of the user and the agent as
/// its items.
pub fn snapshot_turns(messages: &[SnapshotMessage]) -> (res: Vec<Turn>)
    ensures
        res.deep_view() == history(messages.deep_view()),
        res@.len() == messages.deep_view().filter(
            |message: MessageView| message.completed,
        ).map_values(|message: MessageView| message.turn_id).to_set().len(),
        forall|k: int|
            0 <= k < res@.len() ==> is_turn_of(
                (#[trigger] res@[k]).deep_view(),
                messages.deep_view(),
            ),
{
    let ghost all = messages.deep_view();
    let mut turns: Vec<Turn> = Vec::new();
    let mut indices: StringHashMap<usize> = StringHashMap::new();
    let mut i: usize = 0;
    assert(turns.deep_view() =~= history(all.take(0)));
    while i < messages.len()
        invariant
            i <= messages.len(),
            all == messages.deep_view(),
            all.len() == messages.len(),
            turns.deep_view() == history(all.take(i as int)),
            turns.len() == turn_ids(all.take(i as int)).len(),
            forall|id: Seq<char>| #[trigger]
                indices@.contains_key(id) <==> turn_ids(all.take(i as int)).contains(id),
            forall|id: Seq<char>| #[trigger]
                indices@.contains_key(id) ==> indices@[id] < turns.len() && turn_ids(
                    all.take(i as int),
                )[indices@[id] as int] == id,
        decreases messages.len() - i,
    {
        let message = &messages[i];
        let ghost seen = all.take(i as int);
        let ghost now = all.take(i + 1);
        let ghost ids = turn_ids(seen);
        let ghost id = message.turn_id@;
        let ghost known = turns.deep_view();
        proof {
            assert(now.drop_last() =~= seen);
            assert(now.last() == message.deep_view());
            law_history_lists_each_turn_once(now);
        }
        if message.completed {
            let index: usize = match indices.get(message.turn_id.as_str()) {
                Some(index) => *index,
                None => {
                    let index: usize = turns.len();
                    indices.insert(message.turn_id.clone(), index);
                    turns.push(
                        turn(message.turn_id.as_str(), TurnStatus::Completed, Vec::new()),
                    );
                    index
                },
            };
            let ghost listed = turn_ids(now);
            let ghost placed = turns.deep_view();
            proof {
                if !ids.contains(id) {
                    lemma_unlisted_turn_has_no_items(seen, id);
                    assert(listed == ids.push(id));
                    assert(listed[ids.len() as int] == id);
                    assert(placed[ids.len() as int].items =~= turn_items(seen, id));
                }
                assert(listed[index as int] == id);
                assert forall|k: int| 0 <= k < listed.len() implies #[trigger] placed[k]
                    == turn_view(listed[k], TurnStatus::Completed, turn_items(seen, listed[k])) by {
                    if k < known.len() {
                        assert(placed[k] == known[k]);
                        assert(known[k] == history(seen)[k]);
                    }
                }
            }
            let item = if *message.role.as_str() == *"user" {
                Some(user_item(message.message_id.clone(), message.text.clone()))
            } else if *message.role.as_str() == *"assistant" {
                Some(agent_item(message.message_id.clone(), message.text.clone()))
            } else {
                None
            };
            match item {
                Some(item) => {
                    turns[index].items.push(item);
                },
                None => {},
            }
            proof {
                assert(turns.deep_view().len() == placed.len());
                assert forall|k: int| 0 <= k < listed.len() implies turns.deep_view()[k]
                    == #[trigger] history(now)[k] by {
                    if k != index {
                        assert(listed[k] != listed[index as int]);
                        assert(turns.deep_view()[k] == placed[k]);
                    } else if item_of(message.deep_view()) is Some {
                        assert(turns.deep_view()[k].items =~= placed[k].items.push(
                            item_of(message.deep_view())->Some_0,
                        ));
                    }
                }
                assert(turns.deep_view() =~= history(now));
                assert forall|other: Seq<char>| #[trigger]
                    indices@.contains_key(other) <==> listed.contains(other) by {
                    if ids.contains(other) {
                        let k = choose|k: int| 0 <= k < ids.len() && ids[k] == other;
                        assert(listed[k] == other);
                    }
                    if listed.contains(other) && other != id {
                        let k = choose|k: int| 0 <= k < listed.len() && listed[k] == other;
                        assert(ids[k] == other);
                    }
                }
            }
        } else {
            assert(turns.deep_view() =~= history(now));
        }
        i += 1;
    }
    assert(all.take(i as int) =~= all);
    proof {
        law_as_many_turns_as_ids(all);
        assert(turns.deep_view().len() == turns@.len());
        assert forall|k: int| 0 <= k < turns@.len() implies is_turn_of(
            (#[trigger] turns@[k]).deep_view(),
            all,
        ) by {
            law_listed_turns_hold_their_messages(all, k);
            assert(turns.deep_view()[k] == turns@[k].deep_view());
        }
    }
    turns
}

} // verus!
