use cloudstaff_mock_backend::error::ErrorKind;
use cloudstaff_mock_backend::mapper::EventMapper;
use cloudstaff_mock_backend::protocol::{ServerNotification, ThreadItem, TurnStatus, UserInput};
use cloudstaff_mock_backend::snapshot::{snapshot_turns, SnapshotMessage};
use cloudstaff_mock_backend::thread_id::{deterministic_thread_id, ThreadId};
use serde_json::Value;

fn json(text: &str) -> Value {
    serde_json::from_str(text).expect("test JSON")
}

fn object(members: &[(&str, Value)]) -> Value {
    let mut value = Value::Object(serde_json::Map::new());
    for (key, member) in members {
        value[*key] = member.clone();
    }
    value
}

fn event(kind: &str, command: &str, turn: &str, message: &str, field: &str, text: &str) -> Value {
    object(&[
        ("type", Value::from(kind)),
        ("commandId", Value::from(command)),
        ("turnId", Value::from(turn)),
        ("messageId", Value::from(message)),
        (field, Value::from(text)),
    ])
}

fn envelope(event_seq: u64, event: &Value) -> Value {
    object(&[
        ("type", Value::from("session.event")),
        ("eventSeq", Value::from(event_seq)),
        ("event", event.clone()),
    ])
}

fn one_turn() -> Vec<Value> {
    vec![
        event("user.message.delta", "command-1", "turn-1", "user-1", "delta", "hello"),
        event("user.message.completed", "command-1", "turn-1", "user-1", "text", "hello"),
        event("assistant.message.delta", "command-1", "turn-1", "assistant-1", "delta", "hi"),
        event("assistant.message.completed", "command-1", "turn-1", "assistant-1", "text", "hi"),
    ]
}

fn alice() -> EventMapper {
    EventMapper::new(deterministic_thread_id("alice").expect("thread id"), 0)
}

fn message(id: &str, turn: &str, role: &str, text: &str, completed: bool) -> SnapshotMessage {
    SnapshotMessage {
        message_id: id.to_string(),
        turn_id: turn.to_string(),
        role: role.to_string(),
        text: text.to_string(),
        completed,
    }
}

fn item_id(item: &ThreadItem) -> &str {
    match item {
        ThreadItem::UserMessage { id, .. } => id,
        ThreadItem::AgentMessage { id, .. } => id,
    }
}

fn item_text(item: &ThreadItem) -> String {
    match item {
        ThreadItem::UserMessage { content, .. } => match &content[0] {
            UserInput::Text { text, .. } => text.clone(),
            UserInput::NonText => panic!("expected text"),
        },
        ThreadItem::AgentMessage { text, .. } => text.clone(),
    }
}

fn turn_of(notification: &ServerNotification) -> &str {
    match notification {
        ServerNotification::TurnStarted(n) => &n.turn.id,
        ServerNotification::ItemStarted(n) => &n.turn_id,
        ServerNotification::ItemCompleted(n) => &n.turn_id,
        ServerNotification::AgentMessageDelta(n) => &n.turn_id,
        ServerNotification::TurnCompleted(n) => &n.turn.id,
    }
}

#[test]
fn snapshot_messages_become_one_completed_turn() {
    let messages = vec![
        SnapshotMessage {
            message_id: "user-1".to_string(),
            turn_id: "turn-1".to_string(),
            role: "user".to_string(),
            text: "hello".to_string(),
            completed: true,
        },
        SnapshotMessage {
            message_id: "assistant-1".to_string(),
            turn_id: "turn-1".to_string(),
            role: "assistant".to_string(),
            text: "hi".to_string(),
            completed: true,
        },
    ];

    let turns = snapshot_turns(&messages);

    assert_eq!(turns.len(), 1);
    assert_eq!(turns[0].id, "turn-1");
    assert_eq!(turns[0].status, TurnStatus::Completed);
    assert!(matches!(turns[0].items[0], ThreadItem::UserMessage { .. }));
    assert!(matches!(turns[0].items[1], ThreadItem::AgentMessage { .. }));
}

#[test]
fn live_events_map_to_stock_renderer_lifecycle_and_fence_duplicates() {
    let thread_id = deterministic_thread_id("alice").expect("thread id");
    let mut mapper = EventMapper::new(thread_id, 0);
    let events = [
        json(
            r#"{
                "type": "user.message.delta",
                "commandId": "command-1",
                "turnId": "turn-1",
                "messageId": "user-1",
                "delta": "hello"
            }"#,
        ),
        json(
            r#"{
                "type": "user.message.completed",
                "commandId": "command-1",
                "turnId": "turn-1",
                "messageId": "user-1",
                "text": "hello"
            }"#,
        ),
        json(
            r#"{
                "type": "assistant.message.delta",
                "commandId": "command-1",
                "turnId": "turn-1",
                "messageId": "assistant-1",
                "delta": "hi"
            }"#,
        ),
        json(
            r#"{
                "type": "assistant.message.completed",
                "commandId": "command-1",
                "turnId": "turn-1",
                "messageId": "assistant-1",
                "text": "hi"
            }"#,
        ),
    ];
    let mut notifications: Vec<ServerNotification> = Vec::new();
    for (index, event) in events.iter().enumerate() {
        notifications.extend(
            mapper
                .forward_envelope(&object(&[
                    ("type", Value::from("session.event")),
                    ("eventSeq", Value::from(index + 1)),
                    ("event", event.clone()),
                ]))
                .expect("event should map"),
        );
    }

    assert_eq!(notifications.len(), 7);
    assert!(matches!(
        notifications[0],
        ServerNotification::TurnStarted(_)
    ));
    assert!(matches!(
        notifications[1],
        ServerNotification::ItemStarted(_)
    ));
    assert!(matches!(
        notifications[2],
        ServerNotification::ItemCompleted(_)
    ));
    assert!(matches!(
        notifications[3],
        ServerNotification::ItemStarted(_)
    ));
    assert!(matches!(
        notifications[4],
        ServerNotification::AgentMessageDelta(_)
    ));
    assert!(matches!(
        notifications[5],
        ServerNotification::ItemCompleted(_)
    ));
    assert!(matches!(
        notifications[6],
        ServerNotification::TurnCompleted(_)
    ));

    let repeated = mapper
        .forward_envelope(&object(&[
            ("type", Value::from("session.event")),
            ("eventSeq", Value::from(4)),
            ("event", events[3].clone()),
        ]))
        .expect("duplicate event should be fenced");
    assert!(repeated.is_empty());

    let error = mapper
        .forward_envelope(&object(&[
            ("type", Value::from("session.event")),
            ("eventSeq", Value::from(6)),
            ("event", events[3].clone()),
        ]))
        .expect_err("sequence gaps must fail closed");
    assert_eq!(error.kind(), ErrorKind::InvalidData);
}

#[test]
fn live_events_fail_closed_on_out_of_order_or_reopened_turns() {
    let thread_id = deterministic_thread_id("alice").expect("thread id");
    let mut mapper = EventMapper::new(thread_id, 0);
    let assistant_first = json(
        r#"{
            "type": "session.event",
            "eventSeq": 1,
            "event": {
                "type": "assistant.message.delta",
                "commandId": "command-1",
                "turnId": "turn-1",
                "messageId": "assistant-1",
                "delta": "nope"
            }
        }"#,
    );
    assert_eq!(
        mapper
            .forward_envelope(&assistant_first)
            .expect_err("assistant-first streams must fail closed")
            .kind(),
        ErrorKind::InvalidData
    );
}

#[test]
fn the_thread_of_a_session_is_fixed() {
    let alice = deterministic_thread_id("alice").expect("thread id");
    assert_eq!(alice.to_string(), "3690c325-8ec5-5b76-b59b-49e753ad8d07");
    assert_eq!(deterministic_thread_id("alice").expect("thread id"), alice);
    let bob = deterministic_thread_id("bob").expect("thread id");
    assert_eq!(bob.to_string(), "51096133-475a-5ac9-8c00-949d50a84a2d");
    let nobody = deterministic_thread_id("").expect("thread id");
    assert_eq!(nobody.to_string(), "e535d1bc-40a5-59c1-af58-4cd302518934");
}

#[test]
fn thread_ids_are_read_back() {
    let id = ThreadId { uuid: 0x0123_4567_89ab_cdef_0123_4567_89ab_cdef };
    assert_eq!(id.to_string(), "01234567-89ab-cdef-0123-456789abcdef");
    assert_eq!(ThreadId::from_string(&id.to_string()), Ok(id));
    assert_eq!(
        ThreadId::from_string("{01234567-89AB-CDEF-0123-456789ABCDEF}"),
        Ok(id)
    );
    let error = ThreadId::from_string("no uuid").expect_err("not a UUID");
    assert!(error.starts_with("invalid"));
}

#[test]
fn a_turn_is_told_with_its_ids_and_texts() {
    let mut mapper = alice();
    let thread = "3690c325-8ec5-5b76-b59b-49e753ad8d07";
    let mut told = Vec::new();
    for (index, event) in one_turn().iter().enumerate() {
        told.extend(mapper.forward_envelope(&envelope(index as u64 + 1, event)).expect("event"));
    }
    assert_eq!(mapper.last_event_seq(), 4);
    match &told[0] {
        ServerNotification::TurnStarted(n) => {
            assert_eq!(n.thread_id, thread);
            assert_eq!(n.turn.id, "turn-1");
            assert_eq!(n.turn.status, TurnStatus::InProgress);
            assert!(n.turn.items.is_empty());
            assert!(n.turn.error.is_none());
        }
        other => panic!("unexpected {other:?}"),
    }
    match &told[1] {
        ServerNotification::ItemStarted(n) => {
            assert_eq!((n.thread_id.as_str(), n.turn_id.as_str()), (thread, "turn-1"));
            assert_eq!((item_id(&n.item), item_text(&n.item).as_str()), ("user-1", "hello"));
            assert_eq!(n.started_at_ms, 0);
        }
        other => panic!("unexpected {other:?}"),
    }
    match &told[3] {
        ServerNotification::ItemStarted(n) => {
            assert_eq!((item_id(&n.item), item_text(&n.item).as_str()), ("assistant-1", ""));
        }
        other => panic!("unexpected {other:?}"),
    }
    match &told[4] {
        ServerNotification::AgentMessageDelta(n) => {
            assert_eq!(n.item_id, "assistant-1");
            assert_eq!(n.delta, "hi");
        }
        other => panic!("unexpected {other:?}"),
    }
    match &told[6] {
        ServerNotification::TurnCompleted(n) => {
            assert_eq!(n.turn.status, TurnStatus::Completed);
            assert_eq!(n.turn.items.len(), 2);
            assert_eq!(item_id(&n.turn.items[0]), "user-1");
            assert_eq!(item_text(&n.turn.items[0]), "hello");
            assert_eq!(item_id(&n.turn.items[1]), "assistant-1");
            assert_eq!(item_text(&n.turn.items[1]), "hi");
        }
        other => panic!("unexpected {other:?}"),
    }
}

#[test]
fn an_agent_message_without_pieces_is_announced_when_it_ends() {
    let mut mapper = alice();
    let events = one_turn();
    mapper.forward_envelope(&envelope(1, &events[1])).expect("user");
    let told = mapper.forward_envelope(&envelope(2, &events[3])).expect("agent");
    assert_eq!(told.len(), 3);
    assert!(matches!(told[0], ServerNotification::ItemStarted(_)));
    assert!(matches!(told[1], ServerNotification::ItemCompleted(_)));
    assert!(matches!(told[2], ServerNotification::TurnCompleted(_)));
}

#[test]
fn the_whole_message_replaces_its_pieces() {
    let mut mapper = alice();
    let mut events = one_turn();
    events[1]["text"] = Value::from("Hello!");
    for (index, event) in events.iter().enumerate() {
        let told = mapper.forward_envelope(&envelope(index as u64 + 1, event)).expect("event");
        if let Some(ServerNotification::TurnCompleted(n)) = told.last() {
            assert_eq!(item_text(&n.turn.items[0]), "Hello!");
        }
    }
}

#[test]
fn a_finished_turn_is_not_reopened() {
    let mut mapper = alice();
    let events = one_turn();
    for (index, event) in events.iter().enumerate() {
        mapper.forward_envelope(&envelope(index as u64 + 1, event)).expect("event");
    }
    let error = mapper.forward_envelope(&envelope(5, &events[0])).expect_err("reopened");
    assert_eq!(error.kind(), ErrorKind::InvalidData);
    assert_eq!(error.message(), "CloudStaff mock emitted an event after turn completion");
    assert_eq!(mapper.last_event_seq(), 4);
}

#[test]
fn a_turn_keeps_its_command_and_its_message_ids() {
    let mut mapper = alice();
    let events = one_turn();
    mapper.forward_envelope(&envelope(1, &events[0])).expect("first");

    let other = event("user.message.delta", "command-2", "turn-1", "user-1", "delta", "x");
    let error = mapper.forward_envelope(&envelope(2, &other)).expect_err("command");
    assert_eq!(error.message(), "CloudStaff mock changed commandId within a turn");

    let other = event("user.message.delta", "command-1", "turn-1", "user-2", "delta", "x");
    let error = mapper.forward_envelope(&envelope(2, &other)).expect_err("user id");
    assert_eq!(error.message(), "CloudStaff mock changed user messageId within a turn");

    mapper.forward_envelope(&envelope(2, &events[1])).expect("user");
    mapper.forward_envelope(&envelope(3, &events[2])).expect("agent");
    let other =
        event("assistant.message.delta", "command-1", "turn-1", "assistant-2", "delta", "x");
    let error = mapper.forward_envelope(&envelope(4, &other)).expect_err("agent id");
    assert_eq!(error.message(), "CloudStaff mock changed assistant messageId within a turn");

    let error = mapper.forward_envelope(&envelope(4, &events[0])).expect_err("phase");
    assert_eq!(error.message(), "CloudStaff mock event arrived out of order");
    assert_eq!(mapper.last_event_seq(), 3);
}

#[test]
fn what_a_refused_event_began_is_kept() {
    let mut mapper = alice();
    let mut empty = one_turn()[0].clone();
    empty["delta"] = Value::from("");
    let error = mapper.forward_envelope(&envelope(1, &empty)).expect_err("empty piece");
    assert_eq!(error.message(), "mock message omitted delta");
    let told = mapper.forward_envelope(&envelope(1, &one_turn()[0])).expect("again");
    assert!(told.is_empty());
    let other = event("user.message.delta", "command-1", "turn-1", "user-9", "delta", "x");
    let error = mapper.forward_envelope(&envelope(2, &other)).expect_err("id is fixed");
    assert_eq!(error.message(), "CloudStaff mock changed user messageId within a turn");
}

#[test]
fn turns_do_not_disturb_each_other() {
    let mut mapper = alice();
    let first = one_turn();
    let second: Vec<Value> = first
        .iter()
        .map(|event| {
            let mut event = event.clone();
            event["turnId"] = Value::from("turn-2");
            event["commandId"] = Value::from("command-2");
            event
        })
        .collect();
    let mut told = Vec::new();
    let mut seq = 0;
    for (a, b) in first.iter().zip(second.iter()) {
        for event in [a, b] {
            seq += 1;
            told.extend(mapper.forward_envelope(&envelope(seq, event)).expect("event"));
        }
    }
    assert_eq!(told.len(), 14);
    for (turn, events) in [("turn-1", &first), ("turn-2", &second)] {
        let mut mapper = alice();
        let mut alone = Vec::new();
        for (index, event) in events.iter().enumerate() {
            let envelope = envelope(index as u64 + 1, event);
            alone.extend(mapper.forward_envelope(&envelope).expect("event"));
        }
        let of_turn: Vec<&ServerNotification> =
            told.iter().filter(|notification| turn_of(notification) == turn).collect();
        assert_eq!(format!("{of_turn:?}"), format!("{alone:?}"));
    }
}

#[test]
fn envelopes_are_checked_field_by_field() {
    let mut mapper = alice();
    let event = one_turn()[0].clone();
    let cases = [
        (json("[]"), "expected session.event envelope"),
        (json(r#"{"type": 1}"#), "expected session.event envelope"),
        (json(r#"{"type": "session.event"}"#), "session.event omitted eventSeq"),
        (
            json(r#"{"type": "session.event", "eventSeq": -1}"#),
            "session.event omitted eventSeq",
        ),
        (
            json(r#"{"type": "session.event", "eventSeq": 1.0}"#),
            "session.event omitted eventSeq",
        ),
        (
            json(r#"{"type": "session.event", "eventSeq": 2}"#),
            "CloudStaff mock event sequence has a gap",
        ),
        (
            json(r#"{"type": "session.event", "eventSeq": 1}"#),
            "session.event omitted event",
        ),
    ];
    for (value, message) in cases {
        let error = mapper.forward_envelope(&value).expect_err("refused");
        assert_eq!(error.kind(), ErrorKind::InvalidData);
        assert_eq!(error.message(), message);
    }
    for field in ["type", "turnId", "messageId", "commandId"] {
        let mut broken = event.clone();
        broken[field] = Value::from("");
        let error = mapper.forward_envelope(&envelope(1, &broken)).expect_err("refused");
        assert_eq!(error.message(), format!("mock message omitted {field}"));
    }
    let mut unknown = event.clone();
    unknown["type"] = Value::from("tool.call");
    let error = mapper.forward_envelope(&envelope(1, &unknown)).expect_err("refused");
    assert_eq!(error.message(), "unsupported CloudStaff mock event type");
    assert_eq!(mapper.last_event_seq(), 0);
}

#[test]
fn the_last_event_number_fences_everything() {
    let mut mapper = EventMapper::new(ThreadId { uuid: 1 }, u64::MAX);
    let told = mapper.forward_envelope(&envelope(u64::MAX, &one_turn()[0])).expect("fenced");
    assert!(told.is_empty());
}

#[test]
fn a_history_lists_each_turn_once_in_order() {
    let messages = vec![
        message("u1", "b", "user", "one", true),
        message("u2", "a", "user", "two", true),
        message("a1", "b", "assistant", "three", true),
        message("s1", "c", "system", "four", true),
        message("u3", "d", "user", "five", false),
        message("a2", "a", "assistant", "six", true),
    ];
    let turns = snapshot_turns(&messages);
    let ids: Vec<&str> = turns.iter().map(|turn| turn.id.as_str()).collect();
    assert_eq!(ids, vec!["b", "a", "c"]);
    let texts: Vec<String> = turns[0].items.iter().map(item_text).collect();
    assert_eq!(texts, vec!["one".to_string(), "three".to_string()]);
    let texts: Vec<String> = turns[1].items.iter().map(item_text).collect();
    assert_eq!(texts, vec!["two".to_string(), "six".to_string()]);
    assert!(turns[2].items.is_empty());
    assert!(snapshot_turns(&[]).is_empty());
}

#[test]
fn a_history_only_grows() {
    let messages = vec![
        message("u1", "b", "user", "one", true),
        message("u2", "a", "user", "two", true),
        message("a1", "b", "assistant", "three", true),
        message("a2", "a", "assistant", "four", true),
        message("u3", "c", "user", "five", true),
    ];
    let whole = snapshot_turns(&messages);
    for n in 0..messages.len() {
        let part = snapshot_turns(&messages[..n]);
        assert!(part.len() <= whole.len());
        for (before, after) in part.iter().zip(whole.iter()) {
            assert_eq!(before.id, after.id);
            for (old, new) in before.items.iter().zip(after.items.iter()) {
                assert_eq!(format!("{old:?}"), format!("{new:?}"));
            }
            assert!(before.items.len() <= after.items.len());
        }
    }
}

#[test]
fn an_unfinished_message_leaves_no_trace() {
    let finished = vec![
        message("u1", "a", "user", "one", true),
        message("a1", "a", "assistant", "two", true),
    ];
    let mut drafted = finished.clone();
    drafted.insert(1, message("u2", "b", "user", "draft", false));
    assert_eq!(
        format!("{:?}", snapshot_turns(&drafted)),
        format!("{:?}", snapshot_turns(&finished))
    );
}

#[test]
fn a_turn_looks_the_same_live_and_in_the_history() {
    let mut mapper = alice();
    let mut ended = None;
    for (index, event) in one_turn().iter().enumerate() {
        let told = mapper.forward_envelope(&envelope(index as u64 + 1, event)).expect("event");
        for notification in told {
            if let ServerNotification::TurnCompleted(n) = notification {
                ended = Some(n.turn);
            }
        }
    }
    let turns = snapshot_turns(&[
        message("user-1", "turn-1", "user", "hello", true),
        message("assistant-1", "turn-1", "assistant", "hi", true),
    ]);
    assert_eq!(turns.len(), 1);
    assert_eq!(format!("{:?}", turns[0]), format!("{:?}", ended.expect("turn")));
}
