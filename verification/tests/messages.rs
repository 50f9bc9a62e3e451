use cloudstaff_mock_backend::command::{
    admit_request, command_reply, read_acceptance, submit_turn, turn_response, Acceptance,
    Admission, ClientRequest, CommandProgress, CommandStep, RequestId, TurnCommand,
    TurnStartParams,
};
use cloudstaff_mock_backend::error::{invalid_data, invalid_wire, ErrorKind};
use cloudstaff_mock_backend::live_turn::{require_phase, require_stable_id, LivePhase};
use cloudstaff_mock_backend::mapper::EventMapper;
use cloudstaff_mock_backend::protocol::{TextElement, TurnStatus, UserInput};
use cloudstaff_mock_backend::session::Incoming;
use cloudstaff_mock_backend::thread_id::ThreadId;
use cloudstaff_mock_backend::wire::{
    read_json_line, request_method_name, required_str, required_u64, text_only_input, wire_error,
    write_json_line,
};
use cloudstaff_mock_backend::worker::{on_event, WorkerAction, WorkerEvent};
use serde_json::Value;

fn json(text: &str) -> Value {
    serde_json::from_str(text).expect("test JSON")
}

fn text(text: &str) -> UserInput {
    UserInput::Text {
        text: text.to_string(),
        text_elements: vec![TextElement { start: 0, end: 1 }],
    }
}

fn start(id: RequestId, client: Option<&str>, input: Vec<UserInput>) -> ClientRequest {
    ClientRequest::TurnStart {
        request_id: id,
        params: TurnStartParams {
            client_user_message_id: client.map(|id| id.to_string()),
            input,
        },
    }
}

fn command() -> TurnCommand {
    submit_turn(start(RequestId::Integer(7), Some("client-1"), vec![text("hello")]))
        .expect("command")
}

fn accepted() -> Value {
    json(
        r#"{
            "type": "session.command.accepted",
            "requestId": "codex-Integer(7)",
            "sessionId": "alice",
            "commandId": "client-1",
            "turnId": "turn-1",
            "firstEventSeq": 5,
            "lastEventSeq": 8,
            "duplicate": false
        }"#,
    )
}

#[test]
fn a_message_is_one_line() {
    let value = json(r#"{ "b": "two\nlines", "a": [1, null, true] }"#);
    let line = write_json_line(&value).expect("line");
    assert_eq!(
        String::from_utf8(line).expect("UTF-8"),
        "{\"a\":[1,null,true],\"b\":\"two\\nlines\"}\n"
    );
}

#[test]
fn every_message_can_be_written() {
    for (value, line) in [
        (json("null"), "null\n"),
        (json("-1.5e3"), "-1500.0\n"),
        (Value::from(f64::NAN), "null\n"),
        (Value::from("\u{1}\n\"\u{2028}"), "\"\\u0001\\n\\\"\u{2028}\"\n"),
        (json(r#"{"b": {}, "a": [[], -1]}"#), "{\"a\":[[],-1],\"b\":{}}\n"),
    ] {
        let bytes = write_json_line(&value).expect("line");
        assert_eq!(String::from_utf8(bytes).expect("UTF-8"), line);
    }
}

#[test]
fn a_line_is_one_message() {
    let value = read_json_line(Some(r#"{"a": 1}"#.to_string())).expect("line").expect("value");
    assert_eq!(value["a"], Value::from(1));
    assert!(read_json_line(None).expect("end").is_none());
    let error = read_json_line(Some("{".to_string())).expect_err("no JSON");
    assert_eq!(error.kind(), ErrorKind::InvalidData);
    assert_eq!(error.message(), "EOF while parsing an object at line 1 column 1");
}

#[test]
fn fields_are_required() {
    let value = json(r#"{"name": "x", "empty": "", "count": 3, "negative": -3, "half": 0.5}"#);
    assert_eq!(required_str(&value, "name").expect("name"), "x");
    assert_eq!(required_u64(&value, "count").expect("count"), 3);
    for field in ["empty", "count", "absent"] {
        let error = required_str(&value, field).expect_err("no text");
        assert_eq!(error.message(), format!("mock message omitted {field}"));
        assert_eq!(error.kind(), ErrorKind::InvalidData);
    }
    for field in ["negative", "half", "name", "absent"] {
        let error = required_u64(&value, field).expect_err("no number");
        assert_eq!(error.message(), format!("mock message omitted {field}"));
    }
    assert!(required_str(&json("[\"name\"]"), "name").is_err());
}

#[test]
fn errors_of_the_peer_have_fallbacks() {
    let error = wire_error(&json(r#"{"code": "busy", "message": "try later"}"#));
    assert_eq!(error.message(), "busy: try later");
    assert_eq!(error.kind(), ErrorKind::InvalidData);
    let error = wire_error(&json("{}"));
    assert_eq!(error.message(), "protocol_error: mock rejected request");
}

#[test]
fn errors_carry_their_text() {
    assert_eq!(invalid_data("a").message(), "a");
    assert_eq!(invalid_wire("b".to_string()).message(), "b");
    assert_eq!(invalid_wire("b".to_string()).kind(), ErrorKind::InvalidData);
}

#[test]
fn methods_are_named() {
    assert_eq!(request_method_name(Some(&json(r#"{"method": "turn/start"}"#))), "turn/start");
    assert_eq!(request_method_name(Some(&json("{}"))), "<unknown>");
    assert_eq!(request_method_name(None), "<unknown>");
}

#[test]
fn turns_are_plain_text() {
    assert_eq!(text_only_input(vec![text("ab"), text("c")]).expect("text"), "abc");
    let error = text_only_input(vec![text("ab"), UserInput::NonText]).expect_err("image");
    assert_eq!(error.kind(), ErrorKind::Unsupported);
    assert_eq!(error.message(), "CloudStaff mock accepts text-only turns");
    for input in [vec![], vec![text("")]] {
        let error = text_only_input(input).expect_err("empty");
        assert_eq!(error.kind(), ErrorKind::InvalidData);
        assert_eq!(error.message(), "CloudStaff mock turn text must not be empty");
    }
}

#[test]
fn phases_and_ids_are_held() {
    assert!(require_phase(LivePhase::User, LivePhase::User).is_ok());
    let error = require_phase(LivePhase::User, LivePhase::Assistant).expect_err("order");
    assert_eq!(error.message(), "CloudStaff mock event arrived out of order");
    let mut id = None;
    assert!(require_stable_id(&mut id, "m-1", "user").is_ok());
    assert_eq!(id.as_deref(), Some("m-1"));
    assert!(require_stable_id(&mut id, "m-1", "user").is_ok());
    let error = require_stable_id(&mut id, "m-2", "user").expect_err("changed");
    assert_eq!(error.message(), "CloudStaff mock changed user messageId within a turn");
    assert_eq!(id.as_deref(), Some("m-1"));
}

#[test]
fn requests_are_admitted_or_refused() {
    match admit_request(&ClientRequest::ThreadUnsubscribe, "thread/unsubscribe") {
        Ok(Admission::Reply(reply)) => assert_eq!(reply, json("{}")),
        other => panic!("unexpected {other:?}"),
    }
    match admit_request(&ClientRequest::SkillsList, "skills/list") {
        Ok(Admission::Reply(reply)) => assert_eq!(reply, json(r#"{"data": []}"#)),
        other => panic!("unexpected {other:?}"),
    }
    let error = admit_request(&ClientRequest::ThreadResume, "thread/resume").expect_err("resume");
    assert_eq!(error.kind(), ErrorKind::Unsupported);
    assert_eq!(
        error.message(),
        "CloudStaff attach is injected at startup; thread/resume is forbidden"
    );
    let error = admit_request(&ClientRequest::Other, "model/list").expect_err("other");
    assert_eq!(error.kind(), ErrorKind::Unsupported);
    assert_eq!(error.message(), "model/list is not admitted by the CloudStaff mock adapter");
    let request = start(RequestId::Integer(1), None, vec![]);
    assert!(matches!(admit_request(&request, "turn/start"), Ok(Admission::Submit)));
}

#[test]
fn a_turn_becomes_a_command() {
    assert_eq!(
        command().message(),
        json(
            r#"{
                "type": "session.command",
                "requestId": "codex-Integer(7)",
                "commandId": "client-1",
                "commandKind": "turn.start",
                "text": "hello"
            }"#
        )
    );
    let named = submit_turn(start(
        RequestId::String("say \"hi\"\n".to_string()),
        Some("client-1"),
        vec![text("hello")],
    ))
    .expect("command");
    assert_eq!(named.request_id, "codex-String(\"say \\\"hi\\\"\\n\")");
    let lowest = submit_turn(start(RequestId::Integer(i64::MIN), Some("c"), vec![text("x")]))
        .expect("command");
    assert_eq!(lowest.request_id, "codex-Integer(-9223372036854775808)");
    let long = submit_turn(start(RequestId::Integer(-1203456789), Some("c"), vec![text("x")]))
        .expect("command");
    assert_eq!(long.request_id, "codex-Integer(-1203456789)");
    let highest = submit_turn(start(RequestId::Integer(i64::MAX), Some("c"), vec![text("x")]))
        .expect("command");
    assert_eq!(highest.request_id, "codex-Integer(9223372036854775807)");
    let zero =
        submit_turn(start(RequestId::Integer(0), Some("c"), vec![text("x")])).expect("command");
    assert_eq!(zero.request_id, "codex-Integer(0)");
}

#[test]
fn a_turn_needs_an_id_and_a_text() {
    let error = submit_turn(start(RequestId::Integer(1), None, vec![UserInput::NonText]))
        .expect_err("no id");
    assert_eq!(error.kind(), ErrorKind::InvalidData);
    assert_eq!(error.message(), "CloudStaff turn/start requires a stable clientUserMessageId");
    let error =
        submit_turn(start(RequestId::Integer(1), Some("c"), vec![])).expect_err("no text");
    assert_eq!(error.message(), "CloudStaff mock turn text must not be empty");
    let error = submit_turn(ClientRequest::SkillsList).expect_err("no turn");
    assert_eq!(error.kind(), ErrorKind::Unsupported);
    assert_eq!(error.message(), "unsupported command");
}

#[test]
fn waiting_for_a_command_can_fail() {
    let value = json("[1]");
    assert_eq!(command_reply(Incoming::Message(value.clone())).expect("message"), value);
    let error = command_reply(Incoming::TimedOut).expect_err("late");
    assert_eq!(error.kind(), ErrorKind::TimedOut);
    assert_eq!(error.message(), "CloudStaff mock command acknowledgement timed out");
    let error = command_reply(Incoming::Closed).expect_err("closed");
    assert_eq!(error.kind(), ErrorKind::UnexpectedEof);
    assert_eq!(error.message(), "mock closed during command");
    let error = command_reply(Incoming::Failed(invalid_data("x"))).expect_err("failed");
    assert_eq!(error.message(), "x");
}

#[test]
fn a_command_is_accepted() {
    let mut mapper = EventMapper::new(ThreadId { uuid: 1 }, 4);
    let step = command().step("alice", &mut mapper, &accepted()).expect("accepted");
    let CommandStep::Accepted(acceptance) = step else {
        panic!("expected acceptance");
    };
    let turn = acceptance.started_turn(mapper.last_event_seq()).expect("turn");
    assert_eq!(turn.id, "turn-1");
    assert_eq!(turn.status, TurnStatus::InProgress);
    assert!(turn.items.is_empty());
    let error = acceptance.started_turn(3).expect_err("not next");
    assert_eq!(error.message(), "CloudStaff command event range is not contiguous");
}

#[test]
fn an_acceptance_is_held_against_the_mapper() {
    let mut mapper = EventMapper::new(ThreadId { uuid: 1 }, 4);
    match command().take_message("alice", &mut mapper, &accepted()) {
        Ok(CommandProgress::Started(turn)) => {
            assert_eq!(turn.id, "turn-1");
            assert_eq!(turn.status, TurnStatus::InProgress);
        }
        other => panic!("unexpected {other:?}"),
    }
    for last_event_seq in [3, 5] {
        let mut mapper = EventMapper::new(ThreadId { uuid: 1 }, last_event_seq);
        let error =
            command().take_message("alice", &mut mapper, &accepted()).expect_err("not next");
        assert_eq!(error.message(), "CloudStaff command event range is not contiguous");
    }
    let mut repeated = accepted();
    repeated["duplicate"] = Value::from(true);
    let mut mapper = EventMapper::new(ThreadId { uuid: 1 }, 7);
    let error = command().take_message("alice", &mut mapper, &repeated).expect_err("unseen");
    assert_eq!(error.message(), "duplicate CloudStaff command references unseen events");
}

#[test]
fn no_number_follows_the_last_one() {
    let mut mapper = EventMapper::new(ThreadId { uuid: 1 }, u64::MAX);
    assert!(matches!(
        command().take_message("alice", &mut mapper, &accepted()),
        Ok(CommandProgress::Exhausted)
    ));
    let mut repeated = accepted();
    repeated["duplicate"] = Value::from(true);
    assert!(matches!(
        command().take_message("alice", &mut mapper, &repeated),
        Ok(CommandProgress::Started(_))
    ));
    let seen = json(r#"{"type": "session.event", "eventSeq": 5}"#);
    match command().take_message("alice", &mut mapper, &seen) {
        Ok(CommandProgress::Told(told)) => assert!(told.is_empty()),
        other => panic!("unexpected {other:?}"),
    }
}

#[test]
fn a_repeated_command_must_have_been_seen() {
    let acceptance = Acceptance {
        turn_id: "turn-1".to_string(),
        first_event_seq: 5,
        last_event_seq: 8,
        duplicate: true,
    };
    assert_eq!(acceptance.started_turn(8).expect("seen").id, "turn-1");
    assert_eq!(acceptance.started_turn(u64::MAX).expect("seen").id, "turn-1");
    let error = acceptance.started_turn(7).expect_err("unseen");
    assert_eq!(error.message(), "duplicate CloudStaff command references unseen events");
}

#[test]
fn an_acceptance_is_checked_field_by_field() {
    let cases = [
        ("sessionId", json(r#""""#), "mock message omitted sessionId"),
        (
            "sessionId",
            json(r#""bob""#),
            "CloudStaff mock accepted a command for the wrong session",
        ),
        ("commandId", json("null"), "mock message omitted commandId"),
        ("commandId", json(r#""client-2""#), "CloudStaff mock accepted the wrong commandId"),
        ("turnId", json("7"), "mock message omitted turnId"),
        ("firstEventSeq", json(r#""5""#), "mock message omitted firstEventSeq"),
        ("lastEventSeq", json("-8"), "mock message omitted lastEventSeq"),
        ("firstEventSeq", json("9"), "CloudStaff mock accepted an invalid event range"),
        ("duplicate", json("0"), "mock message omitted duplicate"),
    ];
    for (field, value, message) in cases {
        let mut reply = accepted();
        reply[field] = value;
        let error = read_acceptance(&reply, "alice", "client-1").expect_err("refused");
        assert_eq!(error.kind(), ErrorKind::InvalidData);
        assert_eq!(error.message(), message);
    }
    let acceptance = read_acceptance(&accepted(), "alice", "client-1").expect("accepted");
    assert_eq!(acceptance.first_event_seq, 5);
    assert_eq!(acceptance.last_event_seq, 8);
    assert!(!acceptance.duplicate);
}

#[test]
fn other_messages_while_a_command_waits() {
    let mut mapper = EventMapper::new(ThreadId { uuid: 1 }, 4);
    let waiting = command();
    let event = json(
        r#"{
            "type": "session.event",
            "eventSeq": 5,
            "event": {
                "type": "user.message.completed",
                "commandId": "client-1",
                "turnId": "turn-1",
                "messageId": "user-1",
                "text": "hello"
            }
        }"#,
    );
    match waiting.step("alice", &mut mapper, &event) {
        Ok(CommandStep::Told(told)) => assert_eq!(told.len(), 3),
        other => panic!("unexpected {other:?}"),
    }
    assert_eq!(mapper.last_event_seq(), 5);
    let refused = json(
        r#"{"type": "error", "requestId": "codex-Integer(7)", "code": "c", "message": "m"}"#,
    );
    let error = waiting.step("alice", &mut mapper, &refused).expect_err("refused");
    assert_eq!(error.message(), "c: m");
    for stray in [
        r#"{"type": "error", "requestId": "other", "code": "c", "message": "m"}"#,
        r#"{"type": "session.command.accepted", "requestId": "other"}"#,
        r#"{"requestId": "codex-Integer(7)"}"#,
    ] {
        let error = waiting.step("alice", &mut mapper, &json(stray)).expect_err("stray");
        assert_eq!(error.message(), "unexpected mock response while submitting command");
    }
    assert_eq!(mapper.last_event_seq(), 5);
}

#[test]
fn events_are_mapped_alike_during_a_command() {
    let event = json(
        r#"{
            "type": "session.event",
            "requestId": "codex-Integer(7)",
            "eventSeq": 5,
            "event": {
                "type": "user.message.completed",
                "commandId": "client-1",
                "turnId": "turn-1",
                "messageId": "user-1",
                "text": "hello"
            }
        }"#,
    );
    let mut waiting = EventMapper::new(ThreadId { uuid: 1 }, 4);
    let mut idle = EventMapper::new(ThreadId { uuid: 1 }, 4);
    let step = command().step("alice", &mut waiting, &event).expect("event");
    let CommandStep::Told(told) = step else {
        panic!("expected notifications");
    };
    let action = on_event(&mut idle, WorkerEvent::Received(event));
    let WorkerAction::Tell(told_idle) = action else {
        panic!("expected notifications");
    };
    assert_eq!(format!("{told:?}"), format!("{told_idle:?}"));
    assert_eq!(waiting.last_event_seq(), idle.last_event_seq());
}

#[test]
fn a_started_turn_is_wrapped() {
    let response = turn_response(Ok(json(r#"{"id": "turn-1"}"#))).expect("response");
    assert_eq!(response, json(r#"{"turn": {"id": "turn-1"}}"#));
    let error = turn_response(Err("bad".to_string())).expect_err("failure");
    assert_eq!(error.message(), "failed to encode mapped turn: bad");
}

#[test]
fn a_command_between_events_changes_nothing_that_is_told() {
    let kinds = [
        ("user.message.delta", "user-1", "delta", "hel"),
        ("user.message.completed", "user-1", "text", "hello"),
        ("assistant.message.delta", "assistant-1", "delta", "hi"),
        ("assistant.message.completed", "assistant-1", "text", "hi"),
    ];
    let mut envelopes = Vec::new();
    for (index, (kind, message, field, text)) in kinds.iter().enumerate() {
        let mut event = json(r#"{"commandId": "client-0", "turnId": "turn-0"}"#);
        event["type"] = Value::from(*kind);
        event["messageId"] = Value::from(*message);
        event[*field] = Value::from(*text);
        let mut envelope = json(r#"{"type": "session.event"}"#);
        envelope["eventSeq"] = Value::from(index + 1);
        envelope["event"] = event;
        envelopes.push(envelope);
    }

    let mut plain = EventMapper::new(ThreadId { uuid: 1 }, 0);
    let mut expected = Vec::new();
    for envelope in &envelopes {
        expected.extend(plain.forward_envelope(envelope).expect("event"));
    }

    let mut served = EventMapper::new(ThreadId { uuid: 1 }, 0);
    let mut told = Vec::new();
    let waiting = command();
    for (index, envelope) in envelopes.iter().enumerate() {
        if index == 1 || index == 2 {
            match waiting.step("alice", &mut served, envelope) {
                Ok(CommandStep::Told(more)) => told.extend(more),
                other => panic!("unexpected {other:?}"),
            }
        } else {
            match on_event(&mut served, WorkerEvent::Received(envelope.clone())) {
                WorkerAction::Tell(more) => told.extend(more),
                _ => panic!("expected notifications"),
            }
        }
        if index == 2 {
            assert!(matches!(
                waiting.step("alice", &mut served, &accepted()),
                Ok(CommandStep::Accepted(_))
            ));
            assert!(matches!(
                on_event(&mut served, WorkerEvent::CommandDone { failed: false }),
                WorkerAction::Continue
            ));
        }
    }
    assert_eq!(told.len(), 7);
    assert_eq!(format!("{told:?}"), format!("{expected:?}"));
    assert_eq!(served.last_event_seq(), plain.last_event_seq());
}
