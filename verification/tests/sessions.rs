use cloudstaff_mock_backend::attach::{
    ApprovalsReviewer, AskForApproval, SandboxPolicy, SessionSource, ThreadStatus,
};
use cloudstaff_mock_backend::backend::{
    request_typed, unavailable_error, AppServerClient, AppServerRequestHandle, TuiBackendClient,
    TuiBackendRequestHandle, TypedRequestError,
};
use cloudstaff_mock_backend::error::{invalid_data, BackendError, ErrorKind};
use cloudstaff_mock_backend::mapper::EventMapper;
use cloudstaff_mock_backend::protocol::ServerNotification;
use cloudstaff_mock_backend::session::{
    check_joined, complete_join, join_reply, join_request, Incoming, JoinedSession,
};
use cloudstaff_mock_backend::snapshot::SnapshotMessage;
use cloudstaff_mock_backend::thread_id::{deterministic_thread_id, ThreadId};
use cloudstaff_mock_backend::shutdown::{
    shutdown_result, Shutdown, ShutdownAction, ShutdownEvent, WorkerExit,
};
use cloudstaff_mock_backend::worker::{
    delivery_error, handed_over, on_event, DeliveryFailure, Handover, WorkerAction, WorkerEvent,
};
use serde_json::Value;

fn json(text: &str) -> Value {
    serde_json::from_str(text).expect("test JSON")
}

fn joined() -> Value {
    json(
        r#"{
            "type": "session.joined",
            "sessionId": "alice",
            "deviceId": "codex-tui",
            "hubEpoch": 1,
            "eventSeq": 12,
            "replay": [],
            "snapshot": {
                "status": "ready",
                "primaryThreadId": "thread-1",
                "messages": []
            }
        }"#,
    )
}

fn message(role: &str, text: &str, completed: bool) -> SnapshotMessage {
    SnapshotMessage {
        message_id: format!("{role}-1"),
        turn_id: "turn-1".to_string(),
        role: role.to_string(),
        text: text.to_string(),
        completed,
    }
}

fn session(messages: Vec<SnapshotMessage>) -> JoinedSession {
    JoinedSession {
        session_id: "alice".to_string(),
        thread_id: deterministic_thread_id("alice").expect("thread id"),
        snapshot_messages: messages,
    }
}

#[test]
fn a_join_asks_for_the_session() {
    assert_eq!(
        join_request("alice", "codex-tui"),
        json(
            r#"{
                "type": "session.join",
                "requestId": "codex-tui-join-1",
                "sessionId": "alice",
                "deviceId": "codex-tui",
                "afterEventSeq": null
            }"#
        )
    );
}

#[test]
fn waiting_for_a_join_can_fail() {
    assert_eq!(join_reply(Incoming::Message(joined())).expect("reply"), joined());
    let error = join_reply(Incoming::TimedOut).expect_err("late");
    assert_eq!(error.kind(), ErrorKind::TimedOut);
    assert_eq!(error.message(), "CloudStaff mock join timed out");
    let error = join_reply(Incoming::Closed).expect_err("closed");
    assert_eq!(error.kind(), ErrorKind::UnexpectedEof);
    assert_eq!(error.message(), "mock closed before join");
    let error = join_reply(Incoming::Failed(invalid_data("x"))).expect_err("failed");
    assert_eq!(error.message(), "x");
}

#[test]
fn a_join_is_completed() {
    let reply = joined();
    let check = check_joined(&reply, "alice", "codex-tui").expect("check");
    assert_eq!(check.messages(), &json("[]"));
    let (session, mapper) =
        complete_join(check, Ok(vec![message("user", "hello", true)])).expect("join");
    assert_eq!(session.session_id, "alice");
    assert_eq!(session.thread_id.to_string(), "3690c325-8ec5-5b76-b59b-49e753ad8d07");
    assert_eq!(session.snapshot_messages.len(), 1);
    assert_eq!(mapper.last_event_seq(), 12);
}

#[test]
fn a_join_reply_is_checked_field_by_field() {
    let cases = [
        ("type", json(r#""error""#), "protocol_error: mock rejected request"),
        ("sessionId", json("1"), "mock message omitted sessionId"),
        ("sessionId", json(r#""bob""#), "CloudStaff mock joined the wrong session"),
        ("deviceId", json(r#""""#), "mock message omitted deviceId"),
        ("deviceId", json(r#""phone""#), "CloudStaff mock echoed the wrong device"),
        ("hubEpoch", json("null"), "mock message omitted hubEpoch"),
        ("snapshot", json("[]"), "CloudStaff mock join omitted snapshot"),
        ("snapshot", json(r#"{"status": "busy"}"#), "CloudStaff mock snapshot is not ready"),
        (
            "snapshot",
            json(r#"{"status": "ready", "primaryThreadId": ""}"#),
            "CloudStaff mock snapshot omitted primaryThreadId",
        ),
        (
            "snapshot",
            json(r#"{"status": "ready", "primaryThreadId": "t"}"#),
            "CloudStaff mock snapshot omitted messages",
        ),
    ];
    for (field, value, message) in cases {
        let mut reply = joined();
        reply[field] = value;
        match check_joined(&reply, "alice", "codex-tui") {
            Ok(_) => panic!("expected a refusal: {message}"),
            Err(error) => {
                assert_eq!(error.kind(), ErrorKind::InvalidData);
                assert_eq!(error.message(), message);
            }
        }
    }
}

#[test]
fn a_join_can_fail_at_its_end() {
    let cases = [
        ("replay", json("{}"), "CloudStaff mock join omitted replay"),
        (
            "replay",
            json("[1]"),
            "fresh CloudStaff mock join unexpectedly included replay events",
        ),
        ("eventSeq", json(r#""12""#), "session.joined omitted eventSeq"),
    ];
    for (field, value, message) in cases {
        let mut reply = joined();
        reply[field] = value;
        let check = check_joined(&reply, "alice", "codex-tui").map_err(|_| ()).expect("check");
        match complete_join(check, Ok(Vec::new())) {
            Ok(_) => panic!("expected a refusal: {message}"),
            Err(error) => assert_eq!(error.message(), message),
        }
    }
    let reply = joined();
    let check = check_joined(&reply, "alice", "codex-tui").map_err(|_| ()).expect("check");
    match complete_join(check, Err("missing field `role`".to_string())) {
        Ok(_) => panic!("expected a refusal"),
        Err(error) => {
            assert_eq!(error.kind(), ErrorKind::InvalidData);
            assert_eq!(error.message(), "missing field `role`");
        }
    }
}

#[test]
fn a_session_is_attached_to() {
    let session = session(vec![
        message("assistant", "welcome", true),
        message("user", "draft", false),
        message("user", "hello", true),
    ]);
    let response =
        session.attached_response("gpt".to_string(), "/work".to_string(), "1.2.3".to_string());
    let thread = &response.thread;
    assert_eq!(thread.id, "3690c325-8ec5-5b76-b59b-49e753ad8d07");
    assert_eq!(thread.session_id, "alice");
    assert_eq!(thread.preview, "draft");
    assert_eq!(thread.turns.len(), 1);
    assert_eq!(thread.turns[0].items.len(), 2);
    assert_eq!(thread.status, ThreadStatus::Idle);
    assert!(thread.ephemeral);
    assert_eq!(thread.model_provider, "cloudstaff");
    assert!(matches!(&thread.source, SessionSource::Custom(name) if name == "cloudstaff-mock"));
    assert_eq!(thread.can_accept_direct_input, Some(true));
    assert_eq!(thread.agent_nickname.as_deref(), Some("alice"));
    assert_eq!(thread.name.as_deref(), Some("Alice"));
    assert_eq!(thread.cwd, "/work");
    assert_eq!(thread.cli_version, "1.2.3");
    assert_eq!(response.model, "gpt");
    assert_eq!(response.model_provider, "cloudstaff");
    assert_eq!(response.cwd, "/work");
    assert_eq!(response.approval_policy, AskForApproval::Never);
    assert_eq!(response.approvals_reviewer, ApprovalsReviewer::User);
    assert_eq!(response.sandbox, SandboxPolicy::ReadOnly { network_access: false });
}

#[test]
fn live_events_name_the_attached_thread() {
    let reply = joined();
    let check = check_joined(&reply, "alice", "codex-tui").map_err(|_| ()).expect("check");
    let (session, mut mapper) =
        complete_join(check, Ok(Vec::new())).map_err(|_| ()).expect("join");
    let response = session.attached_response(String::new(), String::new(), String::new());
    let event = json(
        r#"{
            "type": "session.event",
            "eventSeq": 13,
            "event": {
                "type": "user.message.delta",
                "commandId": "c",
                "turnId": "t",
                "messageId": "m",
                "delta": "x"
            }
        }"#,
    );
    let told = mapper.forward_envelope(&event).expect("event");
    match &told[0] {
        ServerNotification::TurnStarted(n) => assert_eq!(n.thread_id, response.thread.id),
        other => panic!("unexpected {other:?}"),
    }
}

#[test]
fn a_session_without_a_user_has_no_preview() {
    let session = session(vec![message("assistant", "welcome", true)]);
    let response =
        session.attached_response(String::new(), String::new(), String::new());
    assert_eq!(response.thread.preview, "");
}

#[test]
fn the_worker_stops_when_the_session_is_lost() {
    let mut mapper = EventMapper::new(ThreadId { uuid: 1 }, 0);
    assert!(matches!(
        on_event(&mut mapper, WorkerEvent::CommandDone { failed: false }),
        WorkerAction::Continue
    ));
    assert!(matches!(
        on_event(&mut mapper, WorkerEvent::ShutdownRequested),
        WorkerAction::CloseAndStop
    ));
    assert!(matches!(on_event(&mut mapper, WorkerEvent::CommandsClosed), WorkerAction::Stop));
    let farewells = [
        (
            WorkerEvent::CommandDone { failed: true },
            "CloudStaff mock command failed; reconnect required",
        ),
        (
            WorkerEvent::Received(json("{}")),
            "CloudStaff mock protocol error: expected session.event envelope",
        ),
        (
            WorkerEvent::NotDelivered(delivery_error(DeliveryFailure::Full)),
            "CloudStaff mock protocol error: CloudStaff mock event buffer is full",
        ),
        (WorkerEvent::StreamClosed, "CloudStaff mock session socket closed"),
        (
            WorkerEvent::ReadFailed("bad line".to_string()),
            "CloudStaff mock session read failed: bad line",
        ),
    ];
    for (event, farewell) in farewells {
        match on_event(&mut mapper, event) {
            WorkerAction::Disconnect(message) => assert_eq!(message, farewell),
            _ => panic!("expected a farewell: {farewell}"),
        }
    }
}

#[test]
fn the_worker_passes_events_on() {
    let mut mapper = EventMapper::new(ThreadId { uuid: 1 }, 0);
    let event = json(
        r#"{
            "type": "session.event",
            "eventSeq": 1,
            "event": {
                "type": "user.message.delta",
                "commandId": "c",
                "turnId": "t",
                "messageId": "m",
                "delta": "x"
            }
        }"#,
    );
    match on_event(&mut mapper, WorkerEvent::Received(event)) {
        WorkerAction::Tell(told) => assert_eq!(told.len(), 1),
        _ => panic!("expected notifications"),
    }
    assert_eq!(mapper.last_event_seq(), 1);
}

#[test]
fn deliveries_and_handovers_can_fail() {
    let error = delivery_error(DeliveryFailure::Full);
    assert_eq!(error.kind(), ErrorKind::WouldBlock);
    let error = delivery_error(DeliveryFailure::Closed);
    assert_eq!(error.kind(), ErrorKind::BrokenPipe);
    assert_eq!(error.message(), "TUI event receiver closed");
    let error = handed_over::<Value>(Handover::NotTaken).expect_err("stopped");
    assert_eq!(error.kind(), ErrorKind::BrokenPipe);
    assert_eq!(error.message(), "CloudStaff mock worker stopped");
    let error = handed_over::<Value>(Handover::Lost).expect_err("lost");
    assert_eq!(error.message(), "CloudStaff mock response was lost");
    assert_eq!(handed_over(Handover::Answered(json("1"))).expect("answer"), json("1"));
}

#[test]
fn shutdowns_end_well_or_badly() {
    assert!(shutdown_result(true, WorkerExit::Finished).is_ok());
    assert!(shutdown_result(false, WorkerExit::Finished).is_ok());
    assert!(shutdown_result(false, WorkerExit::Cancelled("c".to_string())).is_ok());
    let error = shutdown_result(true, WorkerExit::Cancelled("c".to_string())).expect_err("cancel");
    assert_eq!(error.kind(), ErrorKind::Other);
    assert_eq!(error.message(), "CloudStaff mock worker failed: c");
    let error = shutdown_result(false, WorkerExit::Failed("p".to_string())).expect_err("panic");
    assert_eq!(error.message(), "CloudStaff mock worker failed: p");
    let error = shutdown_result(true, WorkerExit::TimedOut).expect_err("late");
    assert_eq!(error.kind(), ErrorKind::TimedOut);
    assert_eq!(error.message(), "CloudStaff mock worker did not shut down");
}

#[test]
fn an_acknowledged_shutdown_is_graceful() {
    let mut shutdown = Shutdown::new();
    assert!(matches!(
        shutdown.on_event(ShutdownEvent::Asked { taken: true }),
        ShutdownAction::AwaitAcknowledgement
    ));
    assert!(matches!(
        shutdown.on_event(ShutdownEvent::Acknowledged { in_time: true }),
        ShutdownAction::Join
    ));
    match shutdown.on_event(ShutdownEvent::Joined(WorkerExit::Cancelled("c".to_string()))) {
        ShutdownAction::Return(Err(error)) => {
            assert_eq!(error.message(), "CloudStaff mock worker failed: c");
        }
        _ => panic!("expected a failure"),
    }
}

#[test]
fn an_unacknowledged_shutdown_aborts() {
    let mut shutdown = Shutdown::new();
    assert!(matches!(
        shutdown.on_event(ShutdownEvent::Asked { taken: false }),
        ShutdownAction::AbortAndJoin
    ));
    assert!(matches!(
        shutdown.on_event(ShutdownEvent::Joined(WorkerExit::Cancelled("c".to_string()))),
        ShutdownAction::Return(Ok(()))
    ));

    let mut shutdown = Shutdown::new();
    shutdown.on_event(ShutdownEvent::Asked { taken: true });
    assert!(matches!(
        shutdown.on_event(ShutdownEvent::Acknowledged { in_time: false }),
        ShutdownAction::AbortAndJoin
    ));
    assert!(matches!(
        shutdown.on_event(ShutdownEvent::Joined(WorkerExit::Cancelled("c".to_string()))),
        ShutdownAction::Return(Ok(()))
    ));
}

#[test]
fn a_shutdown_returns_with_the_worker_ended() {
    let mut shutdown = Shutdown::new();
    shutdown.on_event(ShutdownEvent::Asked { taken: true });
    shutdown.on_event(ShutdownEvent::Acknowledged { in_time: true });
    assert!(matches!(
        shutdown.on_event(ShutdownEvent::Joined(WorkerExit::TimedOut)),
        ShutdownAction::AbortAndReap
    ));
    match shutdown.on_event(ShutdownEvent::Reaped) {
        ShutdownAction::Return(Err(error)) => {
            assert_eq!(error.kind(), ErrorKind::TimedOut);
            assert_eq!(error.message(), "CloudStaff mock worker did not shut down");
        }
        _ => panic!("expected a failure"),
    }
}

#[test]
fn backends_show_one_face() {
    let embedded = TuiBackendClient::app_server(AppServerClient::InProcess);
    let remote = TuiBackendClient::app_server(AppServerClient::Remote {
        server_version: Some("9".to_string()),
    });
    let cloudstaff = TuiBackendClient::cloudstaff(session(Vec::new()));
    assert!(embedded.uses_embedded_app_server());
    assert!(!remote.uses_embedded_app_server());
    assert!(!cloudstaff.uses_embedded_app_server());
    assert_eq!(embedded.server_version(), None);
    assert_eq!(remote.server_version(), Some("9"));
    assert_eq!(cloudstaff.server_version(), None);
    let home = Some("/home".to_string());
    assert_eq!(remote.codex_home(home.clone()), home);
    assert_eq!(cloudstaff.codex_home(home), None);
    assert!(!embedded.is_cloudstaff());
    assert!(cloudstaff.is_cloudstaff());
    assert!(embedded.resolve_server_request().is_ok());
    let error = cloudstaff.resolve_server_request().expect_err("unavailable");
    assert_eq!(error.kind(), ErrorKind::Unsupported);
    let error = cloudstaff.reject_server_request().expect_err("unavailable");
    assert_eq!(error.message(), unavailable_error().message());
    assert_eq!(
        error.message(),
        "CloudStaff session backend is not connected in this build"
    );
    assert!(embedded
        .cloudstaff_attached_response(String::new(), String::new(), String::new())
        .is_none());
    assert!(cloudstaff
        .cloudstaff_attached_response(String::new(), String::new(), String::new())
        .is_some());
    assert_eq!(
        embedded.request_handle(),
        TuiBackendRequestHandle::AppServer(AppServerRequestHandle::InProcess)
    );
    assert!(embedded.request_handle().uses_embedded_app_server());
    assert!(!remote.request_handle().uses_embedded_app_server());
    assert_eq!(cloudstaff.request_handle(), TuiBackendRequestHandle::CloudStaff);
}

#[test]
fn typed_requests_name_their_method() {
    let typed = request_typed::<u8, BackendError, String>("m".to_string(), Ok(Ok(5)));
    assert_eq!(typed.expect("typed"), 5);
    match request_typed::<u8, BackendError, String>("m".to_string(), Ok(Err("bad".to_string()))) {
        Err(TypedRequestError::Deserialize { method, source }) => {
            assert_eq!((method.as_str(), source.as_str()), ("m", "bad"));
        }
        other => panic!("unexpected {other:?}"),
    }
    match request_typed::<u8, BackendError, String>("m".to_string(), Err(invalid_data("gone"))) {
        Err(TypedRequestError::Transport { method, source }) => {
            assert_eq!((method.as_str(), source.message()), ("m", "gone"));
        }
        other => panic!("unexpected {other:?}"),
    }
}
