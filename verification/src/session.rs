//! Joining a session, and what the renderer is given of it at once.

use crate::error::{
    invalid_data, invalid_wire, protocol_error, result_view, BackendError, ErrorKind, ErrorView,
};
use crate::json::{
    empty_object, json, member, null_value, plain_key, pointer_to, set_member, text_at, text_value,
    unsigned_at, Json,
};
use crate::mapper::{EventMapper, MapperView};
use crate::shape::{has, has_number};
use crate::snapshot::{MessageView, SnapshotMessage};
use crate::thread_id::{deterministic_thread_id, thread_of, ThreadId};
use crate::wire::{
    reported_error, required_number, required_str, required_text, required_u64, wire_error,
};
use serde_json::Value;
use vstd::prelude::*;

verus! {

/// The message that asks to join a session as a device, without replay.
pub open spec fn join_message(session_id: Seq<char>, device_id: Seq<char>) -> Json {
    Json::Object(
        map![
            "type"@ => Json::Text("session.join"@),
            "requestId"@ => Json::Text("codex-tui-join-1"@),
            "sessionId"@ => Json::Text(session_id),
            "deviceId"@ => Json::Text(device_id),
            "afterEventSeq"@ => Json::Null,
        ],
    )
}

/// The message that asks to join a session as a device.
pub fn join_request(session_id: &str, device_id: &str) -> (res: Value)
    ensures
        json(res) == join_message(session_id@, device_id@),
{
    let mut message = empty_object();
    set_member(&mut message, "type", text_value("session.join"));
    set_member(&mut message, "requestId", text_value("codex-tui-join-1"));
    set_member(&mut message, "sessionId", text_value(session_id));
    set_member(&mut message, "deviceId", text_value(device_id));
    set_member(&mut message, "afterEventSeq", null_value());
    message
}

/// What came of waiting for a message.
pub enum Incoming {
    /// Nothing came in time.
    TimedOut,
    /// Reading failed.
    Failed(BackendError),
    /// The peer closed the stream.
    Closed,
    /// A message came.
    Message(Value),
}

/// The reply to a join request, if one came.
pub fn join_reply(incoming: Incoming) -> (res: Result<Value, BackendError>)
    ensures
        match (incoming, res) {
            (Incoming::Message(value), Ok(reply)) => reply == value,
            (Incoming::TimedOut, Err(error)) => error.deep_view() == (ErrorView {
                kind: ErrorKind::TimedOut,
                message: "CloudStaff mock join timed out"@,
            }),
            (Incoming::Failed(failure), Err(error)) => error == failure,
            (Incoming::Closed, Err(error)) => error.deep_view() == (ErrorView {
                kind: ErrorKind::UnexpectedEof,
                message: "mock closed before join"@,
            }),
            _ => false,
        },
{
    match incoming {
        Incoming::Message(value) => Ok(value),
        Incoming::TimedOut => Err(
            BackendError::new(ErrorKind::TimedOut, "CloudStaff mock join timed out"),
        ),
        Incoming::Failed(failure) => Err(failure),
        Incoming::Closed => Err(
            BackendError::new(ErrorKind::UnexpectedEof, "mock closed before join"),
        ),
    }
}

/// Whether the member `inner` of the object under `outer` is a string other than the
/// empty one.
pub open spec fn has_nested_text(value: Json, outer: Seq<char>, inner: Seq<char>) -> bool {
    value.nested(outer, inner) matches Some(found) && found.text() matches Some(text) && text.len()
        > 0
}

/// What is wrong with the reply to a join request, before its messages are read:
/// the first rule that it breaks.
pub open spec fn join_error(reply: Json, session_id: Seq<char>, device_id: Seq<char>) -> Option<
    ErrorView,
> {
    if reply.text_at("type"@) != Some("session.joined"@) {
        Some(reported_error(reply))
    } else if required_text(reply, "sessionId"@) is Err {
        Some(required_text(reply, "sessionId"@)->Err_0)
    } else if required_text(reply, "sessionId"@)->Ok_0 != session_id {
        Some(protocol_error("CloudStaff mock joined the wrong session"@))
    } else if required_text(reply, "deviceId"@) is Err {
        Some(required_text(reply, "deviceId"@)->Err_0)
    } else if required_text(reply, "deviceId"@)->Ok_0 != device_id {
        Some(protocol_error("CloudStaff mock echoed the wrong device"@))
    } else if required_number(reply, "hubEpoch"@) is Err {
        Some(required_number(reply, "hubEpoch"@)->Err_0)
    } else if !(reply.get("snapshot"@) matches Some(snapshot) && snapshot is Object) {
        Some(protocol_error("CloudStaff mock join omitted snapshot"@))
    } else if !(reply.nested("snapshot"@, "status"@) matches Some(status) && status.text() == Some(
        "ready"@,
    )) {
        Some(protocol_error("CloudStaff mock snapshot is not ready"@))
    } else if !has_nested_text(reply, "snapshot"@, "primaryThreadId"@) {
        Some(protocol_error("CloudStaff mock snapshot omitted primaryThreadId"@))
    } else if reply.nested("snapshot"@, "messages"@) is None {
        Some(protocol_error("CloudStaff mock snapshot omitted messages"@))
    } else {
        None
    }
}

/// A reply to a join request that names the right session and device and holds a
/// snapshot.
pub struct JoinCheck<'a> {
    session_id: String,
    thread_id: ThreadId,
    messages: &'a Value,
    reply: &'a Value,
}

/// What a [`JoinCheck`] holds.
#[verifier::ext_equal]
pub struct JoinView {
    pub session_id: Seq<char>,
    pub thread_id: ThreadId,
    /// The messages of the snapshot, still to be decoded.
    pub messages: Json,
    pub reply: Json,
}

impl<'a> View for JoinCheck<'a> {
    type V = JoinView;

    closed spec fn view(&self) -> JoinView {
        JoinView {
            session_id: self.session_id@,
            thread_id: self.thread_id,
            messages: json(*self.messages),
            reply: json(*self.reply),
        }
    }
}

impl<'a> JoinCheck<'a> {
    /// The messages of the snapshot, to be decoded.
    pub fn messages(&self) -> (res: &'a Value)
        ensures
            json(*res) == self@.messages,
    {
        self.messages
    }
}

/// The pointers into the snapshot have two plain keys each.
proof fn lemma_snapshot_pointers()
    ensures
        plain_key("snapshot"@),
        plain_key("status"@),
        plain_key("primaryThreadId"@),
        plain_key("messages"@),
        "/snapshot/status"@ == pointer_to("snapshot"@, "status"@),
        "/snapshot/primaryThreadId"@ == pointer_to("snapshot"@, "primaryThreadId"@),
        "/snapshot/messages"@ == pointer_to("snapshot"@, "messages"@),
{
    reveal_strlit("snapshot");
    reveal_strlit("status");
    reveal_strlit("primaryThreadId");
    reveal_strlit("messages");
    reveal_strlit("/snapshot/status");
    reveal_strlit("/snapshot/primaryThreadId");
    reveal_strlit("/snapshot/messages");
}

/// Holds the reply to a join request against what was asked for.
pub fn check_joined<'a>(reply: &'a Value, session_id: &str, device_id: &str) -> (res: Result<
    JoinCheck<'a>,
    BackendError,
>)
    ensures
        match (res, join_error(json(*reply), session_id@, device_id@)) {
            (Err(error), Some(expected)) => error.deep_view() == expected,
            (Ok(check), None) => check@ == (JoinView {
                session_id: session_id@,
                thread_id: thread_of(session_id@),
                messages: json(*reply).nested("snapshot"@, "messages"@)->Some_0,
                reply: json(*reply),
            }),
            _ => false,
        },
{
    let joined = match text_at(reply, "type") {
        Some(kind) => *kind == *"session.joined",
        None => false,
    };
    if !joined {
        return Err(wire_error(reply));
    }
    match required_str(reply, "sessionId") {
        Ok(found) => if *found != *session_id {
            return Err(invalid_data("CloudStaff mock joined the wrong session"));
        },
        Err(error) => return Err(error),
    }
    match required_str(reply, "deviceId") {
        Ok(found) => if *found != *device_id {
            return Err(invalid_data("CloudStaff mock echoed the wrong device"));
        },
        Err(error) => return Err(error),
    }
    match required_u64(reply, "hubEpoch") {
        Ok(_) => {},
        Err(error) => return Err(error),
    }
    let has_snapshot = match member(reply, "snapshot") {
        Some(snapshot) => snapshot.is_object(),
        None => false,
    };
    if !has_snapshot {
        return Err(invalid_data("CloudStaff mock join omitted snapshot"));
    }
    proof {
        lemma_snapshot_pointers();
    }
    let ready = match reply.pointer("/snapshot/status") {
        Some(status) => match status.as_str() {
            Some(status) => *status == *"ready",
            None => false,
        },
        None => false,
    };
    if !ready {
        return Err(invalid_data("CloudStaff mock snapshot is not ready"));
    }
    let has_thread = match reply.pointer("/snapshot/primaryThreadId") {
        Some(thread) => match thread.as_str() {
            Some(thread) => !thread.is_empty(),
            None => false,
        },
        None => false,
    };
    if !has_thread {
        return Err(invalid_data("CloudStaff mock snapshot omitted primaryThreadId"));
    }
    let thread_id = match deterministic_thread_id(session_id) {
        Ok(thread_id) => thread_id,
        Err(error) => return Err(error),
    };
    match reply.pointer("/snapshot/messages") {
        Some(messages) => Ok(
            JoinCheck { session_id: session_id.to_owned(), thread_id, messages, reply },
        ),
        None => Err(invalid_data("CloudStaff mock snapshot omitted messages")),
    }
}

/// A session that was joined.
#[derive(Debug)]
pub struct JoinedSession {
    pub session_id: String,
    pub thread_id: ThreadId,
    pub snapshot_messages: Vec<SnapshotMessage>,
}

#[verifier::ext_equal]
pub struct JoinedView {
    pub session_id: Seq<char>,
    pub thread_id: ThreadId,
    pub snapshot_messages: Seq<MessageView>,
}

impl DeepView for JoinedSession {
    type V = JoinedView;

    open spec fn deep_view(&self) -> JoinedView {
        JoinedView {
            session_id: self.session_id@,
            thread_id: self.thread_id,
            snapshot_messages: self.snapshot_messages.deep_view(),
        }
    }
}

/// What is wrong with a checked reply once its messages were decoded, or were not.
pub open spec fn completion_error(
    reply: Json,
    decoded: Result<Seq<MessageView>, Seq<char>>,
) -> Option<ErrorView> {
    if decoded is Err {
        Some(protocol_error(decoded->Err_0))
    } else if !(reply.get("replay"@) matches Some(replay) && replay is Array) {
        Some(protocol_error("CloudStaff mock join omitted replay"@))
    } else if (reply.get("replay"@)->Some_0)->Array_0.len() != 0 {
        Some(
            protocol_error("fresh CloudStaff mock join unexpectedly included replay events"@),
        )
    } else if reply.unsigned_at("eventSeq"@) is None {
        Some(protocol_error("session.joined omitted eventSeq"@))
    } else {
        None
    }
}

/// Completes a join with the decoded messages of the snapshot, or with the text of
/// the decoder's error: the session, and a mapper that takes the event after the
/// snapshot next.
pub fn complete_join(
    check: JoinCheck<'_>,
    decoded: Result<Vec<SnapshotMessage>, String>,
) -> (res: Result<(JoinedSession, EventMapper), BackendError>)
    ensures
        match (res, completion_error(check@.reply, result_view(decoded))) {
            (Err(error), Some(expected)) => error.deep_view() == expected,
            (Ok((session, mapper)), None) => {
                &&& session.deep_view() == (JoinedView {
                    session_id: check@.session_id,
                    thread_id: check@.thread_id,
                    snapshot_messages: decoded->Ok_0.deep_view(),
                })
                &&& mapper@ == MapperView::new(
                    check@.thread_id,
                    check@.reply.unsigned_at("eventSeq"@)->Some_0,
                )
                &&& mapper@.well_formed()
            },
            _ => false,
        },
        forall|event_seq: u64|
            decoded is Ok && has(check@.reply, "replay"@, Json::Array(Seq::empty()))
                && #[trigger] has_number(check@.reply, "eventSeq"@, event_seq) ==> (
            res matches Ok((_, mapper)) && mapper@.last_event_seq == event_seq),
{
    let snapshot_messages = match decoded {
        Ok(messages) => messages,
        Err(error) => return Err(invalid_wire(error)),
    };
    let replay = match member(check.reply, "replay") {
        Some(replay) => replay.as_array(),
        None => None,
    };
    match replay {
        Some(events) => if events.len() != 0 {
            return Err(
                invalid_data("fresh CloudStaff mock join unexpectedly included replay events"),
            );
        },
        None => return Err(invalid_data("CloudStaff mock join omitted replay")),
    }
    match unsigned_at(check.reply, "eventSeq") {
        Some(event_seq) => {
            let mapper = EventMapper::new(check.thread_id, event_seq);
            Ok(
                (
                    JoinedSession {
                        session_id: check.session_id,
                        thread_id: check.thread_id,
                        snapshot_messages,
                    },
                    mapper,
                ),
            )
        },
        None => Err(invalid_data("session.joined omitted eventSeq")),
    }
}

} // verus!
