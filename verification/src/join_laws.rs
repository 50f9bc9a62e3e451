//! When a session is joined, and what it starts with.

use crate::attach::{
    lists, runs_read_only, ApprovalsReviewer, AskForApproval, SandboxPolicy, SessionSource, Thread,
    ThreadResumeResponse, ThreadStatus,
};
use crate::error::{ErrorKind, ErrorView};
use crate::json::Json;
use crate::mapper::MapperView;
use crate::session::{completion_error, join_error, join_message, JoinedView};
use crate::shape::{
    has, has_any_text, has_member, has_number, has_some_number, has_some_text, has_text,
};
use crate::snapshot::MessageView;
use crate::thread_id::{thread_of, uuid_v5, ThreadId};
use crate::wire::reported_error;
use vstd::prelude::*;

verus! {

/// The reason is invalid data, with this text.
pub open spec fn is_invalid(reason: Option<ErrorView>, message: Seq<char>) -> bool {
    reason matches Some(error) && error == (ErrorView { kind: ErrorKind::InvalidData, message })
}

/// The snapshot in a reply.
pub open spec fn snapshot_in(reply: Json) -> Json {
    reply->Object_0["snapshot"@]
}

/// Whether a reply names a session and a device that are not empty, and an epoch.
pub open spec fn names(reply: Json, session_id: Seq<char>, device_id: Seq<char>) -> bool {
    &&& has_text(reply, "type"@, "session.joined"@)
    &&& has_text(reply, "sessionId"@, session_id) && session_id.len() > 0
    &&& has_text(reply, "deviceId"@, device_id) && device_id.len() > 0
    &&& has_some_number(reply, "hubEpoch"@)
}

/// Whether a reply holds a snapshot, which is an object.
pub open spec fn holds_snapshot(reply: Json) -> bool {
    has_member(reply, "snapshot"@) && snapshot_in(reply) is Object
}

/// The request to join holds the session, the device and the fixed members, and nothing
/// else.
pub proof fn law_join_request_holds_what_was_asked(session_id: Seq<char>, device_id: Seq<char>)
    ensures
        has_text(join_message(session_id, device_id), "type"@, "session.join"@),
        has_text(join_message(session_id, device_id), "requestId"@, "codex-tui-join-1"@),
        has_text(join_message(session_id, device_id), "sessionId"@, session_id),
        has_text(join_message(session_id, device_id), "deviceId"@, device_id),
        has(join_message(session_id, device_id), "afterEventSeq"@, Json::Null),
        forall|key: Seq<char>| #[trigger]
            has_member(join_message(session_id, device_id), key) ==> key == "type"@ || key
                == "requestId"@ || key == "sessionId"@ || key == "deviceId"@ || key
                == "afterEventSeq"@,
{
    reveal_strlit("type");
    reveal_strlit("requestId");
    reveal_strlit("sessionId");
    reveal_strlit("deviceId");
    reveal_strlit("afterEventSeq");
    assert("type"@.len() == 4);
    assert("deviceId"@.len() == 8);
    assert("afterEventSeq"@.len() == 13);
    assert("requestId"@.len() == 9 && "requestId"@[0] == 'r');
    assert("sessionId"@.len() == 9 && "sessionId"@[0] == 's');
}

/// An error that the peer reports carries its code and its text, each with a fallback.
pub proof fn law_reported_errors_are_quoted(value: Json, code: Seq<char>, message: Seq<char>)
    ensures
        reported_error(value).kind == ErrorKind::InvalidData,
        has_text(value, "code"@, code) && has_text(value, "message"@, message) ==> reported_error(
            value,
        ).message == code + ": "@ + message,
        has_text(value, "code"@, code) && !has_any_text(value, "message"@) ==> reported_error(
            value,
        ).message == code + ": "@ + "mock rejected request"@,
        !has_any_text(value, "code"@) && has_text(value, "message"@, message) ==> reported_error(
            value,
        ).message == "protocol_error"@ + ": "@ + message,
        !has_any_text(value, "code"@) && !has_any_text(value, "message"@) ==> reported_error(
            value,
        ).message == "protocol_error"@ + ": "@ + "mock rejected request"@,
{
}

/// A reply passes the check exactly if it names the session and the device that were
/// asked for and an epoch, and holds a ready snapshot with a thread and messages.
pub proof fn law_replies_pass_exactly_when_complete(
    reply: Json,
    session_id: Seq<char>,
    device_id: Seq<char>,
)
    ensures
        join_error(reply, session_id, device_id) is None <==> {
            &&& names(reply, session_id, device_id)
            &&& holds_snapshot(reply)
            &&& has_text(snapshot_in(reply), "status"@, "ready"@)
            &&& has_some_text(snapshot_in(reply), "primaryThreadId"@)
            &&& has_member(snapshot_in(reply), "messages"@)
        },
        join_error(reply, session_id, device_id) is None ==> reply.nested(
            "snapshot"@,
            "messages"@,
        ) == Some(snapshot_in(reply)->Object_0["messages"@]),
{
}

/// A reply that does not pass is refused for the first thing that is wrong with it.
pub proof fn law_first_fault_of_a_reply_is_reported(
    reply: Json,
    session_id: Seq<char>,
    device_id: Seq<char>,
    found: Seq<char>,
)
    ensures
        ({
            let reason = join_error(reply, session_id, device_id);
            let joined = has_text(reply, "type"@, "session.joined"@);
            let in_session = joined && session_id.len() > 0 && has_text(
                reply,
                "sessionId"@,
                session_id,
            );
            let on_device = in_session && device_id.len() > 0 && has_text(
                reply,
                "deviceId"@,
                device_id,
            );
            let named = names(reply, session_id, device_id);
            let held = named && holds_snapshot(reply);
            let ready = held && has_text(snapshot_in(reply), "status"@, "ready"@);
            let threaded = ready && has_some_text(snapshot_in(reply), "primaryThreadId"@);
            &&& !joined ==> reason == Some(reported_error(reply))
            &&& joined && !has_some_text(reply, "sessionId"@) ==> is_invalid(
                reason,
                "mock message omitted "@ + "sessionId"@,
            )
            &&& joined && found.len() > 0 && has_text(reply, "sessionId"@, found) && found
                != session_id ==> is_invalid(reason, "CloudStaff mock joined the wrong session"@)
            &&& in_session && !has_some_text(reply, "deviceId"@) ==> is_invalid(
                reason,
                "mock message omitted "@ + "deviceId"@,
            )
            &&& in_session && found.len() > 0 && has_text(reply, "deviceId"@, found) && found
                != device_id ==> is_invalid(reason, "CloudStaff mock echoed the wrong device"@)
            &&& on_device && !has_some_number(reply, "hubEpoch"@) ==> is_invalid(
                reason,
                "mock message omitted "@ + "hubEpoch"@,
            )
            &&& named && !holds_snapshot(reply) ==> is_invalid(
                reason,
                "CloudStaff mock join omitted snapshot"@,
            )
            &&& held && !ready ==> is_invalid(reason, "CloudStaff mock snapshot is not ready"@)
            &&& ready && !threaded ==> is_invalid(
                reason,
                "CloudStaff mock snapshot omitted primaryThreadId"@,
            )
            &&& threaded && !has_member(snapshot_in(reply), "messages"@) ==> is_invalid(
                reason,
                "CloudStaff mock snapshot omitted messages"@,
            )
        }),
{
}

/// A checked reply completes the join, whatever its event number, the least and the
/// greatest included: decoded messages, an empty replay and a number are all it takes,
/// and the mapper's last number is that number.
pub proof fn law_join_completes_at_any_number(
    reply: Json,
    messages: Seq<MessageView>,
    event_seq: u64,
    thread_id: ThreadId,
)
    requires
        has(reply, "replay"@, Json::Array(Seq::empty())),
        has_number(reply, "eventSeq"@, event_seq),
    ensures
        completion_error(reply, Ok(messages)) is None,
        MapperView::new(
            thread_id,
            reply.unsigned_at("eventSeq"@)->Some_0,
        ).last_event_seq == event_seq,
{
}

/// A join is not completed for one of these reasons, in this order, and for no other:
/// the messages were not decoded, there is no replay, the replay holds events, or there
/// is no event number.
pub proof fn law_join_is_refused_only_for_a_fault(
    reply: Json,
    decoded: Result<Seq<MessageView>, Seq<char>>,
    events: Seq<Json>,
)
    ensures
        ({
            let reason = completion_error(reply, decoded);
            let replay = reply->Object_0["replay"@];
            let has_replay = has_member(reply, "replay"@) && replay is Array;
            &&& decoded is Err ==> is_invalid(reason, decoded->Err_0)
            &&& decoded is Ok && !has_replay ==> is_invalid(
                reason,
                "CloudStaff mock join omitted replay"@,
            )
            &&& decoded is Ok && has(reply, "replay"@, Json::Array(events)) && events.len() > 0
                ==> is_invalid(
                reason,
                "fresh CloudStaff mock join unexpectedly included replay events"@,
            )
            &&& decoded is Ok && has(reply, "replay"@, Json::Array(events)) && events.len() == 0
                && !has_some_number(reply, "eventSeq"@) ==> is_invalid(
                reason,
                "session.joined omitted eventSeq"@,
            )
            &&& decoded is Ok && has(reply, "replay"@, Json::Array(events)) && events.len() == 0
                && has_some_number(reply, "eventSeq"@) ==> reason is None
        }),
{
}

/// The thread of a session is the name-based UUID of the session's id in the namespace of
/// this backend.
pub proof fn law_thread_is_named_after_the_session(session_id: Seq<char>)
    ensures
        thread_of(session_id).uuid == uuid_v5(
            0x8a4f6f6d_0c0c_4f71_99b1_99fd30f18f11,
            vstd::utf8::encode_utf8(session_id),
        ),
{
}

/// A thread that lists a session has fixed names and times, and none of the optional
/// parts.
pub proof fn law_attached_thread_has_fixed_names(thread: Thread, session: JoinedView)
    requires
        lists(thread, session),
    ensures
        thread.ephemeral,
        thread.status == ThreadStatus::Idle,
        thread.model_provider@ == "cloudstaff"@,
        thread.source matches SessionSource::Custom(source) && source@ == "cloudstaff-mock"@,
        thread.can_accept_direct_input == Some(true),
        thread.agent_nickname matches Some(nickname) && nickname@ == "alice"@,
        thread.name matches Some(name) && name@ == "Alice"@,
        thread.created_at == 0,
        thread.updated_at == 0,
        thread.recency_at is None,
        thread.extra is None,
        thread.forked_from_id is None,
        thread.parent_thread_id is None,
        thread.history_mode is None,
        thread.path is None,
        thread.thread_source is None,
        thread.agent_role is None,
        thread.git_info is None,
{
}

/// A session is attached to for reading only: the agent never asks, and has no network.
pub proof fn law_attached_session_reads_only(response: ThreadResumeResponse)
    requires
        runs_read_only(response),
    ensures
        response.sandbox == (SandboxPolicy::ReadOnly { network_access: false }),
        response.approval_policy == AskForApproval::Never,
        response.approvals_reviewer == ApprovalsReviewer::User,
        response.model_provider@ == "cloudstaff"@,
        response.runtime_workspace_roots@.len() == 0,
        response.instruction_sources@.len() == 0,
        response.service_tier is None,
        response.active_permission_profile is None,
        response.reasoning_effort is None,
        response.multi_agent_mode is None,
        response.initial_turns_page is None,
        response.turns_backwards_cursor is None,
        response.items_backwards_cursor is None,
{
}

} // verus!
