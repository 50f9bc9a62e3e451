//! The thread that the renderer attaches to when a session was joined.

use crate::history_laws::{is_users_first, law_preview_is_the_users_first_message};
use crate::protocol::Turn;
use crate::session::{JoinedSession, JoinedView};
use crate::snapshot::{history, snapshot_turns, MessageView, SnapshotMessage};
use vstd::prelude::*;

verus! {

/// Whether a thread is at work.
#[derive(Clone, Copy, Debug, PartialEq, Eq, Structural)]
pub enum ThreadStatus {
    Idle,
}

/// Where a thread comes from.
#[derive(Debug)]
pub enum SessionSource {
    Custom(String),
}

/// When the agent asks before it acts.
#[derive(Clone, Copy, Debug, PartialEq, Eq, Structural)]
pub enum AskForApproval {
    Never,
}

/// Who answers when the agent asks.
#[derive(Clone, Copy, Debug, PartialEq, Eq, Structural)]
pub enum ApprovalsReviewer {
    User,
}

/// What the agent may touch.
#[derive(Clone, Copy, Debug, PartialEq, Eq, Structural)]
pub enum SandboxPolicy {
    ReadOnly { network_access: bool },
}

/// A thread, as the renderer lists it. A mode of `None` is the protocol's default.
#[derive(Debug)]
pub struct Thread {
    pub id: String,
    pub extra: Option<String>,
    pub session_id: String,
    pub forked_from_id: Option<String>,
    pub parent_thread_id: Option<String>,
    pub preview: String,
    pub ephemeral: bool,
    pub history_mode: Option<String>,
    pub model_provider: String,
    pub created_at: i64,
    pub updated_at: i64,
    pub recency_at: Option<i64>,
    pub status: ThreadStatus,
    pub path: Option<String>,
    pub cwd: String,
    pub cli_version: String,
    pub source: SessionSource,
    pub can_accept_direct_input: Option<bool>,
    pub thread_source: Option<String>,
    pub agent_nickname: Option<String>,
    pub agent_role: Option<String>,
    pub git_info: Option<String>,
    pub name: Option<String>,
    pub turns: Vec<Turn>,
}

/// A thread with the settings under which it runs. A mode of `None` is the
/// protocol's default.
#[derive(Debug)]
pub struct ThreadResumeResponse {
    pub thread: Thread,
    pub model: String,
    pub model_provider: String,
    pub service_tier: Option<String>,
    pub cwd: String,
    pub runtime_workspace_roots: Vec<String>,
    pub instruction_sources: Vec<String>,
    pub approval_policy: AskForApproval,
    pub approvals_reviewer: ApprovalsReviewer,
    pub sandbox: SandboxPolicy,
    pub active_permission_profile: Option<String>,
    pub reasoning_effort: Option<String>,
    pub multi_agent_mode: Option<String>,
    pub initial_turns_page: Option<String>,
    pub turns_backwards_cursor: Option<String>,
    pub items_backwards_cursor: Option<String>,
}

/// The text of the first message of the user, or nothing where there is none.
pub open spec fn preview_of(messages: Seq<MessageView>) -> Seq<char>
    decreases messages.len(),
{
    if messages.len() == 0 {
        Seq::empty()
    } else if messages[0].role == "user"@ {
        messages[0].text
    } else {
        preview_of(messages.drop_first())
    }
}

/// The listing of a joined session: its thread, its history and its preview, under
/// fixed names.
pub open spec fn lists(thread: Thread, session: JoinedView) -> bool {
    &&& thread.id@ == session.thread_id.text()
    &&& thread.session_id@ == session.session_id
    &&& thread.preview@ == preview_of(session.snapshot_messages)
    &&& thread.turns.deep_view() == history(session.snapshot_messages)
    &&& thread.status == ThreadStatus::Idle
    &&& thread.ephemeral
    &&& thread.model_provider@ == "cloudstaff"@
    &&& thread.source->Custom_0@ == "cloudstaff-mock"@
    &&& thread.can_accept_direct_input == Some(true)
    &&& thread.agent_nickname.deep_view() == Some("alice"@)
    &&& thread.name.deep_view() == Some("Alice"@)
    &&& thread.created_at == 0
    &&& thread.updated_at == 0
    &&& thread.recency_at is None
    &&& thread.extra is None
    &&& thread.forked_from_id is None
    &&& thread.parent_thread_id is None
    &&& thread.history_mode is None
    &&& thread.path is None
    &&& thread.thread_source is None
    &&& thread.agent_role is None
    &&& thread.git_info is None
}

/// The settings of a joined session: the agent never asks, reads only, and has no
/// network.
pub open spec fn runs_read_only(response: ThreadResumeResponse) -> bool {
    &&& response.model_provider@ == "cloudstaff"@
    &&& response.approval_policy == AskForApproval::Never
    &&& response.approvals_reviewer == ApprovalsReviewer::User
    &&& response.sandbox == (SandboxPolicy::ReadOnly { network_access: false })
    &&& response.runtime_workspace_roots@.len() == 0
    &&& response.instruction_sources@.len() == 0
    &&& response.service_tier is None
    &&& response.active_permission_profile is None
    &&& response.reasoning_effort is None
    &&& response.multi_agent_mode is None
    &&& response.initial_turns_page is None
    &&& response.turns_backwards_cursor is None
    &&& response.items_backwards_cursor is None
}

fn preview(messages: &Vec<SnapshotMessage>) -> (res: String)
    ensures
        res@ == preview_of(messages.deep_view()),
{
    let ghost all = messages.deep_view();
    let mut i: usize = 0;
    assert(all.skip(0) =~= all);
    while i < messages.len()
        invariant
            i <= messages.len(),
            all == messages.deep_view(),
            all.len() == messages.len(),
            preview_of(all) == preview_of(all.skip(i as int)),
        decreases messages.len() - i,
    {
        assert(all[i as int] == messages[i as int].deep_view());
        assert(all.skip(i as int)[0] == all[i as int]);
        assert(all.skip(i as int).drop_first() =~= all.skip(i + 1));
        if *messages[i].role.as_str() == *"user" {
            return messages[i].text.clone();
        }
        i += 1;
    }
    String::new()
}

impl JoinedSession {
    /// The thread to attach to, for a model, a working directory and the version of
    /// the client.
    pub fn attached_response(&self, model: String, cwd: String, cli_version: String) -> (res:
        ThreadResumeResponse)
        ensures
            lists(res.thread, self.deep_view()),
            res.thread.cwd@ == cwd@,
            res.thread.cli_version@ == cli_version@,
            runs_read_only(res),
            res.model@ == model@,
            res.cwd@ == cwd@,
            forall|i: int|
                is_users_first(self.deep_view().snapshot_messages, i)
                    ==> res.thread.preview@ == (
                #[trigger] self.deep_view().snapshot_messages[i]).text,
    {
        proof {
            let messages = self.deep_view().snapshot_messages;
            assert forall|i: int| is_users_first(messages, i) implies preview_of(messages) == (
            #[trigger] messages[i]).text by {
                law_preview_is_the_users_first_message(messages, i);
            }
        }
        let turns = snapshot_turns(self.snapshot_messages.as_slice());
        let preview = preview(&self.snapshot_messages);
        ThreadResumeResponse {
            thread: Thread {
                id: self.thread_id.to_string(),
                extra: None,
                session_id: self.session_id.clone(),
                forked_from_id: None,
                parent_thread_id: None,
                preview,
                ephemeral: true,
                history_mode: None,
                model_provider: "cloudstaff".to_owned(),
                created_at: 0,
                updated_at: 0,
                recency_at: None,
                status: ThreadStatus::Idle,
                path: None,
                cwd: cwd.clone(),
                cli_version,
                source: SessionSource::Custom("cloudstaff-mock".to_owned()),
                can_accept_direct_input: Some(true),
                thread_source: None,
                agent_nickname: Some("alice".to_owned()),
                agent_role: None,
                git_info: None,
                name: Some("Alice".to_owned()),
                turns,
            },
            model,
            model_provider: "cloudstaff".to_owned(),
            service_tier: None,
            cwd,
            runtime_workspace_roots: Vec::new(),
            instruction_sources: Vec::new(),
            approval_policy: AskForApproval::Never,
            approvals_reviewer: ApprovalsReviewer::User,
            sandbox: SandboxPolicy::ReadOnly { network_access: false },
            active_permission_profile: None,
            reasoning_effort: None,
            multi_agent_mode: None,
            initial_turns_page: None,
            turns_backwards_cursor: None,
            items_backwards_cursor: None,
        }
    }
}

} // verus!
