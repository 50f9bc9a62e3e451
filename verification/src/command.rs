//! Requests of the client: which ones are admitted, and how a turn is submitted.

use crate::error::{
    invalid_data, protocol_error, result_view, BackendError, ErrorKind, ErrorView,
};
use crate::json::{
    boolean_at, empty_array, empty_object, json, set_member, text_at, text_value, Json,
};
use crate::mapper::{forward, EventMapper, MapperView};
use crate::protocol::{
    turn, turn_view, ItemView, NotificationView, ServerNotification, Turn, TurnStatus,
    TurnView, UserInput,
};
use crate::session::Incoming;
use crate::text::{debug_string, debug_text, decimal, decimal_string, joined};
use crate::wire::{
    reported_error, required_number, required_str, required_text, required_u64, text_only_input,
    turn_text, wire_error,
};
use serde_json::Value;
use vstd::prelude::*;

verus! {

/// The id of a request.
#[derive(Debug)]
pub enum RequestId {
    String(String),
    Integer(i64),
}

#[verifier::ext_equal]
pub enum RequestIdView {
    String(Seq<char>),
    Integer(i64),
}

impl DeepView for RequestId {
    type V = RequestIdView;

    open spec fn deep_view(&self) -> RequestIdView {
        match self {
            RequestId::String(text) => RequestIdView::String(text@),
            RequestId::Integer(number) => RequestIdView::Integer(*number),
        }
    }
}

/// What a turn is started with.
#[derive(Debug)]
pub struct TurnStartParams {
    /// The id that the client chose for the user's message.
    pub client_user_message_id: Option<String>,
    pub input: Vec<UserInput>,
}

/// A request of the client, as far as this backend tells requests apart.
#[derive(Debug)]
pub enum ClientRequest {
    ThreadUnsubscribe,
    SkillsList,
    ThreadResume,
    TurnStart { request_id: RequestId, params: TurnStartParams },
    /// Any other request.
    Other,
}

/// What becomes of a request.
#[derive(Debug)]
pub enum Admission {
    /// It is answered at once.
    Reply(Value),
    /// It goes to the session.
    Submit,
}

/// The error for a request that this backend does not offer.
pub open spec fn unsupported(message: Seq<char>) -> ErrorView {
    ErrorView { kind: ErrorKind::Unsupported, message }
}

/// Decides what becomes of a request. `method` is the request's method. This backend
/// has no skills, and a thread is attached to when the session is joined, not resumed
/// later.
pub fn admit_request(request: &ClientRequest, method: &str) -> (res: Result<
    Admission,
    BackendError,
>)
    ensures
        match (request, res) {
            (ClientRequest::ThreadUnsubscribe, Ok(Admission::Reply(reply))) => json(reply)
                == Json::Object(Map::empty()),
            (ClientRequest::SkillsList, Ok(Admission::Reply(reply))) => json(reply)
                == Json::Object(map!["data"@ => Json::Array(Seq::empty())]),
            (ClientRequest::ThreadResume, Err(error)) => error.deep_view() == unsupported(
                "CloudStaff attach is injected at startup; thread/resume is forbidden"@,
            ),
            (ClientRequest::TurnStart { .. }, Ok(Admission::Submit)) => true,
            (ClientRequest::Other, Err(error)) => error.deep_view() == unsupported(
                method@ + " is not admitted by the CloudStaff mock adapter"@,
            ),
            _ => false,
        },
{
    match request {
        ClientRequest::ThreadUnsubscribe => Ok(Admission::Reply(empty_object())),
        ClientRequest::SkillsList => {
            let mut reply = empty_object();
            set_member(&mut reply, "data", empty_array());
            Ok(Admission::Reply(reply))
        },
        ClientRequest::ThreadResume => Err(
            BackendError::new(
                ErrorKind::Unsupported,
                "CloudStaff attach is injected at startup; thread/resume is forbidden",
            ),
        ),
        ClientRequest::TurnStart { .. } => Ok(Admission::Submit),
        ClientRequest::Other => Err(
            BackendError::new(
                ErrorKind::Unsupported,
                joined(method, " is not admitted by the CloudStaff mock adapter").as_str(),
            ),
        ),
    }
}

/// The id of a request on the wire.
pub open spec fn wire_request_id(id: RequestIdView) -> Seq<char> {
    match id {
        RequestIdView::String(text) => "codex-String("@ + debug_text(text) + ")"@,
        RequestIdView::Integer(number) => "codex-Integer("@ + decimal(number as int) + ")"@,
    }
}

fn request_id_on_wire(id: &RequestId) -> (res: String)
    ensures
        res@ == wire_request_id(id.deep_view()),
{
    match id {
        RequestId::String(text) => joined(
            "codex-String(",
            debug_string(text.as_str()).as_str(),
        ).concat(")"),
        RequestId::Integer(number) => joined(
            "codex-Integer(",
            decimal_string(*number).as_str(),
        ).concat(")"),
    }
}

/// A turn to be started by the session.
#[derive(Debug)]
pub struct TurnCommand {
    pub request_id: String,
    pub command_id: String,
    pub text: String,
}

#[verifier::ext_equal]
pub struct CommandView {
    pub request_id: Seq<char>,
    pub command_id: Seq<char>,
    pub text: Seq<char>,
}

impl DeepView for TurnCommand {
    type V = CommandView;

    open spec fn deep_view(&self) -> CommandView {
        CommandView {
            request_id: self.request_id@,
            command_id: self.command_id@,
            text: self.text@,
        }
    }
}

/// The command that a request becomes: only the start of a turn is one, it needs the
/// client's message id, and its input must be plain text.
pub open spec fn command_of(request: ClientRequest) -> Result<CommandView, ErrorView> {
    match request {
        ClientRequest::TurnStart { request_id, params } => match (
            params.client_user_message_id,
            turn_text(params.input.deep_view()),
        ) {
            (None, _) => Err(
                protocol_error(
                    "CloudStaff turn/start requires a stable clientUserMessageId"@,
                ),
            ),
            (Some(_), Err(error)) => Err(error),
            (Some(id), Ok(text)) => Ok(
                CommandView {
                    request_id: wire_request_id(request_id.deep_view()),
                    command_id: id@,
                    text,
                },
            ),
        },
        _ => Err(unsupported("unsupported command"@)),
    }
}

/// The command that a request becomes.
pub fn submit_turn(request: ClientRequest) -> (res: Result<TurnCommand, BackendError>)
    ensures
        result_view(res) == command_of(request),
{
    match request {
        ClientRequest::TurnStart { request_id, params } => {
            let command_id = match params.client_user_message_id {
                Some(id) => id,
                None => return Err(
                    invalid_data("CloudStaff turn/start requires a stable clientUserMessageId"),
                ),
            };
            match text_only_input(params.input) {
                Ok(text) => Ok(
                    TurnCommand { request_id: request_id_on_wire(&request_id), command_id, text },
                ),
                Err(error) => Err(error),
            }
        },
        _ => Err(BackendError::new(ErrorKind::Unsupported, "unsupported command")),
    }
}

/// The message that submits a command.
pub open spec fn command_message(command: CommandView) -> Json {
    Json::Object(
        map![
            "type"@ => Json::Text("session.command"@),
            "requestId"@ => Json::Text(command.request_id),
            "commandId"@ => Json::Text(command.command_id),
            "commandKind"@ => Json::Text("turn.start"@),
            "text"@ => Json::Text(command.text),
        ],
    )
}

/// The next message while a command waits for its answer, if one came.
pub fn command_reply(incoming: Incoming) -> (res: Result<Value, BackendError>)
    ensures
        match (incoming, res) {
            (Incoming::Message(value), Ok(reply)) => reply == value,
            (Incoming::TimedOut, Err(error)) => error.deep_view() == (ErrorView {
                kind: ErrorKind::TimedOut,
                message: "CloudStaff mock command acknowledgement timed out"@,
            }),
            (Incoming::Failed(failure), Err(error)) => error == failure,
            (Incoming::Closed, Err(error)) => error.deep_view() == (ErrorView {
                kind: ErrorKind::UnexpectedEof,
                message: "mock closed during command"@,
            }),
            _ => false,
        },
{
    match incoming {
        Incoming::Message(value) => Ok(value),
        Incoming::TimedOut => Err(
            BackendError::new(
                ErrorKind::TimedOut,
                "CloudStaff mock command acknowledgement timed out",
            ),
        ),
        Incoming::Failed(failure) => Err(failure),
        Incoming::Closed => Err(
            BackendError::new(ErrorKind::UnexpectedEof, "mock closed during command"),
        ),
    }
}

/// What the session says of a command that it accepted.
#[derive(Debug)]
pub struct Acceptance {
    pub turn_id: String,
    pub first_event_seq: u64,
    pub last_event_seq: u64,
    /// Whether the session had accepted the command before.
    pub duplicate: bool,
}

#[verifier::ext_equal]
pub struct AcceptanceView {
    pub turn_id: Seq<char>,
    pub first_event_seq: u64,
    pub last_event_seq: u64,
    pub duplicate: bool,
}

impl DeepView for Acceptance {
    type V = AcceptanceView;

    open spec fn deep_view(&self) -> AcceptanceView {
        AcceptanceView {
            turn_id: self.turn_id@,
            first_event_seq: self.first_event_seq,
            last_event_seq: self.last_event_seq,
            duplicate: self.duplicate,
        }
    }
}

/// What is wrong with the acceptance of a command: the first rule that it breaks.
pub open spec fn acceptance_error(
    reply: Json,
    session_id: Seq<char>,
    command_id: Seq<char>,
) -> Option<ErrorView> {
    if required_text(reply, "sessionId"@) is Err {
        Some(required_text(reply, "sessionId"@)->Err_0)
    } else if required_text(reply, "sessionId"@)->Ok_0 != session_id {
        Some(protocol_error("CloudStaff mock accepted a command for the wrong session"@))
    } else if required_text(reply, "commandId"@) is Err {
        Some(required_text(reply, "commandId"@)->Err_0)
    } else if required_text(reply, "commandId"@)->Ok_0 != command_id {
        Some(protocol_error("CloudStaff mock accepted the wrong commandId"@))
    } else if required_text(reply, "turnId"@) is Err {
        Some(required_text(reply, "turnId"@)->Err_0)
    } else if required_number(reply, "firstEventSeq"@) is Err {
        Some(required_number(reply, "firstEventSeq"@)->Err_0)
    } else if required_number(reply, "lastEventSeq"@) is Err {
        Some(required_number(reply, "lastEventSeq"@)->Err_0)
    } else if required_number(reply, "firstEventSeq"@)->Ok_0 > required_number(
        reply,
        "lastEventSeq"@,
    )->Ok_0 {
        Some(protocol_error("CloudStaff mock accepted an invalid event range"@))
    } else if reply.boolean_at("duplicate"@) is None {
        Some(protocol_error("mock message omitted duplicate"@))
    } else {
        None
    }
}

/// What the session says of a command that it accepted.
pub open spec fn acceptance_of(
    reply: Json,
    session_id: Seq<char>,
    command_id: Seq<char>,
) -> Result<AcceptanceView, ErrorView> {
    match acceptance_error(reply, session_id, command_id) {
        Some(error) => Err(error),
        None => Ok(
            AcceptanceView {
                turn_id: required_text(reply, "turnId"@)->Ok_0,
                first_event_seq: required_number(reply, "firstEventSeq"@)->Ok_0,
                last_event_seq: required_number(reply, "lastEventSeq"@)->Ok_0,
                duplicate: reply.boolean_at("duplicate"@)->Some_0,
            },
        ),
    }
}

/// Reads what the session says of a command that it accepted.
pub fn read_acceptance(reply: &Value, session_id: &str, command_id: &str) -> (res: Result<
    Acceptance,
    BackendError,
>)
    ensures
        result_view(res) == acceptance_of(json(*reply), session_id@, command_id@),
{
    match required_str(reply, "sessionId") {
        Ok(found) => if *found != *session_id {
            return Err(
                invalid_data("CloudStaff mock accepted a command for the wrong session"),
            );
        },
        Err(error) => return Err(error),
    }
    match required_str(reply, "commandId") {
        Ok(found) => if *found != *command_id {
            return Err(invalid_data("CloudStaff mock accepted the wrong commandId"));
        },
        Err(error) => return Err(error),
    }
    let turn_id = match required_str(reply, "turnId") {
        Ok(turn_id) => turn_id,
        Err(error) => return Err(error),
    };
    let first_event_seq: u64 = match required_u64(reply, "firstEventSeq") {
        Ok(number) => number,
        Err(error) => return Err(error),
    };
    let last_event_seq: u64 = match required_u64(reply, "lastEventSeq") {
        Ok(number) => number,
        Err(error) => return Err(error),
    };
    if first_event_seq > last_event_seq {
        return Err(invalid_data("CloudStaff mock accepted an invalid event range"));
    }
    match boolean_at(reply, "duplicate") {
        Some(duplicate) => Ok(
            Acceptance { turn_id: turn_id.to_owned(), first_event_seq, last_event_seq, duplicate },
        ),
        None => Err(invalid_data("mock message omitted duplicate")),
    }
}

/// The turn that an accepted command starts, given the number of the last event that
/// was taken: the events of a repeated command must all have been seen, and those of
/// a new one must come next.
pub open spec fn turn_started_by(acceptance: AcceptanceView, last_event_seq: u64) -> Result<
    TurnView,
    ErrorView,
> {
    if acceptance.duplicate && acceptance.last_event_seq > last_event_seq {
        Err(protocol_error("duplicate CloudStaff command references unseen events"@))
    } else if !acceptance.duplicate && acceptance.first_event_seq != last_event_seq + 1 {
        Err(protocol_error("CloudStaff command event range is not contiguous"@))
    } else {
        Ok(turn_view(acceptance.turn_id, TurnStatus::InProgress, Seq::empty()))
    }
}

impl Acceptance {
    /// The turn that the accepted command starts, given the number of the last event
    /// that was taken. No event follows the last possible number, so a new command
    /// must not be held against it.
    pub fn started_turn(&self, last_event_seq: u64) -> (res: Result<Turn, BackendError>)
        requires
            self.duplicate || last_event_seq < u64::MAX,
        ensures
            result_view(res) == turn_started_by(self.deep_view(), last_event_seq),
            res is Ok <==> if self.duplicate {
                self.last_event_seq <= last_event_seq
            } else {
                self.first_event_seq == last_event_seq + 1
            },
            res matches Ok(turn) ==> turn.id@ == self.turn_id@ && turn.status
                == TurnStatus::InProgress && turn.items@.len() == 0,
    {
        if self.duplicate {
            if self.last_event_seq > last_event_seq {
                return Err(
                    invalid_data("duplicate CloudStaff command references unseen events"),
                );
            }
        } else if self.first_event_seq != last_event_seq + 1 {
            return Err(invalid_data("CloudStaff command event range is not contiguous"));
        }
        let started = turn(self.turn_id.as_str(), TurnStatus::InProgress, Vec::new());
        assert(started.deep_view().items =~= Seq::<ItemView>::empty());
        Ok(started)
    }
}

/// What a message means for a command that waits for its answer.
#[derive(Debug)]
pub enum CommandStep {
    /// The message was an event: the renderer is told this, and the command waits on.
    Told(Vec<ServerNotification>),
    /// The session accepted the command.
    Accepted(Acceptance),
}

#[verifier::ext_equal]
pub enum CommandStepView {
    Told(Seq<NotificationView>),
    Accepted(AcceptanceView),
}

impl DeepView for CommandStep {
    type V = CommandStepView;

    open spec fn deep_view(&self) -> CommandStepView {
        match self {
            CommandStep::Told(told) => CommandStepView::Told(told.deep_view()),
            CommandStep::Accepted(acceptance) => CommandStepView::Accepted(acceptance.deep_view()),
        }
    }
}

/// Whether a message is of the given type and answers the given request.
pub open spec fn answers(message: Json, kind: Seq<char>, request_id: Seq<char>) -> bool {
    message.text_at("type"@) == Some(kind) && message.text_at("requestId"@) == Some(request_id)
}

/// What a message means for a command that waits for its answer, and the mapper after
/// it. Only an event touches the mapper.
pub open spec fn command_step(
    command: CommandView,
    session_id: Seq<char>,
    mapper: MapperView,
    message: Json,
) -> (MapperView, Result<CommandStepView, ErrorView>) {
    if answers(message, "session.command.accepted"@, command.request_id) {
        (
            mapper,
            match acceptance_of(message, session_id, command.command_id) {
                Ok(acceptance) => Ok(CommandStepView::Accepted(acceptance)),
                Err(error) => Err(error),
            },
        )
    } else if answers(message, "error"@, command.request_id) {
        (mapper, Err(reported_error(message)))
    } else if message.text_at("type"@) == Some("session.event"@) {
        let step = forward(mapper, message);
        (
            step.mapper,
            match step.told {
                Ok(told) => Ok(CommandStepView::Told(told)),
                Err(error) => Err(error),
            },
        )
    } else {
        (
            mapper,
            Err(protocol_error("unexpected mock response while submitting command"@)),
        )
    }
}

fn is_text_at(value: &Value, key: &str, text: &str) -> (res: bool)
    ensures
        res == (json(*value).text_at(key@) == Some(text@)),
{
    match text_at(value, key) {
        Some(found) => *found == *text,
        None => false,
    }
}

impl TurnCommand {
    /// The message that submits the command.
    pub fn message(&self) -> (res: Value)
        ensures
            json(res) == command_message(self.deep_view()),
    {
        let mut message = empty_object();
        set_member(&mut message, "type", text_value("session.command"));
        set_member(&mut message, "requestId", text_value(self.request_id.as_str()));
        set_member(&mut message, "commandId", text_value(self.command_id.as_str()));
        set_member(&mut message, "commandKind", text_value("turn.start"));
        set_member(&mut message, "text", text_value(self.text.as_str()));
        message
    }

    /// Takes a message while the command waits for its answer.
    pub fn step(&self, session_id: &str, mapper: &mut EventMapper, message: &Value) -> (res: Result<
        CommandStep,
        BackendError,
    >)
        ensures
            final(mapper)@ == command_step(
                self.deep_view(),
                session_id@,
                old(mapper)@,
                json(*message),
            ).0,
            result_view(res) == command_step(
                self.deep_view(),
                session_id@,
                old(mapper)@,
                json(*message),
            ).1,
            old(mapper)@.well_formed() ==> final(mapper)@.well_formed(),
    {
        let ours = is_text_at(message, "requestId", self.request_id.as_str());
        if ours && is_text_at(message, "type", "session.command.accepted") {
            match read_acceptance(message, session_id, self.command_id.as_str()) {
                Ok(acceptance) => Ok(CommandStep::Accepted(acceptance)),
                Err(error) => Err(error),
            }
        } else if ours && is_text_at(message, "type", "error") {
            Err(wire_error(message))
        } else if is_text_at(message, "type", "session.event") {
            match mapper.forward_envelope(message) {
                Ok(told) => Ok(CommandStep::Told(told)),
                Err(error) => Err(error),
            }
        } else {
            Err(invalid_data("unexpected mock response while submitting command"))
        }
    }
}

/// How a command stands after a message.
#[derive(Debug)]
pub enum CommandProgress {
    /// The message was an event: the renderer is told this, and the command waits on.
    Told(Vec<ServerNotification>),
    /// The session accepted the command, which starts this turn.
    Started(Turn),
    /// The session accepted a new command after the event with the last possible
    /// number: no number is left for its events.
    Exhausted,
}

#[verifier::ext_equal]
pub enum ProgressView {
    Told(Seq<NotificationView>),
    Started(TurnView),
    Exhausted,
}

impl DeepView for CommandProgress {
    type V = ProgressView;

    open spec fn deep_view(&self) -> ProgressView {
        match self {
            CommandProgress::Told(told) => ProgressView::Told(told.deep_view()),
            CommandProgress::Started(turn) => ProgressView::Started(turn.deep_view()),
            CommandProgress::Exhausted => ProgressView::Exhausted,
        }
    }
}

/// How a command stands after a message, and the mapper after it: an acceptance is held
/// against the last event that the mapper took.
pub open spec fn command_progress(
    command: CommandView,
    session_id: Seq<char>,
    mapper: MapperView,
    message: Json,
) -> (MapperView, Result<ProgressView, ErrorView>) {
    let (after, step) = command_step(command, session_id, mapper, message);
    (
        after,
        match step {
            Err(error) => Err(error),
            Ok(CommandStepView::Told(told)) => Ok(ProgressView::Told(told)),
            Ok(CommandStepView::Accepted(acceptance)) => if acceptance.duplicate
                || after.last_event_seq < u64::MAX {
                match turn_started_by(acceptance, after.last_event_seq) {
                    Ok(turn) => Ok(ProgressView::Started(turn)),
                    Err(error) => Err(error),
                }
            } else {
                Ok(ProgressView::Exhausted)
            },
        },
    )
}

impl TurnCommand {
    /// Takes a message while the command waits for its answer, and holds an acceptance
    /// against the last event that the mapper took.
    pub fn take_message(
        &self,
        session_id: &str,
        mapper: &mut EventMapper,
        message: &Value,
    ) -> (res: Result<CommandProgress, BackendError>)
        ensures
            final(mapper)@ == command_progress(
                self.deep_view(),
                session_id@,
                old(mapper)@,
                json(*message),
            ).0,
            result_view(res) == command_progress(
                self.deep_view(),
                session_id@,
                old(mapper)@,
                json(*message),
            ).1,
            old(mapper)@.well_formed() ==> final(mapper)@.well_formed(),
    {
        match self.step(session_id, mapper, message) {
            Err(error) => Err(error),
            Ok(CommandStep::Told(told)) => Ok(CommandProgress::Told(told)),
            Ok(CommandStep::Accepted(acceptance)) => {
                let last_event_seq: u64 = mapper.last_event_seq();
                if acceptance.duplicate || last_event_seq < u64::MAX {
                    match acceptance.started_turn(last_event_seq) {
                        Ok(turn) => Ok(CommandProgress::Started(turn)),
                        Err(error) => Err(error),
                    }
                } else {
                    Ok(CommandProgress::Exhausted)
                }
            },
        }
    }
}

/// The response to the start of a turn, given the turn in its JSON form, or the text
/// of the encoder's error.
pub fn turn_response(encoded: Result<Value, String>) -> (res: Result<Value, BackendError>)
    ensures
        match (encoded, res) {
            (Ok(turn), Ok(response)) => json(response) == Json::Object(
                map!["turn"@ => json(turn)],
            ),
            (Err(failure), Err(error)) => error.deep_view() == protocol_error(
                "failed to encode mapped turn: "@ + failure@,
            ),
            _ => false,
        },
{
    match encoded {
        Ok(turn) => {
            let mut response = empty_object();
            set_member(&mut response, "turn", turn);
            Ok(response)
        },
        Err(failure) => Err(
            invalid_data(joined("failed to encode mapped turn: ", failure.as_str()).as_str()),
        ),
    }
}

} // verus!
