//! What becomes of a request, and when a command starts its turn.

use crate::command::{
    acceptance_of, command_message, command_of, command_progress, command_step, turn_started_by,
    unsupported, wire_request_id, AcceptanceView, ClientRequest, CommandStepView, CommandView,
    ProgressView, RequestId, RequestIdView, TurnStartParams,
};
use crate::error::{ErrorKind, ErrorView};
use crate::json::Json;
use crate::mapper::{forward, MapperView};
use crate::protocol::{InputView, TurnItemsView, TurnStatus, TurnView};
use crate::shape::{
    has_flag, has_member, has_number, has_some_flag, has_some_number, has_some_text, has_text,
};
use crate::text::{debug_text, decimal, decimal_digits};
use crate::wire::{input_text, reported_error, turn_text};
use vstd::prelude::*;

verus! {

/// The number that a text of decimal digits stands for.
pub open spec fn number_of(digits: Seq<char>) -> nat
    decreases digits.len(),
{
    if digits.len() == 0 {
        0
    } else {
        (number_of(digits.drop_last()) * 10 + (digits.last() as int - '0' as int)) as nat
    }
}

/// The decimal digits of a number stand for that number; they are digits, and the first
/// one is no zero unless it is the only one.
pub proof fn law_decimal_digits_stand_for_the_number(number: nat)
    ensures
        number_of(decimal_digits(number)) == number,
        decimal_digits(number).len() > 0,
        forall|i: int|
            0 <= i < decimal_digits(number).len() ==> '0' <= #[trigger] decimal_digits(number)[i]
                <= '9',
        decimal_digits(number).len() > 1 ==> decimal_digits(number)[0] != '0',
    decreases number,
{
    let digits = decimal_digits(number);
    if number < 10 {
        assert(digits.drop_last() =~= Seq::empty());
        assert(number_of(digits.drop_last()) == 0);
        assert(digits.last() as int == 0x30 + number);
    } else {
        law_decimal_digits_stand_for_the_number(number / 10);
        let before = decimal_digits(number / 10);
        assert(digits.drop_last() =~= before);
        assert(digits.last() as int == 0x30 + number % 10);
        assert forall|i: int| 0 <= i < digits.len() implies '0' <= #[trigger] digits[i] <= '9' by {
            if i < before.len() {
                assert(digits[i] == before[i]);
            }
        }
        assert(digits[0] == before[0]);
        if before.len() == 1 {
            assert(before.drop_last() =~= Seq::empty());
            assert(number_of(before.drop_last()) == 0);
            assert(before.last() == before[0]);
        }
    }
}

/// An integer in decimal is its digits, after a minus sign where it is negative.
pub proof fn law_decimal_has_a_sign(number: int)
    ensures
        number >= 0 ==> decimal(number) == decimal_digits(number as nat),
        number < 0 ==> {
            &&& decimal(number).len() > 0
            &&& decimal(number)[0] == '-'
            &&& decimal(number).drop_first() == decimal_digits((-number) as nat)
        },
{
    if number < 0 {
        assert(decimal(number).drop_first() =~= decimal_digits((-number) as nat));
    }
}

/// The id of a request on the wire names its variant and quotes its value.
pub proof fn law_request_id_is_quoted(text: Seq<char>, number: i64)
    ensures
        wire_request_id(RequestIdView::String(text)) == "codex-String("@ + debug_text(text)
            + ")"@,
        wire_request_id(RequestIdView::Integer(number)) == "codex-Integer("@ + decimal(
            number as int,
        ) + ")"@,
{
}

/// Different integers have different ids on the wire.
pub proof fn law_integer_ids_differ(one: i64, other: i64)
    requires
        one != other,
    ensures
        wire_request_id(RequestIdView::Integer(one)) != wire_request_id(
            RequestIdView::Integer(other),
        ),
{
    let prefix = "codex-Integer("@;
    let suffix = ")"@;
    let first = decimal(one as int);
    let second = decimal(other as int);
    law_decimal_has_a_sign(one as int);
    law_decimal_has_a_sign(other as int);
    law_decimal_digits_stand_for_the_number((if one < 0 { -one } else { one as int }) as nat);
    law_decimal_digits_stand_for_the_number((if other < 0 { -other } else { other as int }) as nat);
    if first == second {
        assert(first[0] == second[0]);
        assert(false);
    }
    let whole = prefix + first + suffix;
    let whole_other = prefix + second + suffix;
    if whole == whole_other {
        let n = prefix.len() as int;
        assert(whole.len() == whole_other.len());
        assert(first =~= whole.subrange(n, n + first.len()));
        assert(second =~= whole_other.subrange(n, n + second.len()));
        assert(false);
    }
}

/// The text of an input is its pieces, one after the other: one piece is its own text,
/// and two inputs after each other have their texts after each other.
pub proof fn law_input_text_is_joined(
    first: Seq<InputView>,
    second: Seq<InputView>,
    piece: InputView,
)
    requires
        piece is Text,
    ensures
        input_text(Seq::empty()) == Seq::<char>::empty(),
        input_text(seq![piece]) == piece->Text_text,
        input_text(first + second) == input_text(first) + input_text(second),
    decreases second.len(),
{
    let none: Seq<InputView> = Seq::empty();
    let one = seq![piece];
    assert(one.drop_last() =~= none);
    assert(one.last() == piece);
    assert(input_text(none) =~= Seq::<char>::empty());
    assert(input_text(one) == input_text(none) + piece->Text_text);
    assert(input_text(one) =~= piece->Text_text);
    if second.len() == 0 {
        assert(first + second =~= first);
        assert(input_text(first) + input_text(second) =~= input_text(first));
    } else {
        law_input_text_is_joined(first, second.drop_last(), piece);
        assert((first + second).drop_last() =~= first + second.drop_last());
        assert((first + second).last() == second.last());
        assert(input_text(first + second) =~= input_text(first) + input_text(second));
    }
}

/// An input makes a turn exactly if all of its pieces are text and they are not all
/// empty.
pub proof fn law_turns_are_plain_text(input: Seq<InputView>, i: int)
    requires
        0 <= i < input.len(),
    ensures
        !(input[i] is Text) ==> (turn_text(input) matches Err(error) && error == (ErrorView {
            kind: ErrorKind::Unsupported,
            message: "CloudStaff mock accepts text-only turns"@,
        })),
        (forall|j: int| 0 <= j < input.len() ==> #[trigger] input[j] is Text)
            && input[i]->Text_text.len() > 0 ==> (turn_text(input) matches Ok(text) && text
            == input_text(input)),
{
    if forall|j: int| 0 <= j < input.len() ==> #[trigger] input[j] is Text {
        let before = input.take(i);
        let after = input.skip(i + 1);
        law_input_text_is_joined(before, seq![input[i]], input[i]);
        law_input_text_is_joined(before + seq![input[i]], after, input[i]);
        assert(before + seq![input[i]] + after =~= input);
    }
}

/// An input of nothing but empty texts makes no turn.
pub proof fn law_empty_texts_make_no_turn(input: Seq<InputView>)
    requires
        forall|j: int|
            0 <= j < input.len() ==> (#[trigger] input[j] is Text && input[j]->Text_text.len()
                == 0),
    ensures
        turn_text(input) matches Err(error) && error == (ErrorView {
            kind: ErrorKind::InvalidData,
            message: "CloudStaff mock turn text must not be empty"@,
        }),
    decreases input.len(),
{
    if input.len() > 0 {
        let before = input.drop_last();
        assert forall|j: int| 0 <= j < before.len() implies (#[trigger] before[j] is Text
            && before[j]->Text_text.len() == 0) by {
            assert(before[j] == input[j]);
        }
        law_empty_texts_make_no_turn(before);
        assert(input[input.len() - 1] is Text);
    }
}

/// The start of a turn becomes a command with the client's message id and the text of the
/// input; without the id, or for any other request, there is none.
pub proof fn law_turn_start_becomes_a_command(request_id: RequestId, params: TurnStartParams)
    ensures
        ({
            let made = command_of(ClientRequest::TurnStart { request_id, params });
            let text = turn_text(params.input.deep_view());
            &&& params.client_user_message_id is None ==> (made matches Err(error) && error == (
            ErrorView {
                kind: ErrorKind::InvalidData,
                message: "CloudStaff turn/start requires a stable clientUserMessageId"@,
            }))
            &&& params.client_user_message_id is Some && text is Err ==> (made matches Err(error)
                && error == text->Err_0)
            &&& params.client_user_message_id is Some && text is Ok ==> (made matches Ok(command)
                && command == (CommandView {
                request_id: wire_request_id(request_id.deep_view()),
                command_id: params.client_user_message_id->Some_0@,
                text: text->Ok_0,
            }))
        }),
{
}

/// No other request becomes a command.
pub proof fn law_other_requests_are_no_commands(request: ClientRequest)
    requires
        !(request is TurnStart),
    ensures
        command_of(request) matches Err(error) && error == (ErrorView {
            kind: ErrorKind::Unsupported,
            message: "unsupported command"@,
        }),
{
}

/// What is not offered is reported as unsupported, with the given text.
pub proof fn law_unsupported_is_reported(message: Seq<char>)
    ensures
        unsupported(message) == (ErrorView { kind: ErrorKind::Unsupported, message }),
{
}

/// The message that submits a command holds its ids and its text, and nothing else but
/// the fixed members.
pub proof fn law_command_message_holds_the_command(command: CommandView)
    ensures
        has_text(command_message(command), "type"@, "session.command"@),
        has_text(command_message(command), "requestId"@, command.request_id),
        has_text(command_message(command), "commandId"@, command.command_id),
        has_text(command_message(command), "commandKind"@, "turn.start"@),
        has_text(command_message(command), "text"@, command.text),
        forall|key: Seq<char>| #[trigger]
            has_member(command_message(command), key) ==> key == "type"@ || key == "requestId"@
                || key == "commandId"@ || key == "commandKind"@ || key == "text"@,
{
    reveal_strlit("type");
    reveal_strlit("requestId");
    reveal_strlit("commandId");
    reveal_strlit("commandKind");
    reveal_strlit("text");
    assert("type"@.len() == 4 && "type"@[1] == 'y');
    assert("text"@.len() == 4 && "text"@[1] == 'e');
    assert("commandKind"@.len() == 11);
    assert("requestId"@.len() == 9 && "requestId"@[0] == 'r');
    assert("commandId"@.len() == 9 && "commandId"@[0] == 'c');
}

/// A turn in progress, without items.
pub open spec fn turn_in_progress(id: Seq<char>) -> TurnView {
    TurnView {
        id,
        items: Seq::empty(),
        items_view: TurnItemsView::Full,
        status: TurnStatus::InProgress,
        error: None,
        started_at: None,
        completed_at: None,
        duration_ms: None,
    }
}

/// The result is a refusal as invalid data, with this text.
pub open spec fn refuses<T>(result: Result<T, ErrorView>, message: Seq<char>) -> bool {
    result matches Err(error) && error == (ErrorView { kind: ErrorKind::InvalidData, message })
}

/// A new command starts the turn that it names exactly if its first event is the one
/// after the last that was taken, whatever number that is, the least included; a
/// repeated one exactly if its last event was taken.
pub proof fn law_commands_start_where_the_events_stand(
    acceptance: AcceptanceView,
    last_event_seq: u64,
)
    ensures
        !acceptance.duplicate && acceptance.first_event_seq == last_event_seq + 1 ==> (
        turn_started_by(acceptance, last_event_seq) matches Ok(turn) && turn == turn_in_progress(
            acceptance.turn_id,
        )),
        !acceptance.duplicate && acceptance.first_event_seq != last_event_seq + 1 ==> refuses(
            turn_started_by(acceptance, last_event_seq),
            "CloudStaff command event range is not contiguous"@,
        ),
        acceptance.duplicate && acceptance.last_event_seq <= last_event_seq ==> (turn_started_by(
            acceptance,
            last_event_seq,
        ) matches Ok(turn) && turn == turn_in_progress(acceptance.turn_id)),
        acceptance.duplicate && acceptance.last_event_seq > last_event_seq ==> refuses(
            turn_started_by(acceptance, last_event_seq),
            "duplicate CloudStaff command references unseen events"@,
        ),
{
}

/// A reply that accepts a command: it names the session, the command and the turn, a
/// range of events, and whether the command was accepted before.
pub open spec fn accepts(
    reply: Json,
    session_id: Seq<char>,
    command_id: Seq<char>,
    acceptance: AcceptanceView,
) -> bool {
    &&& has_text(reply, "sessionId"@, session_id) && session_id.len() > 0
    &&& has_text(reply, "commandId"@, command_id) && command_id.len() > 0
    &&& has_text(reply, "turnId"@, acceptance.turn_id) && acceptance.turn_id.len() > 0
    &&& has_number(reply, "firstEventSeq"@, acceptance.first_event_seq)
    &&& has_number(reply, "lastEventSeq"@, acceptance.last_event_seq)
    &&& acceptance.first_event_seq <= acceptance.last_event_seq
    &&& has_flag(reply, "duplicate"@, acceptance.duplicate)
}

/// An acceptance is read exactly as the reply holds it, and a reply is read as an
/// acceptance exactly if it is one.
pub proof fn law_acceptances_are_read_as_they_are(
    reply: Json,
    session_id: Seq<char>,
    command_id: Seq<char>,
    acceptance: AcceptanceView,
)
    ensures
        (acceptance_of(reply, session_id, command_id) matches Ok(read) && read == acceptance)
            <==> accepts(reply, session_id, command_id, acceptance),
{
}

/// A reply that is no acceptance is refused for the first thing that is wrong with it.
pub proof fn law_first_fault_of_an_acceptance_is_reported(
    reply: Json,
    session_id: Seq<char>,
    command_id: Seq<char>,
    found: Seq<char>,
    first: u64,
    last: u64,
)
    ensures
        ({
            let result = acceptance_of(reply, session_id, command_id);
            let in_session = session_id.len() > 0 && has_text(reply, "sessionId"@, session_id);
            let of_command = in_session && command_id.len() > 0 && has_text(
                reply,
                "commandId"@,
                command_id,
            );
            let of_turn = of_command && has_some_text(reply, "turnId"@);
            let from_first = of_turn && has_number(reply, "firstEventSeq"@, first);
            let to_last = from_first && has_number(reply, "lastEventSeq"@, last);
            &&& !has_some_text(reply, "sessionId"@) ==> refuses(
                result,
                "mock message omitted "@ + "sessionId"@,
            )
            &&& found.len() > 0 && has_text(reply, "sessionId"@, found) && found != session_id
                ==> refuses(result, "CloudStaff mock accepted a command for the wrong session"@)
            &&& in_session && !has_some_text(reply, "commandId"@) ==> refuses(
                result,
                "mock message omitted "@ + "commandId"@,
            )
            &&& in_session && found.len() > 0 && has_text(reply, "commandId"@, found) && found
                != command_id ==> refuses(
                result,
                "CloudStaff mock accepted the wrong commandId"@,
            )
            &&& of_command && !has_some_text(reply, "turnId"@) ==> refuses(
                result,
                "mock message omitted "@ + "turnId"@,
            )
            &&& of_turn && !has_some_number(reply, "firstEventSeq"@) ==> refuses(
                result,
                "mock message omitted "@ + "firstEventSeq"@,
            )
            &&& from_first && !has_some_number(reply, "lastEventSeq"@) ==> refuses(
                result,
                "mock message omitted "@ + "lastEventSeq"@,
            )
            &&& to_last && first > last ==> refuses(
                result,
                "CloudStaff mock accepted an invalid event range"@,
            )
            &&& to_last && first <= last && !has_some_flag(reply, "duplicate"@) ==> refuses(
                result,
                "mock message omitted duplicate"@,
            )
        }),
{
}

proof fn lemma_message_types_differ()
    ensures
        "session.command.accepted"@ != "error"@,
        "session.command.accepted"@ != "session.event"@,
        "error"@ != "session.event"@,
{
    reveal_strlit("session.event");
    reveal_strlit("session.command.accepted");
    reveal_strlit("error");
    assert("session.event"@.len() == 13);
    assert("session.command.accepted"@.len() == 24);
    assert("error"@.len() == 5);
}

/// What a message means for a waiting command: its own acceptance is handed on exactly as
/// the message holds it, an event tells what it tells otherwise, and the mapper changes
/// with an event only.
pub proof fn law_messages_mean_what_they_hold(
    command: CommandView,
    session_id: Seq<char>,
    mapper: MapperView,
    message: Json,
    acceptance: AcceptanceView,
)
    ensures
        ({
            let (after, step) = command_step(command, session_id, mapper, message);
            let ours = has_text(message, "requestId"@, command.request_id);
            let accepted = has_text(message, "type"@, "session.command.accepted"@);
            let failed = has_text(message, "type"@, "error"@);
            let event = has_text(message, "type"@, "session.event"@);
            &&& (step matches Ok(CommandStepView::Accepted(read)) && read == acceptance) <==> ours
                && accepted && accepts(message, session_id, command.command_id, acceptance)
            &&& ours && failed ==> (step matches Err(error) && error == reported_error(message))
            &&& event ==> after == forward(mapper, message).mapper && match forward(
                mapper,
                message,
            ).told {
                Ok(told) => step matches Ok(CommandStepView::Told(passed)) && passed == told,
                Err(refusal) => step matches Err(error) && error == refusal,
            }
            &&& !event && !(ours && (accepted || failed)) ==> refuses(
                step,
                "unexpected mock response while submitting command"@,
            )
            &&& !event ==> after == mapper
        }),
{
    lemma_message_types_differ();
    law_acceptances_are_read_as_they_are(message, session_id, command.command_id, acceptance);
}

/// The acceptance of a waiting command starts the turn that it names, in progress, if its
/// events stand where the mapper stands: for a new command its first event is the next
/// one, at whatever number, and for a repeated one its last event was taken. The mapper
/// does not change.
pub proof fn law_accepted_command_starts_its_turn(
    command: CommandView,
    session_id: Seq<char>,
    mapper: MapperView,
    message: Json,
    acceptance: AcceptanceView,
)
    requires
        has_text(message, "type"@, "session.command.accepted"@),
        has_text(message, "requestId"@, command.request_id),
        accepts(message, session_id, command.command_id, acceptance),
    ensures
        ({
            let (after, progress) = command_progress(command, session_id, mapper, message);
            let last = mapper.last_event_seq;
            &&& after == mapper
            &&& !acceptance.duplicate && acceptance.first_event_seq == last + 1 ==> (
            progress matches Ok(ProgressView::Started(turn)) && turn == turn_in_progress(
                acceptance.turn_id,
            ))
            &&& !acceptance.duplicate && last < u64::MAX && acceptance.first_event_seq != last + 1
                ==> refuses(progress, "CloudStaff command event range is not contiguous"@)
            &&& !acceptance.duplicate && last == u64::MAX ==> (progress matches Ok(
                ProgressView::Exhausted,
            ))
            &&& acceptance.duplicate && acceptance.last_event_seq <= last ==> (
            progress matches Ok(ProgressView::Started(turn)) && turn == turn_in_progress(
                acceptance.turn_id,
            ))
            &&& acceptance.duplicate && acceptance.last_event_seq > last ==> refuses(
                progress,
                "duplicate CloudStaff command references unseen events"@,
            )
        }),
{
    lemma_message_types_differ();
    law_acceptances_are_read_as_they_are(message, session_id, command.command_id, acceptance);
    law_commands_start_where_the_events_stand(acceptance, mapper.last_event_seq);
}

/// An answer to a waiting command that is a faulty acceptance or an error fails it, an
/// event is mapped, and anything else is refused; but for an event, the mapper does not
/// change.
pub proof fn law_waiting_command_takes_its_own_answers(
    command: CommandView,
    session_id: Seq<char>,
    mapper: MapperView,
    message: Json,
)
    ensures
        ({
            let (after, progress) = command_progress(command, session_id, mapper, message);
            let ours = has_text(message, "requestId"@, command.request_id);
            let accepted = has_text(message, "type"@, "session.command.accepted"@);
            let failed = has_text(message, "type"@, "error"@);
            let event = has_text(message, "type"@, "session.event"@);
            let read = acceptance_of(message, session_id, command.command_id);
            &&& accepted && ours && read is Err ==> (progress matches Err(error) && error
                == read->Err_0)
            &&& failed && ours ==> (progress matches Err(error) && error == reported_error(
                message,
            ))
            &&& event ==> {
                &&& after == forward(mapper, message).mapper
                &&& match forward(mapper, message).told {
                    Ok(told) => progress matches Ok(ProgressView::Told(passed)) && passed == told,
                    Err(refusal) => progress matches Err(error) && error == refusal,
                }
            }
            &&& !event && !(ours && (accepted || failed)) ==> refuses(
                progress,
                "unexpected mock response while submitting command"@,
            )
            &&& !event ==> after == mapper
        }),
{
    lemma_message_types_differ();
}

} // verus!
