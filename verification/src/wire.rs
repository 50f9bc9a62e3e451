//! Lines and fields of the session protocol.
//!
//! A message is one JSON value on a line of its own. This module turns values
//! into lines and lines into values, and reads the fields that a message must
//! have.

use crate::error::{
    invalid_data, invalid_wire, protocol_error, result_view, BackendError, ErrorKind, ErrorView,
};
use crate::json::{
    json, json_from_str, json_to_vec, parse_json, print_json, text_at, unsigned_at, Json,
};
use crate::protocol::{InputView, UserInput};
use crate::text::joined;
use serde_json::Value;
use vstd::prelude::*;

verus! {

/// The line that carries a value: its compact JSON form and a line feed.
pub open spec fn line_of(value: Json) -> Seq<u8> {
    json_to_vec(value).push(0x0au8)
}

/// The bytes to write for one message. Every message can be written, and the only line
/// feed among its bytes is the last one.
pub fn write_json_line(value: &Value) -> (res: Result<Vec<u8>, BackendError>)
    ensures
        res matches Ok(line) && line@ == line_of(json(*value)),
        res matches Ok(line) && forall|i: int|
            0 <= i < line@.len() ==> (#[trigger] line@[i] == 0x0au8 <==> i == line@.len() - 1),
{
    match print_json(value) {
        Ok(bytes) => {
            let mut line = bytes;
            line.push(0x0au8);
            assert forall|i: int| 0 <= i < line@.len() implies (#[trigger] line@[i] == 0x0au8
                <==> i == line@.len() - 1) by {
                if i < bytes@.len() {
                    assert(bytes@.contains(bytes@[i]));
                }
            }
            Ok(line)
        },
        Err(error) => Err(invalid_wire(error)),
    }
}

/// What a line that was read stands for: the value on it, or nothing at the end of
/// the stream.
pub open spec fn value_of(line: Option<Seq<char>>) -> Result<Option<Json>, ErrorView> {
    match line {
        Some(text) => match json_from_str(text) {
            Ok(value) => Ok(Some(value)),
            Err(error) => Err(protocol_error(error)),
        },
        None => Ok(None),
    }
}

/// The message on a line that was read, or nothing at the end of the stream.
pub fn read_json_line(line: Option<String>) -> (res: Result<Option<Value>, BackendError>)
    ensures
        match res {
            Ok(Some(value)) => value_of(line.deep_view()) == Ok::<Option<Json>, ErrorView>(
                Some(json(value)),
            ),
            Ok(None) => value_of(line.deep_view()) == Ok::<Option<Json>, ErrorView>(None),
            Err(error) => value_of(line.deep_view()) == Err::<Option<Json>, ErrorView>(
                error.deep_view(),
            ),
        },
{
    match line {
        Some(text) => match parse_json(text.as_str()) {
            Ok(value) => Ok(Some(value)),
            Err(error) => Err(invalid_wire(error)),
        },
        None => Ok(None),
    }
}

/// The error for a message without a field that it must have.
pub open spec fn omitted(field: Seq<char>) -> ErrorView {
    protocol_error("mock message omitted "@ + field)
}

fn omitted_error(field: &str) -> (res: BackendError)
    ensures
        res.deep_view() == omitted(field@),
{
    invalid_data(joined("mock message omitted ", field).as_str())
}

/// A string field that must be there and must not be empty.
pub open spec fn required_text(value: Json, field: Seq<char>) -> Result<Seq<char>, ErrorView> {
    match value.text_at(field) {
        Some(text) => if text.len() > 0 {
            Ok(text)
        } else {
            Err(omitted(field))
        },
        None => Err(omitted(field)),
    }
}

/// A string field that must be there and must not be empty.
pub fn required_str<'a>(value: &'a Value, field: &str) -> (res: Result<&'a str, BackendError>)
    ensures
        result_view(res) == required_text(json(*value), field@),
{
    match text_at(value, field) {
        Some(text) => if text.is_empty() {
            Err(omitted_error(field))
        } else {
            Ok(text)
        },
        None => Err(omitted_error(field)),
    }
}

/// An unsigned integer field that must be there.
pub open spec fn required_number(value: Json, field: Seq<char>) -> Result<u64, ErrorView> {
    match value.unsigned_at(field) {
        Some(number) => Ok(number),
        None => Err(omitted(field)),
    }
}

/// An unsigned integer field that must be there.
pub fn required_u64(value: &Value, field: &str) -> (res: Result<u64, BackendError>)
    ensures
        result_view(res) == required_number(json(*value), field@),
{
    match unsigned_at(value, field) {
        Some(number) => Ok(number),
        None => Err(omitted_error(field)),
    }
}

/// The error that the peer reports in a message: its code and its text, each with
/// a fallback.
pub open spec fn reported_error(value: Json) -> ErrorView {
    let code = match value.text_at("code"@) {
        Some(code) => code,
        None => "protocol_error"@,
    };
    let message = match value.text_at("message"@) {
        Some(message) => message,
        None => "mock rejected request"@,
    };
    protocol_error(code + ": "@ + message)
}

/// The error that the peer reports in a message.
pub fn wire_error(value: &Value) -> (res: BackendError)
    ensures
        res.deep_view() == reported_error(json(*value)),
{
    let code = match text_at(value, "code") {
        Some(code) => code,
        None => "protocol_error",
    };
    let message = match text_at(value, "message") {
        Some(message) => message,
        None => "mock rejected request",
    };
    invalid_wire(joined(code, ": ").concat(message))
}

/// The method that an encoded request names.
pub open spec fn method_of(encoded: Option<Json>) -> Seq<char> {
    match encoded {
        Some(value) => match value.text_at("method"@) {
            Some(method) => method,
            None => "<unknown>"@,
        },
        None => "<unknown>"@,
    }
}

/// The method that a request names, given the request in its JSON form, if it has
/// one.
pub fn request_method_name(encoded: Option<&Value>) -> (res: String)
    ensures
        res@ == method_of(
            match encoded {
                Some(value) => Some(json(*value)),
                None => None,
            },
        ),
{
    let method = match encoded {
        Some(value) => text_at(value, "method"),
        None => None,
    };
    match method {
        Some(method) => method.to_owned(),
        None => "<unknown>".to_owned(),
    }
}

/// Whether every piece of an input is text.
pub open spec fn only_text(input: Seq<InputView>) -> bool {
    forall|i: int| 0 <= i < input.len() ==> #[trigger] input[i] is Text
}

/// The text pieces of an input, one after the other.
pub open spec fn input_text(input: Seq<InputView>) -> Seq<char>
    decreases input.len(),
{
    if input.len() == 0 {
        Seq::empty()
    } else {
        input_text(input.drop_last()) + (match input.last() {
            InputView::Text { text, .. } => text,
            InputView::NonText => Seq::empty(),
        })
    }
}

/// The text of a turn: all pieces must be text, and together they must not be
/// empty.
pub open spec fn turn_text(input: Seq<InputView>) -> Result<Seq<char>, ErrorView> {
    if !only_text(input) {
        Err(
            ErrorView {
                kind: ErrorKind::Unsupported,
                message: "CloudStaff mock accepts text-only turns"@,
            },
        )
    } else if input_text(input).len() == 0 {
        Err(protocol_error("CloudStaff mock turn text must not be empty"@))
    } else {
        Ok(input_text(input))
    }
}

/// The text of a turn.
pub fn text_only_input(input: Vec<UserInput>) -> (res: Result<String, BackendError>)
    ensures
        result_view(res) == turn_text(input.deep_view()),
{
    let ghost pieces = input.deep_view();
    let mut text = String::new();
    let mut i: usize = 0;
    while i < input.len()
        invariant
            i <= input.len(),
            pieces == input.deep_view(),
            pieces.len() == input.len(),
            text@ == input_text(pieces.take(i as int)),
            forall|j: int| 0 <= j < i ==> #[trigger] pieces[j] is Text,
        decreases input.len() - i,
    {
        assert(pieces[i as int] == input[i as int].deep_view());
        assert(pieces.take(i + 1).drop_last() =~= pieces.take(i as int));
        match &input[i] {
            UserInput::Text { text: part, .. } => {
                text.append(part.as_str());
            },
            UserInput::NonText => {
                return Err(
                    BackendError::new(
                        ErrorKind::Unsupported,
                        "CloudStaff mock accepts text-only turns",
                    ),
                );
            },
        }
        i += 1;
    }
    assert(pieces.take(i as int) =~= pieces);
    if text.as_str().is_empty() {
        return Err(invalid_data("CloudStaff mock turn text must not be empty"));
    }
    Ok(text)
}

} // verus!
