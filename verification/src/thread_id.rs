//! Thread ids, and the one that belongs to a session.

use crate::error::{invalid_wire, BackendError};
use uuid::Uuid;
use vstd::prelude::*;

verus! {

/// The namespace in which session ids are turned into thread ids.
pub const MOCK_THREAD_NAMESPACE: u128 = 0x8a4f6f6d_0c0c_4f71_99b1_99fd30f18f11;

/// The name-based (SHA-1) UUID of a name in a namespace, as a number.
pub uninterp spec fn uuid_v5(namespace: u128, name: Seq<u8>) -> u128;

/// What `Uuid::parse_str` makes of a text: the UUID as a number, or the text of
/// the parser's error.
pub uninterp spec fn uuid_from_str(text: Seq<char>) -> Result<u128, Seq<char>>;

/// A hexadecimal digit in lower case.
pub open spec fn hex_digit(value: u128) -> char {
    if value < 10 {
        (0x30 + value) as char
    } else {
        (0x57 + value) as char
    }
}

/// The hyphenated form of a UUID: 32 hexadecimal digits, most significant first,
/// in groups of 8, 4, 4, 4 and 12.
pub open spec fn uuid_text(uuid: u128) -> Seq<char> {
    Seq::new(
        36,
        |i: int|
            {
                let hyphens_before: int = if i < 8 {
                    0
                } else if i < 13 {
                    1
                } else if i < 18 {
                    2
                } else if i < 23 {
                    3
                } else {
                    4
                };
                if i == 8 || i == 13 || i == 18 || i == 23 {
                    '-'
                } else {
                    hex_digit((uuid >> ((4 * (31 - (i - hyphens_before))) as u128)) & 0xf)
                }
            },
    )
}

/// `Uuid::new_v5`, with the namespace and the result as numbers. The outcome is
/// a function of the namespace and the name.
#[verifier::external_body]
fn name_based_uuid(namespace: u128, name: &[u8]) -> (res: u128)
    ensures
        res == uuid_v5(namespace, name@),
{
    Uuid::new_v5(&Uuid::from_u128(namespace), name).as_u128()
}

/// `Display` of a `Uuid`, through `to_string`: the hyphenated form.
#[verifier::external_body]
fn hyphenated(uuid: u128) -> (res: String)
    ensures
        res@ == uuid_text(uuid),
{
    Uuid::from_u128(uuid).to_string()
}

/// `Uuid::parse_str`, with the result as a number and the parser's error as its
/// text. The outcome is a function of the text, and the hyphenated form of a UUID
/// parses to that UUID.
#[verifier::external_body]
fn parse_uuid(text: &str) -> (res: Result<u128, String>)
    ensures
        match res {
            Ok(uuid) => {
                &&& uuid_from_str(text@) == Ok::<u128, Seq<char>>(uuid)
                &&& forall|other: u128| text@ == #[trigger] uuid_text(other) ==> other == uuid
            },
            Err(error) => {
                &&& uuid_from_str(text@) == Err::<u128, Seq<char>>(error@)
                &&& forall|other: u128| text@ != #[trigger] uuid_text(other)
            },
        },
{
    Uuid::parse_str(text).map(|uuid| uuid.as_u128()).map_err(|error| error.to_string())
}

/// The identity of a thread.
#[derive(Clone, Copy, Debug, PartialEq, Eq, Structural)]
pub struct ThreadId {
    /// The UUID, as a number.
    pub uuid: u128,
}

impl DeepView for ThreadId {
    type V = ThreadId;

    open spec fn deep_view(&self) -> ThreadId {
        *self
    }
}

impl ThreadId {
    /// The thread id in its hyphenated form.
    pub open spec fn text(self) -> Seq<char> {
        uuid_text(self.uuid)
    }

    /// Reads a thread id from any form of a UUID that the `uuid` crate accepts.
    pub fn from_string(text: &str) -> (res: Result<ThreadId, String>)
        ensures
            match res {
                Ok(id) => uuid_from_str(text@) == Ok::<u128, Seq<char>>(id.uuid),
                Err(error) => uuid_from_str(text@) == Err::<u128, Seq<char>>(error@),
            },
            forall|id: ThreadId|
                text@ == #[trigger] id.text() ==> (res matches Ok(read) && read == id),
    {
        match parse_uuid(text) {
            Ok(uuid) => Ok(ThreadId { uuid }),
            Err(error) => Err(error),
        }
    }

    /// The hyphenated form.
    pub fn to_string(&self) -> (res: String)
        ensures
            res@ == self.text(),
    {
        hyphenated(self.uuid)
    }
}

/// The thread id of a session: the UUID of the session id in the namespace of
/// this backend.
pub open spec fn thread_of(session_id: Seq<char>) -> ThreadId {
    ThreadId { uuid: uuid_v5(MOCK_THREAD_NAMESPACE, vstd::utf8::encode_utf8(session_id)) }
}

/// The thread id of a session. The same session always has the same thread.
pub fn deterministic_thread_id(session_id: &str) -> (res: Result<ThreadId, BackendError>)
    ensures
        res matches Ok(id) && id == thread_of(session_id@),
{
    let id = ThreadId { uuid: name_based_uuid(MOCK_THREAD_NAMESPACE, session_id.as_bytes()) };
    match ThreadId::from_string(id.to_string().as_str()) {
        Ok(read) => Ok(read),
        Err(error) => Err(invalid_wire(error)),
    }
}

} // verus!
