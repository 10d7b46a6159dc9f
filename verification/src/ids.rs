//! Identifiers for new events.

use crate::model::CreateEventRequest;
use crate::protocol::{Operation, OperationView};
use vstd::prelude::*;

verus! {

/// A decimal digit or one of the letters `a` to `f`.
pub open spec fn is_hex(c: char) -> bool {
    c == '0' || c == '1' || c == '2' || c == '3' || c == '4' || c == '5' || c == '6' || c == '7'
        || c == '8' || c == '9' || c == 'a' || c == 'b' || c == 'c' || c == 'd' || c == 'e' || c
        == 'f'
}

/// The text is a random (version 4) UUID in its usual form: 36
/// characters, hyphens after the 8th, 12th, 16th and 20th hexadecimal
/// digit, the version digit `4`, and a variant digit from `8` to `b`.
pub open spec fn is_event_id(text: Seq<char>) -> bool {
    &&& text.len() == 36
    &&& forall|i: int|
        0 <= i < 36 ==> if i == 8 || i == 13 || i == 18 || i == 23 {
            #[trigger] text[i] == '-'
        } else {
            is_hex(text[i])
        }
    &&& text[14] == '4'
    &&& (text[19] == '8' || text[19] == '9' || text[19] == 'a' || text[19] == 'b')
}

/// Calls `Uuid::new_v4` of the crate `uuid` and writes the result out with
/// its `Display`. The contract claims the shape that every such text has:
/// lower-case hexadecimal digits in groups of 8, 4, 4, 4 and 12, with the
/// version and variant digits of a random UUID. Which digits come out is
/// left open. The call draws from the operating system's random numbers
/// and does not return if there are none.
#[verifier::external_body]
fn random_uuid_text() -> (id: String)
    ensures
        is_event_id(id@),
{
    uuid::Uuid::new_v4().to_string()
}

/// An identifier for a new event.
pub fn new_event_id() -> (id: String)
    ensures
        is_event_id(id@),
{
    random_uuid_text()
}

impl Operation {
    /// The operation that stores a new event with `fields` under a newly
    /// drawn identifier.
    pub fn create_event(fields: CreateEventRequest) -> (operation: Operation)
        ensures
            operation@ matches OperationView::CreateEvent { id, fields: stored } && stored
                == fields@ && is_event_id(id),
    {
        Operation::CreateEvent { id: new_event_id(), fields }
    }
}

} // verus!
