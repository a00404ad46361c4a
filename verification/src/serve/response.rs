//! The one-line answers of the service, and their wording.

use crate::text::{decimal, push_decimal, push_signed_decimal, signed_decimal};
use vstd::prelude::*;

verus! {

/// An answer that is a message and nothing else.
#[derive(Clone, Debug, PartialEq, Eq)]
pub struct ApiResponse {
    pub message: String,
}

/// The wording for a record that is not there: its kind, the id in decimal,
/// as in "Owner with id 7 not found".
pub open spec fn not_found_text(kind: Seq<char>, id: int) -> Seq<char> {
    kind + " with id "@ + signed_decimal(id) + " not found"@
}

impl ApiResponse {
    /// An answer with the given message.
    pub fn new(message: &str) -> (response: ApiResponse)
        ensures
            response.message@ == message@,
    {
        ApiResponse { message: String::from_str(message) }
    }

    /// The answer for a record of some `kind` that was looked for under `id`
    /// and is not there.
    pub fn not_found(kind: &str, id: i32) -> (response: ApiResponse)
        ensures
            response.message@ == not_found_text(kind@, id as int),
    {
        let mut message = String::from_str(kind);
        message.append(" with id ");
        push_signed_decimal(&mut message, id);
        message.append(" not found");
        ApiResponse { message }
    }

    /// The answer for a trade that was looked for under `id` and is not
    /// there.
    pub fn trade_not_found(id: u64) -> (response: ApiResponse)
        ensures
            response.message@ == not_found_text("Trade"@, id as int),
    {
        let mut message = String::from_str("Trade");
        message.append(" with id ");
        push_decimal(&mut message, id);
        message.append(" not found");
        ApiResponse { message }
    }
}

} // verus!
