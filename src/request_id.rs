//! Request identifiers: every reply carries the one its request came with,
//! or a fresh one.
use crate::text::{nibble, random_uuid, uuid_string, uuid_text};
use vstd::prelude::*;

verus! {

/// The header that carries a request's identifier, in both directions.
pub const REQUEST_ID_HEADER: &'static str = "x-request-id";

/// The identifier of a request that came with `incoming` in its
/// `x-request-id` header: that value where there is one, else a fresh random
/// version-4 UUID in hyphenated text.
pub fn assign_request_id(incoming: Option<String>) -> (r: String)
    ensures
        match incoming {
            Some(s) => r@ == s@,
            None => exists|v: u128| r@ == #[trigger] uuid_text(v) && nibble(v, 12) == 4,
        },
{
    match incoming {
        Some(s) => s,
        None => {
            let v = random_uuid();
            uuid_string(v)
        },
    }
}

} // verus!
