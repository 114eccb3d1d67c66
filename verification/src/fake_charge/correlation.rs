//! The identifier by which a request is followed through the logs.

use crate::ids::{format_uuid, uuid_text};
use vstd::prelude::*;

verus! {

/// The identifier of a request: the one it came with, unless that is empty, or else a fresh one.
pub fn request_id(inbound: Option<String>, fresh: u128) -> (id: String)
    ensures
        id@ == match inbound {
            Some(text) => if text@.len() > 0 {
                text@
            } else {
                uuid_text(fresh)
            },
            None => uuid_text(fresh),
        },
{
    match inbound {
        Some(text) => if text.as_str().is_empty() {
            format_uuid(fresh)
        } else {
            text
        },
        None => format_uuid(fresh),
    }
}

} // verus!
