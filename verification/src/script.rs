//! The host's script-evaluation boundary.
//!
//! A script string crosses the boundary in the same NUL-terminated form as
//! every other outgoing string ([`crate::marshal::to_nul_terminated`]); the
//! evaluator's reply comes back either as a null pointer — the expression
//! had no string representation — or as the bytes up to the terminator.
//! This module interprets that reply.

use vstd::prelude::*;

use crate::marshal::bytes_to_string;
use vstd::utf8::{decode_utf8, encode_utf8, valid_utf8};

verus! {

/// Interprets the evaluator's reply to a string-valued script: no reply
/// means the expression had no string representation; otherwise the reply
/// bytes become the returned string, unchanged.
pub fn run_script_string_reply(reply: Option<Vec<u8>>) -> (r: Option<String>)
    requires
        reply is Some ==> valid_utf8(reply->0@),
    ensures
        r is Some <==> reply is Some,
        r is Some ==> encode_utf8(r->0@) == reply->0@,
        r is Some ==> r->0@ == decode_utf8(reply->0@),
{
    match reply {
        Some(bytes) => Some(bytes_to_string(bytes.as_slice())),
        None => None,
    }
}

} // verus!
