//! String marshaling across the host boundary.
//!
//! Outgoing strings become NUL-terminated byte buffers; a string already
//! containing a NUL byte is a caller error and is rejected rather than
//! silently truncated. Incoming host strings are bytes up to the host's
//! terminator, converted back to owned strings.

use vstd::prelude::*;

use vstd::string::StringSliceAdditionalSpecFns;
use vstd::utf8::{decode_utf8, encode_utf8, encode_utf8_decode_utf8, valid_utf8};

verus! {

/// Whether a byte sequence contains no NUL byte, so that it can cross the
/// host boundary as a terminated buffer without truncation.
pub open spec fn nul_free(bytes: Seq<u8>) -> bool {
    forall|i: int| 0 <= i < bytes.len() ==> bytes[i] != 0
}

/// The rejection returned when an outgoing string holds an embedded NUL
/// byte.
#[derive(Debug, Clone, PartialEq, Eq, Structural)]
pub struct NulError {
    /// The index, in the string's byte encoding, of the first NUL byte.
    pub nul_position: usize,
}

/// Builds the NUL-terminated buffer in which the string crosses the host
/// boundary: its bytes followed by a single terminator.
///
/// A string already containing a NUL byte is rejected, with the position
/// of its first NUL byte.
pub fn to_nul_terminated(s: &str) -> (r: Result<Vec<u8>, NulError>)
    ensures
        match r {
            Ok(buf) => nul_free(s.spec_bytes()) && buf@ == s.spec_bytes().push(0u8),
            Err(e) => {
                &&& e.nul_position < s.spec_bytes().len()
                &&& s.spec_bytes()[e.nul_position as int] == 0
                &&& nul_free(s.spec_bytes().subrange(0, e.nul_position as int))
            },
        },
{
    let bytes = s.as_bytes_vec();
    let mut buf: Vec<u8> = Vec::new();
    let mut i: usize = 0;
    while i < bytes.len()
        invariant
            i <= bytes.len(),
            bytes@ == s.spec_bytes(),
            buf@ == bytes@.subrange(0, i as int),
            forall|j: int| 0 <= j < i ==> bytes@[j] != 0,
        decreases bytes.len() - i,
    {
        let b = bytes[i];
        if b == 0 {
            return Err(NulError { nul_position: i });
        }
        buf.push(b);
        i += 1;
    }
    proof {
        assert(buf@ =~= s.spec_bytes());
    }
    buf.push(0);
    Ok(buf)
}

/// Relies on str::from_utf8: it returns `Ok` exactly on valid UTF-8, and
/// the resulting string slice is backed by the given bytes.
#[verifier::external_body]
fn utf8_to_str(bytes: &[u8]) -> (r: Option<&str>)
    ensures
        r is Some <==> valid_utf8(bytes@),
        r is Some ==> r->0.spec_bytes() == bytes@,
{
    match core::str::from_utf8(bytes) {
        Ok(s) => Some(s),
        Err(_) => None,
    }
}

/// Converts bytes read back from the host into the owned string they
/// encode: the result's characters are the bytes' UTF-8 decoding, and its
/// encoding is exactly those bytes.
pub fn bytes_to_string(bytes: &[u8]) -> (r: String)
    requires
        valid_utf8(bytes@),
    ensures
        encode_utf8(r@) == bytes@,
        r@ == decode_utf8(bytes@),
{
    match utf8_to_str(bytes) {
        Some(s) => {
            proof {
                encode_utf8_decode_utf8(s@);
            }
            s.to_owned()
        },
        None => {
            proof {
                assert(false);
            }
            String::new()
        },
    }
}

} // verus!
