//! UTF-8 decoding of raw byte sequences.

use vstd::prelude::*;

verus! {

/// Relies on `core::str::from_utf8`: it returns `Ok` exactly when the bytes
/// are valid UTF-8, and the returned string slice is those same bytes.
#[verifier::external_body]
pub(crate) fn bytes_to_str<'a>(bytes: &'a Vec<u8>) -> (r: Option<&'a str>)
    ensures
        r is Some <==> vstd::utf8::valid_utf8(bytes@),
        r matches Some(s) ==> s@ == vstd::utf8::decode_utf8(bytes@),
{
    core::str::from_utf8(bytes.as_slice()).ok()
}

} // verus!
