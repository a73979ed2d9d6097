//! UTF-8 decoding.

use vstd::prelude::*;

verus! {

/// Calls `String::from_utf8`. Trusted: it succeeds exactly on valid UTF-8, and the
/// string it then returns is what those bytes decode to.
#[verifier::external_body]
pub(crate) fn string_from_utf8(bytes: Vec<u8>) -> (text: Option<String>)
    ensures
        text is Some <==> vstd::utf8::valid_utf8(bytes@),
        text matches Some(s) ==> s@ == vstd::utf8::decode_utf8(bytes@),
{
    String::from_utf8(bytes).ok()
}

} // verus!
