//! Trusted bindings to text decoding from std.

use vstd::prelude::*;

verus! {

/// The UTF-8 decoding of a byte string: `Some` of its text when the bytes are
/// valid UTF-8, `None` otherwise.
pub uninterp spec fn utf8_decode(bytes: Seq<u8>) -> Option<Seq<char>>;

/// The decoded string itself, for byte strings that are valid UTF-8.  Naming
/// the value lets contracts carry the decoded text through to the rows it
/// ends up in.
pub uninterp spec fn utf8_string_of(bytes: Seq<u8>) -> String;

/// Relies on std's `String::from_utf8`: it returns `Ok` exactly when the
/// bytes are valid UTF-8, and the decoded text depends on the bytes alone.
#[verifier::external_body]
pub(crate) fn string_from_utf8(bytes: Vec<u8>) -> (r: Option<String>)
    ensures
        (r is Some) == (utf8_decode(bytes@) is Some),
        r matches Some(s) ==> s == utf8_string_of(bytes@) && utf8_decode(bytes@) == Some(s@),
{
    String::from_utf8(bytes).ok()
}

} // verus!
