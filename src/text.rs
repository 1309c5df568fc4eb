//! Strings on the wire are Java's modified UTF-8 (CESU-8 with a two-byte NUL).

use vstd::prelude::*;

verus! {

/// The text that `cesu8::from_java_cesu8` reads from a byte sequence, or `None`
/// where it refuses the bytes. Bytes that are valid standard UTF-8 (a raw NUL
/// byte included) are taken as they are; others are read as Java modified
/// UTF-8, where a four-byte UTF-8 sequence is refused.
pub uninterp spec fn java_cesu8_decoded(b: Seq<u8>) -> Option<Seq<char>>;

/// Relies on `cesu8::from_java_cesu8`: it returns the text the bytes hold, or
/// fails, and depends on the bytes alone.
#[verifier::external_body]
pub(crate) fn decode_java_cesu8(b: &[u8]) -> (r: Option<String>)
    ensures
        match r {
            Some(t) => java_cesu8_decoded(b@) == Some(t@),
            None => java_cesu8_decoded(b@) is None,
        },
{
    match cesu8::from_java_cesu8(b) {
        Ok(s) => Some(s.into_owned()),
        Err(_) => None,
    }
}

} // verus!
