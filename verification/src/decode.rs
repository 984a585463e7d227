//! Lossy text decoding of captured process output.

use vstd::prelude::*;

verus! {

/// What lossy UTF-8 decoding yields on a byte sequence. The decoding is a
/// fixed function of the bytes alone; it never fails, because byte
/// sequences that are not valid UTF-8 are replaced rather than rejected.
pub uninterp spec fn lossy_of(bytes: Seq<u8>) -> Seq<char>;

/// Relies on `String::from_utf8_lossy`: decodes the bytes as UTF-8,
/// substituting U+FFFD for invalid sequences, and depends on the bytes
/// alone.
#[verifier::external_body]
pub(crate) fn lossy_decode(bytes: &Vec<u8>) -> (r: String)
    ensures
        r@ == lossy_of(bytes@),
{
    String::from_utf8_lossy(bytes.as_slice()).into_owned()
}

} // verus!
