//! Text out of bytes that need not be valid UTF-8.

use vstd::prelude::*;

verus! {

/// The text that lossy UTF-8 decoding makes of a byte sequence: every valid
/// sequence becomes its character, every invalid one the replacement
/// character U+FFFD.
pub uninterp spec fn lossy_text(bytes: Seq<u8>) -> Seq<char>;

/// Calls `String::from_utf8_lossy` and takes ownership of what it returns.
/// Trusted: the contract only gives the result its name, `lossy_text` of the
/// argument; the decoding itself is std's and nothing about it is proved here.
#[verifier::external_body]
pub(crate) fn decode_lossy(bytes: &[u8]) -> (text: String)
    ensures
        text@ == lossy_text(bytes@),
{
    String::from_utf8_lossy(bytes).into_owned()
}

} // verus!
