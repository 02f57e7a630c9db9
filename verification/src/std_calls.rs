//! The call into std that has no contract elsewhere. It is believed, not
//! proved.

use vstd::prelude::*;

verus! {

/// The text that `String::from_utf8_lossy` reads from bytes: the text that
/// they encode where they are UTF-8, and else a text in which U+FFFD stands
/// for each stretch that is not.
pub uninterp spec fn lossy_text(bytes: Seq<u8>) -> Seq<char>;

/// `String::from_utf8_lossy`, as a `String` of its own.
#[verifier::external_body]
pub(crate) fn from_utf8_lossy(bytes: &[u8]) -> (r: String)
    ensures
        r@ == lossy_text(bytes@),
{
    String::from_utf8_lossy(bytes).into_owned()
}

} // verus!
