//! Turning received bytes into text.
use vstd::prelude::*;

verus! {

/// The text `String::from_utf8_lossy` makes of `b`.
pub uninterp spec fn lossy_text(b: Seq<u8>) -> Seq<char>;

/// `String::from_utf8_lossy`, made into an owned `String`: the text of `b`, with each
/// invalid UTF-8 sequence replaced by U+FFFD.  Its documentation says that valid UTF-8 comes
/// back unchanged, which is the second clause; how invalid input is replaced is left to the
/// name `lossy_text`.
#[verifier::external_body]
pub(crate) fn text_from_bytes(b: &[u8]) -> (s: String)
    ensures
        s@ == lossy_text(b@),
        vstd::utf8::valid_utf8(b@) ==> s@ == vstd::utf8::decode_utf8(b@),
{
    String::from_utf8_lossy(b).into_owned()
}

} // verus!
