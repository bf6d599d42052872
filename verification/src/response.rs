//! The bytes of a response as text.

use vstd::prelude::*;
use vstd::utf8::{decode_utf8, valid_utf8};

verus! {

/// What `String::from_utf8_lossy` makes of `bytes`: their text, with the
/// replacement character in the place of what is no UTF-8.
pub uninterp spec fn lossy_text(bytes: Seq<u8>) -> Seq<char>;

/// Hands `bytes` to `String::from_utf8_lossy`, which never fails: it reads
/// UTF-8 and puts U+FFFD where the bytes are none. The contract names the
/// outcome, and claims that bytes that are UTF-8 throughout come out as the
/// text that they encode.
#[verifier::external_body]
pub(crate) fn decode_lossy(bytes: &[u8]) -> (text: String)
    ensures
        text@ == lossy_text(bytes@),
        valid_utf8(bytes@) ==> text@ == decode_utf8(bytes@),
{
    String::from_utf8_lossy(bytes).into_owned()
}

} // verus!
