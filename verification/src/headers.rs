//! The texts that an HTTP header can carry.

use vstd::prelude::*;

verus! {

/// Whether a character may stand in the value of a header: a tab, or any
/// character from the blank on but the delete character.
pub open spec fn header_char(c: char) -> bool {
    c == '\t' || (c as u32 >= 32 && c as u32 != 127)
}

/// Whether a text may be the value of a header: each of its characters may
/// stand in one.
pub open spec fn header_text(value: Seq<char>) -> bool {
    forall|i: int| 0 <= i < value.len() ==> header_char(#[trigger] value[i])
}

/// Calls `reqwest::header::HeaderValue::from_str` and says whether it took
/// the text. Trusted: it takes a text exactly if each byte of it is a tab,
/// or is 32 or more and not 127. In a text, a character under 128 is one
/// byte of its own number, and any other character is made of bytes over
/// 127, so this is `header_text`.
#[verifier::external_body]
pub(crate) fn is_header_value(value: &str) -> (r: bool)
    ensures
        r == header_text(value@),
{
    reqwest::header::HeaderValue::from_str(value).is_ok()
}

} // verus!
