//! Texts out of the byte buffers that the host and the system fill.

use vstd::prelude::*;
use vstd::slice::slice_subrange;
use vstd::string::*;
use vstd::utf8::{decode_utf8, valid_utf8};

verus! {

/// The text that `String::from_utf8_lossy` makes of `bytes`: what they
/// encode, with U+FFFD for every stretch that is no valid UTF-8.
pub uninterp spec fn utf8_lossy(bytes: Seq<u8>) -> Seq<char>;

/// Whether `position` holds a NUL, the first of `bytes`.
pub open spec fn is_first_nul(bytes: Seq<u8>, position: int) -> bool {
    &&& 0 <= position < bytes.len()
    &&& bytes[position] == 0
    &&& forall|i: int| 0 <= i < position ==> bytes[i] != 0
}

/// Whether `bytes` holds a NUL.
pub open spec fn has_nul(bytes: Seq<u8>) -> bool {
    exists|i: int| 0 <= i < bytes.len() && bytes[i] == 0
}

/// The bytes in front of the first NUL; all of them where there is none.
pub open spec fn until_nul(bytes: Seq<u8>) -> Seq<u8>
    decreases bytes.len(),
{
    if bytes.len() == 0 || bytes[0] == 0 {
        Seq::empty()
    } else {
        seq![bytes[0]] + until_nul(bytes.drop_first())
    }
}

/// The bytes in front of the first NUL are the bytes up to its position.
pub proof fn until_nul_is_prefix(bytes: Seq<u8>, position: int)
    requires
        is_first_nul(bytes, position),
    ensures
        until_nul(bytes) == bytes.take(position),
    decreases bytes.len(),
{
    if position > 0 {
        let rest = bytes.drop_first();
        assert(is_first_nul(rest, position - 1));
        until_nul_is_prefix(rest, position - 1);
    }
}

/// `core::str::from_utf8`: the text that the bytes encode, if they are valid
/// UTF-8, and nothing if they are not.
#[verifier::external_body]
pub(crate) fn from_utf8(bytes: &[u8]) -> (text: Option<&str>)
    ensures
        text is Some <==> valid_utf8(bytes@),
        text matches Some(decoded) ==> decoded@ == decode_utf8(bytes@),
{
    core::str::from_utf8(bytes).ok()
}

/// `String::from_utf8_lossy`: the text that the bytes encode where they are
/// valid UTF-8. For other bytes the contract only names the result.
#[verifier::external_body]
pub(crate) fn from_utf8_lossy(bytes: &[u8]) -> (text: String)
    ensures
        text@ == utf8_lossy(bytes@),
        valid_utf8(bytes@) ==> text@ == decode_utf8(bytes@),
{
    String::from_utf8_lossy(bytes).into_owned()
}

/// The position of the first NUL in `bytes`.
pub fn position_of_nul(bytes: &[u8]) -> (position: Option<usize>)
    ensures
        position is Some <==> has_nul(bytes@),
        position matches Some(p) ==> is_first_nul(bytes@, p as int),
{
    let mut i: usize = 0;
    while i < bytes.len()
        invariant
            i <= bytes.len(),
            forall|k: int| 0 <= k < i ==> bytes@[k] != 0,
        decreases bytes.len() - i,
    {
        if bytes[i] == 0 {
            return Some(i);
        }
        i += 1;
    }
    None
}

/// The text in a buffer that holds a C string: what stands in front of the
/// first NUL, decoded leniently.
pub fn vec_with_nul_to_string(bytes: &[u8]) -> (text: String)
    requires
        has_nul(bytes@),
    ensures
        text@ == utf8_lossy(until_nul(bytes@)),
        valid_utf8(until_nul(bytes@)) ==> text@ == decode_utf8(until_nul(bytes@)),
{
    match position_of_nul(bytes) {
        Some(first_nul_char_pos) => {
            proof {
                until_nul_is_prefix(bytes@, first_nul_char_pos as int);
            }
            let front = slice_subrange(bytes, 0, first_nul_char_pos);
            from_utf8_lossy(front)
        },
        None => String::new(),
    }
}

/// The text of a cell that the host hands over as bytes: what they encode,
/// or a question mark for the whole cell where they are no valid UTF-8.
pub open spec fn cell_text(bytes: Seq<u8>) -> Seq<char> {
    if valid_utf8(bytes) {
        decode_utf8(bytes)
    } else {
        "?"@
    }
}

/// The text of a cell that the host hands over as bytes.
pub fn cell_to_string(bytes: &[u8]) -> (text: String)
    ensures
        text@ == cell_text(bytes@),
{
    match from_utf8(bytes) {
        Some(decoded) => decoded.to_owned(),
        None => "?".to_owned(),
    }
}

} // verus!
