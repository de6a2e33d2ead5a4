//! Comparisons of text, character by character.

use vstd::prelude::*;
use vstd::string::*;

verus! {

/// Decides whether the first `len` characters of `text` spell exactly `tag`.
/// Reads at most `len` characters of either string.
pub(crate) fn prefix_is(text: &str, len: usize, tag: &str) -> (b: bool)
    requires
        len <= text@.len(),
    ensures
        b == (text@.subrange(0, len as int) == tag@),
{
    let tag_len = tag.unicode_len();
    if tag_len != len {
        return false;
    }
    let mut i: usize = 0;
    while i < len
        invariant
            i <= len,
            len == tag@.len(),
            len <= text@.len(),
            forall|j: int| 0 <= j < i ==> text@[j] == tag@[j],
        decreases len - i,
    {
        if text.get_char(i) != tag.get_char(i) {
            assert(text@.subrange(0, len as int)[i as int] != tag@[i as int]);
            return false;
        }
        i += 1;
    }
    assert(text@.subrange(0, len as int) =~= tag@);
    true
}

/// Decides whether two strings hold the same characters.
pub(crate) fn same_text(left: &str, right: &str) -> (b: bool)
    ensures
        b == (left@ == right@),
{
    let len = left.unicode_len();
    assert(left@.subrange(0, len as int) =~= left@);
    prefix_is(left, len, right)
}

} // verus!
