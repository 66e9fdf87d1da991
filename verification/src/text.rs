//! Comparing texts character by character.

use vstd::prelude::*;
use vstd::string::*;

verus! {

/// Whether `text` ends with `suffix`.
pub fn ends_with(text: &str, suffix: &str) -> (found: bool)
    ensures
        found == suffix@.is_suffix_of(text@),
{
    let length: usize = text.unicode_len();
    let wanted: usize = suffix.unicode_len();
    if wanted > length {
        return false;
    }
    let start: usize = length - wanted;
    let mut matched: usize = 0;
    while matched < wanted
        invariant
            length == text@.len(),
            wanted == suffix@.len(),
            start + wanted == length,
            matched <= wanted,
            forall|k: int| 0 <= k < matched ==> text@[start + k] == suffix@[k],
        decreases wanted - matched,
    {
        if text.get_char(start + matched) != suffix.get_char(matched) {
            assert(text@.subrange(start as int, length as int)[matched as int]
                != suffix@[matched as int]);
            return false;
        }
        matched += 1;
    }
    assert(suffix@ =~= text@.subrange(start as int, length as int));
    true
}

/// Whether the two texts hold the same characters.
pub fn same_text(left: &str, right: &str) -> (same: bool)
    ensures
        same == (left@ == right@),
{
    if left.unicode_len() != right.unicode_len() {
        return false;
    }
    let same: bool = ends_with(left, right);
    assert(left@.subrange(0, left@.len() as int) =~= left@);
    same
}

} // verus!
