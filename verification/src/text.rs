//! Comparing strings character by character.

use vstd::prelude::*;

verus! {

/// Whether `text` begins with the characters of `prefix`.
pub open spec fn has_prefix(text: Seq<char>, prefix: Seq<char>) -> bool {
    prefix.len() <= text.len() && text.take(prefix.len() as int) == prefix
}

/// Tests whether `text` begins with `prefix`.
pub fn starts_with(text: &str, prefix: &str) -> (found: bool)
    ensures
        found == has_prefix(text@, prefix@),
{
    let prefix_len: usize = prefix.unicode_len();
    if text.unicode_len() < prefix_len {
        return false;
    }
    let mut i: usize = 0;
    while i < prefix_len
        invariant
            i <= prefix_len,
            prefix_len == prefix@.len(),
            prefix_len <= text@.len(),
            forall|j: int| 0 <= j < i ==> text@[j] == prefix@[j],
        decreases prefix_len - i,
    {
        if text.get_char(i) != prefix.get_char(i) {
            assert(text@.take(prefix@.len() as int)[i as int] != prefix@[i as int]);
            return false;
        }
        i += 1;
    }
    assert(text@.take(prefix@.len() as int) =~= prefix@);
    true
}

/// Tests whether two strings hold the same characters.
pub fn same_text(left: &str, right: &str) -> (same: bool)
    ensures
        same == (left@ == right@),
{
    if left.unicode_len() != right.unicode_len() {
        return false;
    }
    let same = starts_with(left, right);
    assert(left@.take(right@.len() as int) =~= left@);
    same
}

} // verus!
