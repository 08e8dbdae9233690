//! Texts: comparing them and looking them up.

use vstd::prelude::*;
use vstd::string::StringSliceAdditionalSpecFns;
use vstd::utf8::encode_utf8_decode_utf8;

verus! {

/// Whether two texts hold the same characters. They do where they hold the
/// same bytes, which is what is compared.
pub fn same_text(left: &str, right: &str) -> (same: bool)
    ensures
        same == (left@ == right@),
{
    let ours = left.as_bytes();
    let theirs = right.as_bytes();
    proof {
        encode_utf8_decode_utf8(left@);
        encode_utf8_decode_utf8(right@);
    }
    if ours.len() != theirs.len() {
        return false;
    }
    let mut i: usize = 0;
    while i < ours.len()
        invariant
            i <= ours@.len(),
            ours@.len() == theirs@.len(),
            ours@ == left.spec_bytes(),
            theirs@ == right.spec_bytes(),
            forall|k: int| 0 <= k < i ==> ours@[k] == theirs@[k],
        decreases ours@.len() - i,
    {
        if ours[i] != theirs[i] {
            return false;
        }
        i += 1;
    }
    assert(ours@ =~= theirs@);
    true
}

/// Whether `text` is one of `list`.
pub fn contains_text(list: &Vec<String>, text: &str) -> (found: bool)
    ensures
        found == list.deep_view().contains(text@),
{
    let mut i: usize = 0;
    while i < list.len()
        invariant
            i <= list@.len(),
            forall|k: int| 0 <= k < i ==> list.deep_view()[k] != text@,
        decreases list@.len() - i,
    {
        if same_text(list[i].as_str(), text) {
            assert(list.deep_view()[i as int] == text@);
            return true;
        }
        i += 1;
    }
    false
}

} // verus!
