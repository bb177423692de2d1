//! Comparison and search on text, stated over sequences of characters.

use vstd::prelude::*;
use vstd::utf8::encode_utf8_decode_utf8;

verus! {

/// `needle` occurs in `haystack` at offset `at`.
pub open spec fn occurs_at(haystack: Seq<char>, needle: Seq<char>, at: int) -> bool {
    &&& 0 <= at
    &&& at + needle.len() <= haystack.len()
    &&& haystack.subrange(at, at + needle.len()) == needle
}

/// `needle` occurs somewhere in `haystack`.
pub open spec fn contains(haystack: Seq<char>, needle: Seq<char>) -> bool {
    exists|at: int| occurs_at(haystack, needle, at)
}

/// A text that begins with `needle` contains it, whatever follows.
pub proof fn lemma_prefix_is_contained(needle: Seq<char>, rest: Seq<char>)
    ensures
        contains(needle + rest, needle),
{
    assert((needle + rest).subrange(0, needle.len() as int) =~= needle);
    assert(occurs_at(needle + rest, needle, 0));
}

/// Containment survives when more text is put behind the haystack.
pub proof fn lemma_contains_extends(haystack: Seq<char>, needle: Seq<char>, rest: Seq<char>)
    requires
        contains(haystack, needle),
    ensures
        contains(haystack + rest, needle),
{
    let at = choose|at: int| occurs_at(haystack, needle, at);
    assert((haystack + rest).subrange(at, at + needle.len()) =~= haystack.subrange(
        at,
        at + needle.len(),
    ));
    assert(occurs_at(haystack + rest, needle, at));
}

/// Whether two runs of bytes are the same, byte for byte.
pub fn same_bytes(left: &[u8], right: &[u8]) -> (same: bool)
    ensures
        same == (left@ == right@),
{
    if left.len() != right.len() {
        return false;
    }
    let mut index: usize = 0;
    while index < left.len()
        invariant
            left@.len() == right@.len(),
            index <= left@.len(),
            forall|earlier: int| 0 <= earlier < index ==> left@[earlier] == right@[earlier],
        decreases left@.len() - index,
    {
        if left[index] != right[index] {
            return false;
        }
        index += 1;
    }
    assert(left@ =~= right@);
    true
}

/// Whether two texts hold the same characters.
pub fn same_text(left: &str, right: &str) -> (same: bool)
    ensures
        same == (left@ == right@),
{
    proof {
        encode_utf8_decode_utf8(left@);
        encode_utf8_decode_utf8(right@);
    }
    same_bytes(left.as_bytes(), right.as_bytes())
}

/// The texts of a list of owned strings.
pub open spec fn texts(items: Seq<String>) -> Seq<Seq<char>> {
    items.map_values(|item: String| item@)
}

/// The index at which `wanted` stands first among `items`, if it stands there at all.
pub fn position_of(items: &Vec<String>, wanted: &str) -> (position: Option<usize>)
    ensures
        match position {
            Some(index) => {
                &&& index < items@.len()
                &&& items@[index as int]@ == wanted@
                &&& forall|earlier: int| 0 <= earlier < index ==> items@[earlier]@ != wanted@
            },
            None => !texts(items@).contains(wanted@),
        },
{
    let mut index: usize = 0;
    while index < items.len()
        invariant
            index <= items@.len(),
            forall|earlier: int| 0 <= earlier < index ==> items@[earlier]@ != wanted@,
        decreases items@.len() - index,
    {
        if same_text(items[index].as_str(), wanted) {
            return Some(index);
        }
        index += 1;
    }
    assert forall|at: int| 0 <= at < texts(items@).len() implies texts(items@)[at] != wanted@ by {}
    None
}

} // verus!
