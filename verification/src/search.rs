//! Byte search used by line framing, backed by the `memchr` crate.

use vstd::prelude::*;

verus! {

/// `i` is the position of the first occurrence of `needle` in `s`.
pub open spec fn is_first_index(s: Seq<u8>, needle: u8, i: int) -> bool {
    &&& 0 <= i < s.len()
    &&& s[i] == needle
    &&& forall|j: int| 0 <= j < i ==> s[j] != needle
}

/// `needle` does not occur in `s`.
pub open spec fn absent(s: Seq<u8>, needle: u8) -> bool {
    forall|j: int| 0 <= j < s.len() ==> s[j] != needle
}

/// Calls `memchr::memchr`, which returns the index of the first occurrence of
/// `needle` in `haystack`, or `None` when the byte does not occur.
#[verifier::external_body]
pub fn find_byte(needle: u8, haystack: &[u8]) -> (r: Option<usize>)
    ensures
        match r {
            Some(i) => is_first_index(haystack@, needle, i as int),
            None => absent(haystack@, needle),
        },
{
    memchr::memchr(needle, haystack)
}

} // verus!
