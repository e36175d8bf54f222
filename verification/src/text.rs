//! String helpers shared by the registry: equality of string slices, the
//! marker test, and searches through a list of strings.

use vstd::prelude::*;
use vstd::string::StringSliceAdditionalSpecFns;

verus! {

/// The character that introduces a flag.
pub const MARKER: char = '-';

/// Whether a token is written like a flag, that is, begins with the marker.
pub open spec fn is_marked(token: Seq<char>) -> bool {
    token.len() > 0 && token[0] == MARKER
}

/// Whether two string slices hold the same text, found by comparing their
/// bytes.
pub fn str_eq(left: &str, right: &str) -> (same: bool)
    ensures
        same == (left@ == right@),
{
    let a = left.as_bytes();
    let b = right.as_bytes();
    proof {
        // Decoding undoes encoding, so equal bytes mean equal characters.
        vstd::utf8::encode_utf8_decode_utf8(left@);
        vstd::utf8::encode_utf8_decode_utf8(right@);
    }
    if a.len() != b.len() {
        return false;
    }
    let mut i: usize = 0;
    while i < a.len()
        invariant
            i <= a@.len(),
            a@.len() == b@.len(),
            a@ == left.spec_bytes(),
            b@ == right.spec_bytes(),
            vstd::utf8::decode_utf8(left.spec_bytes()) == left@,
            vstd::utf8::decode_utf8(right.spec_bytes()) == right@,
            forall|j: int| 0 <= j < i ==> a@[j] == b@[j],
        decreases a@.len() - i,
    {
        if a[i] != b[i] {
            return false;
        }
        i = i + 1;
    }
    assert(a@ =~= b@);
    true
}

/// Whether `token` begins with the marker.
pub fn starts_with_marker(token: &str) -> (marked: bool)
    ensures
        marked == is_marked(token@),
{
    !token.is_empty() && token.get_char(0) == MARKER
}

/// The index of the first string of `vector` equal to `value`, if there is one.
pub fn position_of(value: &str, vector: &[String]) -> (at: Option<usize>)
    ensures
        match at {
            Some(i) => vector.deep_view().index_of_first(value@) == Some(i as int),
            None => vector.deep_view().index_of_first(value@) is None,
        },
{
    let ghost items = vector.deep_view();
    let mut i: usize = 0;
    while i < vector.len()
        invariant
            i <= vector@.len(),
            items == vector.deep_view(),
            forall|j: int| 0 <= j < i ==> items[j] != value@,
        decreases vector@.len() - i,
    {
        if str_eq(vector[i].as_str(), value) {
            proof {
                assert(items[i as int] == value@);
                items.index_of_first_ensures(value@);
            }
            return Some(i);
        }
        i = i + 1;
    }
    proof {
        items.index_of_first_ensures(value@);
    }
    None
}

/// Whether `value` occurs among the strings of `vector`.
pub fn is_value_in_a_vector_str(value: &str, vector: &[String]) -> (found: bool)
    ensures
        found == vector.deep_view().contains(value@),
{
    proof {
        vector.deep_view().index_of_first_ensures(value@);
    }
    position_of(value, vector).is_some()
}

} // verus!
