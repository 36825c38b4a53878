//! Case-insensitive name filtering: a process is tracked when the lowercase
//! form of its display name contains the lowercase form of the query.

use vstd::prelude::*;

verus! {

/// The UTF-8 bytes of the lowercase form of a string, as
/// `str::to_lowercase` computes it from the characters alone.
pub uninterp spec fn lower_bytes_of(s: Seq<char>) -> Seq<u8>;

/// Relies on `str::to_lowercase`: the lowercase form of a string depends on
/// its characters alone, and the lowercase form of the empty string is
/// empty. `String::into_bytes` only converts the result to its UTF-8 bytes.
#[verifier::external_body]
fn fold_to_lower(s: &str) -> (r: Vec<u8>)
    ensures
        r@ == lower_bytes_of(s@),
        s@.len() == 0 ==> r@.len() == 0,
{
    s.to_lowercase().into_bytes()
}

/// `needle` occurs in `hay` starting at position `i`.
pub open spec fn is_match_at(needle: Seq<u8>, hay: Seq<u8>, i: int) -> bool {
    &&& 0 <= i
    &&& i + needle.len() <= hay.len()
    &&& hay.subrange(i, i + needle.len()) == needle
}

/// `needle` occurs somewhere in `hay`; the empty sequence occurs in every
/// sequence.
pub open spec fn is_substring(needle: Seq<u8>, hay: Seq<u8>) -> bool {
    exists|i: int| is_match_at(needle, hay, i)
}

/// `needle` occurs in `hay` starting exactly at position `i`.
fn match_at(hay: &[u8], needle: &[u8], i: usize) -> (b: bool)
    requires
        i + needle@.len() <= hay@.len(),
    ensures
        b == is_match_at(needle@, hay@, i as int),
{
    let n = needle.len();
    let h = hay.len();
    let mut k: usize = 0;
    while k < n
        invariant
            n == needle@.len(),
            h == hay@.len(),
            i + n <= h,
            k <= n,
            forall|m: int| 0 <= m < k ==> hay@[i + m] == needle@[m],
        decreases n - k,
    {
        if hay[i + k] != needle[k] {
            proof {
                let sub = hay@.subrange(i as int, i + needle@.len());
                assert(sub[k as int] == hay@[i + k]);
            }
            return false;
        }
        k += 1;
    }
    proof {
        assert(hay@.subrange(i as int, i + needle@.len()) =~= needle@);
    }
    true
}

/// Whether `needle` occurs anywhere in `hay`, by a left-to-right scan that
/// stops at the first occurrence.
pub fn contains_bytes(hay: &[u8], needle: &[u8]) -> (b: bool)
    ensures
        b == is_substring(needle@, hay@),
{
    let h = hay.len();
    let n = needle.len();
    if n > h {
        return false;
    }
    if n == 0 {
        proof {
            assert(hay@.subrange(0, 0) =~= needle@);
            assert(is_match_at(needle@, hay@, 0));
        }
        return true;
    }
    let mut i: usize = 0;
    while i <= h - n
        invariant
            h == hay@.len(),
            n == needle@.len(),
            1 <= n <= h,
            i <= h - n + 1,
            forall|j: int| 0 <= j < i ==> !is_match_at(needle@, hay@, j),
        decreases h - n - i + 1,
    {
        if match_at(hay, needle, i) {
            return true;
        }
        i += 1;
    }
    assert(forall|j: int| is_match_at(needle@, hay@, j) ==> 0 <= j <= h - n);
    false
}

/// The display name matches the query: the lowercase name contains the
/// lowercase query.
pub open spec fn spec_name_matches(display_name: Seq<char>, query: Seq<char>) -> bool {
    is_substring(lower_bytes_of(query), lower_bytes_of(display_name))
}

/// Whether a resolved display name matches the tracked query,
/// case-insensitively on both sides.
pub fn name_matches(display_name: &str, query: &str) -> (b: bool)
    ensures
        b == spec_name_matches(display_name@, query@),
{
    let folded_name = fold_to_lower(display_name);
    let folded_query = fold_to_lower(query);
    contains_bytes(folded_name.as_slice(), folded_query.as_slice())
}

} // verus!
