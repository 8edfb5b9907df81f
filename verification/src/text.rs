//! Verified text utilities: character-level equality and substring
//! search over `&str`, with exact contracts over `Seq<char>` views.

use vstd::prelude::*;
use vstd::string::StrSliceExecFns;

verus! {

/// True when `pat` occurs in `text` starting exactly at index `i`.
pub open spec fn matches_at(text: Seq<char>, pat: Seq<char>, i: int) -> bool {
    &&& 0 <= i
    &&& i + pat.len() <= text.len()
    &&& text.subrange(i, i + pat.len() as int) == pat
}

/// True when `pat` occurs somewhere in `text` at or after index `from`.
pub open spec fn occurs_from(text: Seq<char>, pat: Seq<char>, from: int) -> bool {
    exists|i: int| from <= i && matches_at(text, pat, i)
}

/// True when `pat` occurs somewhere in `text`.
pub open spec fn occurs(text: Seq<char>, pat: Seq<char>) -> bool {
    occurs_from(text, pat, 0)
}

/// Character-by-character string equality, settled on the views.
pub fn str_eq(a: &str, b: &str) -> (r: bool)
    ensures
        r == (a@ == b@),
{
    let a_len = a.unicode_len();
    let b_len = b.unicode_len();
    if a_len != b_len {
        return false;
    }
    let mut i: usize = 0;
    while i < a_len
        invariant
            a_len == a@.len(),
            a_len == b@.len(),
            i <= a_len,
            forall|j: int| 0 <= j < i ==> a@[j] == b@[j],
        decreases a_len - i,
    {
        if a.get_char(i) != b.get_char(i) {
            return false;
        }
        i = i + 1;
    }
    proof {
        assert(a@ =~= b@);
    }
    true
}

/// Whether `pat` stands in `text` at exactly index `i`.
fn match_at(text: &str, pat: &str, i: usize, text_len: usize, pat_len: usize) -> (r: bool)
    requires
        text_len == text@.len(),
        pat_len == pat@.len(),
        i + pat_len <= text_len,
    ensures
        r == matches_at(text@, pat@, i as int),
{
    let mut j: usize = 0;
    while j < pat_len
        invariant
            text_len == text@.len(),
            pat_len == pat@.len(),
            i + pat_len <= text_len,
            j <= pat_len,
            forall|k: int| 0 <= k < j ==> text@[i + k] == pat@[k],
        decreases pat_len - j,
    {
        if text.get_char(i + j) != pat.get_char(j) {
            proof {
                assert(text@.subrange(i as int, i + pat@.len() as int)[j as int] == text@[i + j]);
            }
            return false;
        }
        j = j + 1;
    }
    proof {
        assert(text@.subrange(i as int, i + pat@.len() as int) =~= pat@);
    }
    true
}

/// The first index at or after `from` where `pat` occurs in `text`,
/// if there is one.
pub fn find_from(text: &str, pat: &str, from: usize) -> (r: Option<usize>)
    ensures
        match r {
            Some(i) => {
                &&& from <= i
                &&& matches_at(text@, pat@, i as int)
                &&& forall|j: int| from <= j < i ==> !matches_at(text@, pat@, j)
            },
            None => forall|j: int| from <= j ==> !matches_at(text@, pat@, j),
        },
{
    let text_len = text.unicode_len();
    let pat_len = pat.unicode_len();
    if pat_len > text_len || from > text_len - pat_len {
        return None;
    }
    if pat_len == 0 {
        proof {
            assert(text@.subrange(from as int, from as int) =~= pat@);
        }
        return Some(from);
    }
    let limit: usize = text_len - pat_len;
    let mut i: usize = from;
    while i <= limit
        invariant
            text_len == text@.len(),
            pat_len == pat@.len(),
            1 <= pat_len <= text_len,
            limit == text_len - pat_len,
            from <= i <= limit + 1,
            forall|j: int| from <= j < i ==> !matches_at(text@, pat@, j),
        decreases limit + 1 - i,
    {
        if match_at(text, pat, i, text_len, pat_len) {
            return Some(i);
        }
        i = i + 1;
    }
    None
}

} // verus!
