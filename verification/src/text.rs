//! Helpers for working on strings character by character.

use vstd::prelude::*;

verus! {

/// The greatest index at which `c` occurs in `s`, if it occurs at all.
pub open spec fn last_index_of(s: Seq<char>, c: char) -> Option<int>
    decreases s.len(),
{
    if s.len() == 0 {
        None
    } else if s.last() == c {
        Some(s.len() - 1)
    } else {
        last_index_of(s.drop_last(), c)
    }
}

/// `last_index_of` finds an occurrence of `c` after which there is no other,
/// and finds nothing only where `c` does not occur.
pub proof fn lemma_last_index_of(s: Seq<char>, c: char)
    ensures
        match last_index_of(s, c) {
            Some(i) => 0 <= i < s.len() && s[i] == c && forall|j: int|
                i < j < s.len() ==> s[j] != c,
            None => forall|j: int| 0 <= j < s.len() ==> s[j] != c,
        },
    decreases s.len(),
{
    if s.len() > 0 && s.last() != c {
        let t = s.drop_last();
        lemma_last_index_of(t, c);
        assert(forall|j: int| 0 <= j < t.len() ==> t[j] == s[j]);
    }
}

/// Collects the characters of `s`, so that they can be indexed in constant time.
pub fn chars_of(s: &str) -> (v: Vec<char>)
    ensures
        v@ == s@,
{
    let mut v: Vec<char> = Vec::new();
    for c in it: s.chars()
        invariant
            v@ == it.seq().take(it.index() as int),
            it.seq() == s@,
    {
        v.push(c);
    }
    v
}

/// Searches `v` from its end down to `start` for the character `c`.
///
/// The result is the position of the last occurrence, counted from `start`.
pub fn rfind_from(v: &Vec<char>, start: usize, c: char) -> (r: Option<usize>)
    requires
        start <= v@.len(),
    ensures
        match r {
            Some(k) => last_index_of(v@.skip(start as int), c) == Some(k as int),
            None => last_index_of(v@.skip(start as int), c) is None,
        },
{
    let ghost tail = v@.skip(start as int);
    let mut i: usize = v.len();
    while i > start
        invariant
            start <= i <= v@.len(),
            tail == v@.skip(start as int),
            forall|j: int| i - start <= j < tail.len() ==> tail[j] != c,
        decreases i,
    {
        i -= 1;
        if v[i] == c {
            proof {
                lemma_last_index_of(tail, c);
                assert(tail[i - start] == c);
            }
            return Some(i - start);
        }
    }
    proof {
        lemma_last_index_of(tail, c);
    }
    None
}

} // verus!
