//! Choosing the next track at random.
//!
//! A shuffled advance never stays on the current track, and it never lands on
//! the last track of the list: the draw is made among the indices below
//! `len - 1`. Whether the last track ought to be eligible is an open design
//! question; as things stand it is not, and the contracts below say so, so
//! that nobody takes the choice for a uniform one over the whole list.
//!
//! The choice is made with a single draw among the eligible indices. Drawing
//! below `len - 1` again and again until the result differs from the current
//! index gives the same distribution, but need not come to an end.

use vstd::prelude::*;

verus! {

/// Whether a shuffled advance from `current` in a list of `len` tracks may land on `i`.
pub open spec fn is_shuffle_candidate(current: int, len: int, i: int) -> bool {
    0 <= i < len - 1 && i != current
}

/// How many indices a shuffled advance can land on.
pub open spec fn shuffle_candidate_count(current: int, len: int) -> int {
    if len <= 1 {
        0
    } else if 0 <= current < len - 1 {
        len - 2
    } else {
        len - 1
    }
}

/// The candidate with number `draw`, counting the candidates upwards from zero.
pub open spec fn nth_shuffle_candidate(current: int, len: int, draw: int) -> int {
    if 0 <= current < len - 1 && draw >= current {
        draw + 1
    } else {
        draw
    }
}

/// Numbering the candidates reaches candidates only: a pick is never the
/// current track and never the last track of the list.
pub proof fn lemma_pick_is_candidate(current: int, len: int, draw: int)
    requires
        0 <= draw < shuffle_candidate_count(current, len),
    ensures
        is_shuffle_candidate(current, len, nth_shuffle_candidate(current, len, draw)),
        nth_shuffle_candidate(current, len, draw) != current,
        nth_shuffle_candidate(current, len, draw) != len - 1,
{
}

/// Numbering the candidates reaches every candidate, each under one number:
/// beyond the two exclusions nothing is left out, and no index is favoured by
/// being counted twice.
pub proof fn lemma_every_candidate_is_picked_once(current: int, len: int, i: int)
    requires
        is_shuffle_candidate(current, len, i),
    ensures
        exists|draw: int|
            0 <= draw < shuffle_candidate_count(current, len) && #[trigger] nth_shuffle_candidate(
                current,
                len,
                draw,
            ) == i,
        forall|d1: int, d2: int|
            0 <= d1 < shuffle_candidate_count(current, len) && 0 <= d2 < shuffle_candidate_count(
                current,
                len,
            ) && #[trigger] nth_shuffle_candidate(current, len, d1) == i
                && #[trigger] nth_shuffle_candidate(current, len, d2) == i ==> d1 == d2,
{
    let draw = if 0 <= current < len - 1 && i > current {
        i - 1
    } else {
        i
    };
    assert(nth_shuffle_candidate(current, len, draw) == i);
}

/// Draws an index below `bound` from the thread-local generator of the `rand`
/// crate, by `rand::random_range` on the range `0..bound`.
///
/// That function panics on an empty range, so `bound` must be positive. Of the
/// value drawn only its range is claimed; which value comes is left open.
#[verifier::external_body]
fn random_below(bound: usize) -> (r: usize)
    requires
        bound > 0,
    ensures
        r < bound,
{
    rand::random_range(0..bound)
}

/// Counts the indices that a shuffled advance can land on.
pub fn shuffle_candidates(current: usize, len: usize) -> (n: usize)
    ensures
        n == shuffle_candidate_count(current as int, len as int),
{
    if len <= 1 {
        0
    } else if current < len - 1 {
        len - 2
    } else {
        len - 1
    }
}

/// Turns a number drawn below the candidate count into the track it stands for.
pub fn shuffle_pick(current: usize, len: usize, draw: usize) -> (i: usize)
    requires
        draw < shuffle_candidate_count(current as int, len as int),
    ensures
        i == nth_shuffle_candidate(current as int, len as int, draw as int),
        is_shuffle_candidate(current as int, len as int, i as int),
{
    if current < len - 1 && draw >= current {
        draw + 1
    } else {
        draw
    }
}

/// Picks the track that follows `current` in shuffle mode.
///
/// Returns `None` exactly when there is nothing to pick: in a list of fewer
/// than two tracks, and in a list of two when the first is playing. Otherwise
/// the result is a candidate, whatever the generator produced.
pub fn shuffle_next(current: usize, len: usize) -> (r: Option<usize>)
    ensures
        r is None <==> shuffle_candidate_count(current as int, len as int) == 0,
        r matches Some(i) ==> is_shuffle_candidate(current as int, len as int, i as int),
{
    let count = shuffle_candidates(current, len);
    if count == 0 {
        None
    } else {
        let draw = random_below(count);
        Some(shuffle_pick(current, len, draw))
    }
}

} // verus!
