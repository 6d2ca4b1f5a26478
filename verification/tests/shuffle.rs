use player::shuffle::{shuffle_candidates, shuffle_next, shuffle_pick};

#[test]
fn short_lists_have_no_candidates() {
    assert_eq!(shuffle_candidates(0, 0), 0);
    assert_eq!(shuffle_candidates(0, 1), 0);
    assert_eq!(shuffle_candidates(0, 2), 0);
    assert_eq!(shuffle_next(0, 0), None);
    assert_eq!(shuffle_next(0, 1), None);
    assert_eq!(shuffle_next(0, 2), None);
}

#[test]
fn candidates_are_counted_without_the_current_and_the_last_track() {
    assert_eq!(shuffle_candidates(1, 2), 1);
    assert_eq!(shuffle_candidates(0, 3), 1);
    assert_eq!(shuffle_candidates(1, 3), 1);
    assert_eq!(shuffle_candidates(2, 3), 2);
    assert_eq!(shuffle_candidates(0, 10), 8);
    assert_eq!(shuffle_candidates(8, 10), 8);
    assert_eq!(shuffle_candidates(9, 10), 9);
    assert_eq!(shuffle_candidates(25, 10), 9);
}

#[test]
fn picks_skip_the_current_track() {
    assert_eq!(shuffle_pick(2, 6, 0), 0);
    assert_eq!(shuffle_pick(2, 6, 1), 1);
    assert_eq!(shuffle_pick(2, 6, 2), 3);
    assert_eq!(shuffle_pick(2, 6, 3), 4);
    assert_eq!(shuffle_pick(0, 6, 0), 1);
    assert_eq!(shuffle_pick(0, 6, 3), 4);
}

#[test]
fn picks_from_the_last_track_need_no_skip() {
    assert_eq!(shuffle_pick(5, 6, 0), 0);
    assert_eq!(shuffle_pick(5, 6, 4), 4);
}

#[test]
fn every_pick_is_a_candidate_and_every_candidate_is_picked_once() {
    for len in 2..9usize {
        for current in 0..len {
            let count = shuffle_candidates(current, len);
            let mut seen = vec![0usize; len];
            for draw in 0..count {
                let i = shuffle_pick(current, len, draw);
                assert!(i < len - 1);
                assert_ne!(i, current);
                seen[i] += 1;
            }
            for i in 0..len {
                let expected = if i < len - 1 && i != current { 1 } else { 0 };
                assert_eq!(seen[i], expected);
            }
        }
    }
}

#[test]
fn with_one_candidate_the_generator_has_no_choice() {
    for _ in 0..50 {
        assert_eq!(shuffle_next(0, 3), Some(1));
        assert_eq!(shuffle_next(1, 3), Some(0));
        assert_eq!(shuffle_next(1, 2), Some(0));
    }
}

#[test]
fn shuffle_never_stays_and_never_picks_the_last_track() {
    for len in 3..8usize {
        for current in 0..len {
            for _ in 0..200 {
                let next = shuffle_next(current, len).unwrap();
                assert_ne!(next, current);
                assert_ne!(next, len - 1);
                assert!(next < len - 1);
            }
        }
    }
}

#[test]
fn shuffle_reaches_every_candidate() {
    let len = 6usize;
    let current = 2usize;
    let mut seen = vec![false; len];
    for _ in 0..2000 {
        seen[shuffle_next(current, len).unwrap()] = true;
    }
    assert_eq!(seen, vec![true, true, false, true, true, false]);
}
