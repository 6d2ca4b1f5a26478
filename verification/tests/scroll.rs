use player::layout::{
    is_row_visible, progress_fill_width, row_y, MAX_TRACKS, PROGRESS_WIDTH, ROW_INSET, ROW_PITCH,
    TOP_ANCHOR, UNITS_PER_PIXEL,
};
use player::playback::Position;
use player::scroll::{ScrollState, MAX_TRAVEL, MAX_VELOCITY, WHEEL_GAIN};

fn with_tracks(count: usize) -> ScrollState {
    let mut s = ScrollState::new();
    s.set_track_count(count);
    s
}

#[test]
fn the_list_starts_at_rest_at_the_top() {
    let s = ScrollState::new();
    assert_eq!(s.offset(), 0);
    assert_eq!(s.velocity(), 0);
    assert_eq!(s.lower_bound(), 75_000);
    assert_eq!(s.lower_bound(), TOP_ANCHOR * UNITS_PER_PIXEL);
}

#[test]
fn one_notch_pushes_by_five_pixels_and_the_push_fades_by_a_tenth() {
    assert_eq!(WHEEL_GAIN, 5);
    let mut s = with_tracks(100);
    s.scroll(-1000);
    assert_eq!((s.offset(), s.velocity()), (-5_000, -4_500));
    s.scroll(0);
    assert_eq!((s.offset(), s.velocity()), (-9_500, -4_050));
    s.scroll(0);
    assert_eq!((s.offset(), s.velocity()), (-13_550, -3_645));
    s.scroll(0);
    assert_eq!((s.offset(), s.velocity()), (-17_195, -3_280));
    s.scroll(1000);
    assert_eq!((s.offset(), s.velocity()), (-15_475, 1_548));
}

#[test]
fn the_fading_push_rounds_towards_zero_and_dies_out() {
    let mut s = with_tracks(100);
    let mut seen = Vec::new();
    s.scroll(-1);
    for _ in 0..6 {
        seen.push(s.velocity());
        s.scroll(0);
    }
    assert_eq!(seen, vec![-4, -3, -2, -1, 0, 0]);
    let mut seen = Vec::new();
    s.scroll(1);
    for _ in 0..6 {
        seen.push(s.velocity());
        s.scroll(0);
    }
    assert_eq!(seen, vec![4, 3, 2, 1, 0, 0]);
    s.scroll(-3000);
    for _ in 0..200 {
        s.scroll(0);
    }
    assert_eq!(s.velocity(), 0);
}

#[test]
fn the_list_cannot_be_pulled_below_its_resting_place() {
    let mut s = with_tracks(100);
    s.scroll(1000);
    assert_eq!((s.offset(), s.velocity()), (0, 4_500));
    s.scroll(i32::MAX);
    assert_eq!(s.offset(), 0);
}

#[test]
fn the_list_cannot_be_scrolled_past_its_lower_bound() {
    let mut s = with_tracks(100);
    assert_eq!(s.lower_bound(), 2_557_000);
    s.scroll(i32::MIN);
    assert_eq!(s.offset(), -2_557_000);
    s.scroll(0);
    assert_eq!(s.offset(), -2_557_000);
}

#[test]
fn the_lower_bound_follows_the_length_of_the_list() {
    assert_eq!(with_tracks(0).lower_bound(), 75_000);
    assert_eq!(with_tracks(1).lower_bound(), -413_000);
    assert_eq!(with_tracks(14).lower_bound(), -23_000);
    assert_eq!(with_tracks(15).lower_bound(), 7_000);
    assert_eq!(with_tracks(100).lower_bound(), 2_557_000);
    assert_eq!(with_tracks(MAX_TRACKS).lower_bound(), 2_147_483_227_000);
}

#[test]
fn setting_the_length_leaves_offset_and_push_alone() {
    let mut s = with_tracks(100);
    s.scroll(-2000);
    let (offset, velocity) = (s.offset(), s.velocity());
    s.set_track_count(40);
    assert_eq!((s.offset(), s.velocity()), (offset, velocity));
    assert_eq!(s.lower_bound(), 757_000);
}

#[test]
fn a_list_that_fits_in_the_viewport_is_held_at_its_negative_bound() {
    let mut s = with_tracks(1);
    s.scroll(0);
    assert_eq!(s.offset(), 413_000);
    s.scroll(-5000);
    assert_eq!(s.offset(), 413_000);
    s.scroll(5000);
    assert_eq!(s.offset(), 413_000);
}

#[test]
fn the_offset_stays_in_range_whatever_the_wheel_does() {
    for count in vec![0usize, 15, 16, 40, 1000, MAX_TRACKS] {
        let mut s = with_tracks(count);
        assert!(s.lower_bound() >= 0);
        let mut seed: u64 = 0x2545_f491_4f6c_dd1d ^ (count as u64);
        for step in 0..5000 {
            seed = seed.wrapping_mul(6364136223846793005).wrapping_add(1442695040888963407);
            let wheel = match step % 7 {
                0 => i32::MAX,
                1 => i32::MIN,
                2 => 0,
                _ => (seed >> 33) as i32,
            };
            s.scroll(wheel);
            assert!(-s.lower_bound() <= s.offset() && s.offset() <= 0);
            assert!(-MAX_VELOCITY <= s.velocity() && s.velocity() <= MAX_VELOCITY);
            assert!(s.offset().abs() <= MAX_TRAVEL);
        }
    }
}

#[test]
fn the_push_approaches_its_bound_and_never_passes_it() {
    let mut s = with_tracks(100);
    for _ in 0..400 {
        s.scroll(i32::MIN);
        assert!(s.velocity() >= -MAX_VELOCITY);
    }
    assert_eq!(s.velocity(), -96_636_764_151);
    let mut s = with_tracks(100);
    for _ in 0..400 {
        s.scroll(i32::MAX);
        assert!(s.velocity() <= MAX_VELOCITY);
    }
    assert_eq!(s.velocity(), 96_636_764_106);
}

#[test]
fn rows_are_thirty_pixels_apart() {
    assert_eq!((ROW_INSET, ROW_PITCH), (6, 30));
    assert_eq!(row_y(0), 6);
    assert_eq!(row_y(1), 36);
    assert_eq!(row_y(10), 306);
    assert_eq!(row_y(99), 2_976);
    assert_eq!(row_y(MAX_TRACKS - 1), 2_147_483_646);
}

#[test]
fn at_rest_the_first_fifteen_rows_are_in_view() {
    for i in 0..15 {
        assert!(is_row_visible(i, 0));
    }
    for i in 15..40 {
        assert!(!is_row_visible(i, 0));
    }
}

#[test]
fn the_edges_of_the_viewport_are_not_in_view() {
    assert!(is_row_visible(0, -50_999));
    assert!(!is_row_visible(0, -51_000));
    assert!(!is_row_visible(0, -51_001));
    assert!(!is_row_visible(15, -6_000));
    assert!(is_row_visible(15, -6_001));
    assert!(is_row_visible(0, 443_999));
    assert!(!is_row_visible(0, 444_000));
    assert!(!is_row_visible(0, i64::MAX));
    assert!(!is_row_visible(MAX_TRACKS - 1, i64::MIN));
}

#[test]
fn scrolling_brings_later_rows_into_view() {
    let mut s = with_tracks(100);
    s.scroll(i32::MIN);
    assert!(!is_row_visible(0, s.offset()));
    assert!(!is_row_visible(83, s.offset()));
    assert!(is_row_visible(84, s.offset()));
    assert!(is_row_visible(99, s.offset()));
}

#[test]
fn the_progress_bar_fills_in_proportion() {
    assert_eq!(PROGRESS_WIDTH, 396);
    assert_eq!(progress_fill_width(Position { elapsed: 0, length: 60_000 }), 0);
    assert_eq!(progress_fill_width(Position { elapsed: 30_000, length: 60_000 }), 198);
    assert_eq!(progress_fill_width(Position { elapsed: 60_000, length: 60_000 }), 396);
    assert_eq!(progress_fill_width(Position { elapsed: 1, length: 3 }), 132);
    assert_eq!(progress_fill_width(Position { elapsed: 2, length: 3 }), 264);
    assert_eq!(progress_fill_width(Position { elapsed: 59_999, length: 60_000 }), 395);
    assert_eq!(progress_fill_width(Position { elapsed: 90_000, length: 60_000 }), 594);
}

#[test]
fn the_progress_bar_of_a_track_without_length() {
    assert_eq!(progress_fill_width(Position { elapsed: 0, length: 0 }), 0);
    assert_eq!(progress_fill_width(Position { elapsed: 1, length: 0 }), i32::MAX);
    assert_eq!(progress_fill_width(Position { elapsed: u64::MAX, length: 1 }), i32::MAX);
    assert_eq!(progress_fill_width(Position { elapsed: u64::MAX, length: u64::MAX }), 396);
}
