//! Where the rows of the track list lie, and which of them are in view.
//!
//! Rows are laid out in whole pixels from the top of the list. The scroll
//! offset is given in thousandths of a pixel.

use crate::playback::Position;
use vstd::prelude::*;

verus! {

/// How many units of scroll offset make one pixel.
pub const UNITS_PER_PIXEL: i64 = 1000;

/// The distance from the top of one row to the top of the next, in pixels.
pub const ROW_PITCH: i32 = 30;

/// The distance from the top of the list to the top of its first row, in pixels.
pub const ROW_INSET: i32 = 6;

/// Where on the screen the top of the list lies when it is at rest, in pixels.
pub const TOP_ANCHOR: i64 = 75;

/// A row is in view if its top lies below this line of the screen, in pixels.
pub const VIEW_TOP: i64 = 30;

/// A row is in view if its top lies above this line of the screen, in pixels.
pub const VIEW_BOTTOM: i64 = 525;

/// The width of a full progress bar, in pixels.
pub const PROGRESS_WIDTH: i32 = 396;

/// The longest list whose rows can all be placed: the top of its last row is
/// the greatest that a pixel coordinate can hold.
pub const MAX_TRACKS: usize = 71_582_789;

/// The distance from the top of the list to the top of row `index`, in pixels.
pub open spec fn row_top(index: int) -> int {
    ROW_INSET + ROW_PITCH * index
}

/// Where on the screen the top of row `index` lies when the list is scrolled
/// by `offset`, in thousandths of a pixel.
pub open spec fn row_screen_top(index: int, offset: int) -> int {
    (row_top(index) + TOP_ANCHOR) * UNITS_PER_PIXEL + offset
}

/// Whether row `index` is drawn when the list is scrolled by `offset`: its top
/// lies strictly between the two lines of the viewport.
pub open spec fn row_in_view(index: int, offset: int) -> bool {
    VIEW_TOP * UNITS_PER_PIXEL < row_screen_top(index, offset) < VIEW_BOTTOM * UNITS_PER_PIXEL
}

/// How much of the progress bar is filled, in pixels.
///
/// It is the bar's width in the proportion of the time played to the track's
/// length, rounded down, and no more than a pixel count can hold. A track of
/// no length has an empty bar if nothing was played and a full count otherwise.
pub open spec fn progress_fill(pos: Position) -> int {
    if pos.length == 0 {
        if pos.elapsed == 0 {
            0
        } else {
            i32::MAX as int
        }
    } else {
        vstd::math::min(pos.elapsed * PROGRESS_WIDTH / (pos.length as int), i32::MAX as int)
    }
}

/// Computes the distance from the top of the list to the top of a row.
pub fn row_y(index: usize) -> (y: i32)
    requires
        index < MAX_TRACKS,
    ensures
        y == row_top(index as int),
{
    ROW_INSET + ROW_PITCH * (index as i32)
}

/// Decides whether a row is drawn.
pub fn is_row_visible(index: usize, offset: i64) -> (b: bool)
    requires
        index < MAX_TRACKS,
    ensures
        b == row_in_view(index as int, offset as int),
{
    let at_rest: i64 = (row_y(index) as i64 + TOP_ANCHOR) * UNITS_PER_PIXEL;
    let top: i128 = at_rest as i128 + offset as i128;
    ((VIEW_TOP * UNITS_PER_PIXEL) as i128) < top && top < ((VIEW_BOTTOM * UNITS_PER_PIXEL) as i128)
}

/// Computes how much of the progress bar is filled.
pub fn progress_fill_width(pos: Position) -> (w: i32)
    ensures
        w == progress_fill(pos),
        w >= 0,
{
    if pos.length == 0 {
        if pos.elapsed == 0 {
            0
        } else {
            i32::MAX
        }
    } else {
        assert(pos.elapsed * PROGRESS_WIDTH <= u64::MAX * 396) by (nonlinear_arith)
            requires
                pos.elapsed <= u64::MAX,
                PROGRESS_WIDTH == 396,
        ;
        let scaled: u128 = (pos.elapsed as u128) * (PROGRESS_WIDTH as u128) / (pos.length as u128);
        if scaled > i32::MAX as u128 {
            i32::MAX
        } else {
            scaled as i32
        }
    }
}

} // verus!
