//! The scrolling of the track list.
//!
//! The wheel pushes the list, the push fades by a tenth each frame, and the
//! list never leaves the range that its length allows. Lengths are whole
//! thousandths of a pixel, so that the fading push can be followed in
//! integers; the wheel's movement is given in thousandths of a notch.

use crate::layout::{row_top, row_y, MAX_TRACKS, TOP_ANCHOR, UNITS_PER_PIXEL};
use vstd::prelude::*;

verus! {

/// How many pixels per frame one notch of the wheel adds to the push.
pub const WHEEL_GAIN: i64 = 5;

/// The distance, in pixels, from the top of the last row to the camera's
/// origin when the list is scrolled to its end.
pub const END_MARGIN: i64 = 494;

/// A bound on the push, in either direction, that no sequence of wheel
/// movements can pass: nine times the greatest push of a single frame.
pub const MAX_VELOCITY: i64 = 96_636_764_160;

/// A bound on the distance, in either direction, that the list can be
/// scrolled by.
pub const MAX_TRAVEL: i64 = 2_147_483_647_000;

/// The scroll position of the track list.
#[derive(Clone, Copy, Debug, PartialEq, Eq)]
pub struct ScrollState {
    offset: i64,
    velocity: i64,
    lower_bound: i64,
}

/// The mathematical content of a `ScrollState`.
pub struct ScrollView {
    /// Where the list stands, measured from its resting place at the top
    /// anchor: zero at rest, negative when scrolled down the list.
    pub offset: int,
    /// The push that the wheel has built up, per frame.
    pub velocity: int,
    /// How far down the list may be scrolled.
    pub lower_bound: int,
}

/// A push after one frame of fading: nine tenths of it, rounded towards zero.
pub open spec fn decayed(velocity: int) -> int {
    if velocity >= 0 {
        velocity * 9 / 10
    } else {
        -((-velocity) * 9 / 10)
    }
}

/// An offset brought back into the range of the list: first down to the top
/// anchor, then up to the lower bound. Where the bound is negative the second
/// step wins.
pub open spec fn clamped(offset: int, lower_bound: int) -> int {
    vstd::math::max(vstd::math::min(offset, 0), -lower_bound)
}

/// How far down a list of `track_count` rows may be scrolled.
///
/// It is the distance that brings the last row to the end margin; an empty
/// list may be scrolled by the height of the top anchor. For a list that fits
/// in the viewport the bound is negative.
pub open spec fn lower_bound_for(track_count: int) -> int {
    if track_count == 0 {
        TOP_ANCHOR * UNITS_PER_PIXEL
    } else {
        (row_top(track_count - 1) - END_MARGIN + TOP_ANCHOR) * UNITS_PER_PIXEL
    }
}

impl ScrollView {
    /// The state at startup: at rest at the top, with the bound of an empty list.
    pub open spec fn initial() -> ScrollView {
        ScrollView { offset: 0, velocity: 0, lower_bound: lower_bound_for(0) }
    }

    /// The offset lies between the lower bound and the top anchor.
    pub open spec fn in_range(self) -> bool {
        -self.lower_bound <= self.offset <= 0
    }

    /// The state after one frame in which the wheel moved by `wheel`.
    pub open spec fn scrolled(self, wheel: int) -> ScrollView {
        let pushed = self.velocity + wheel * WHEEL_GAIN;
        ScrollView {
            offset: clamped(self.offset + pushed, self.lower_bound),
            velocity: decayed(pushed),
            lower_bound: self.lower_bound,
        }
    }

    /// The state after each of the wheel movements in `wheels` has been
    /// applied in turn, one per frame.
    pub open spec fn scrolled_through(self, wheels: Seq<int>) -> ScrollView
        decreases wheels.len(),
    {
        if wheels.len() == 0 {
            self
        } else {
            self.scrolled_through(wheels.drop_last()).scrolled(wheels.last())
        }
    }

    /// This state with the lower bound of a list of `track_count` rows.
    pub open spec fn with_track_count(self, track_count: int) -> ScrollView {
        ScrollView { lower_bound: lower_bound_for(track_count), ..self }
    }
}

impl View for ScrollState {
    type V = ScrollView;

    closed spec fn view(&self) -> ScrollView {
        ScrollView {
            offset: self.offset as int,
            velocity: self.velocity as int,
            lower_bound: self.lower_bound as int,
        }
    }
}

impl ScrollState {
    #[verifier::type_invariant]
    spec fn fits(self) -> bool {
        &&& -MAX_VELOCITY <= self.velocity <= MAX_VELOCITY
        &&& -MAX_TRAVEL <= self.offset <= MAX_TRAVEL
        &&& -MAX_TRAVEL <= self.lower_bound <= MAX_TRAVEL
    }

    /// Creates the state at startup.
    pub fn new() -> (s: ScrollState)
        ensures
            s@ == ScrollView::initial(),
    {
        ScrollState { offset: 0, velocity: 0, lower_bound: TOP_ANCHOR * UNITS_PER_PIXEL }
    }

    /// Where the list stands, measured from its resting place.
    pub fn offset(&self) -> (r: i64)
        ensures
            r == self@.offset,
            -MAX_TRAVEL <= r <= MAX_TRAVEL,
    {
        proof {
            use_type_invariant(self);
        }
        self.offset
    }

    /// The push that the wheel has built up.
    pub fn velocity(&self) -> (r: i64)
        ensures
            r == self@.velocity,
            -MAX_VELOCITY <= r <= MAX_VELOCITY,
    {
        proof {
            use_type_invariant(self);
        }
        self.velocity
    }

    /// How far down the list may be scrolled.
    pub fn lower_bound(&self) -> (r: i64)
        ensures
            r == self@.lower_bound,
    {
        self.lower_bound
    }

    /// Advances the scroll by one frame in which the wheel moved by `wheel`.
    ///
    /// Afterwards the offset is at or above the lower bound, and, where the
    /// bound is not negative, at or below the top anchor.
    pub fn scroll(&mut self, wheel: i32)
        ensures
            final(self)@ == old(self)@.scrolled(wheel as int),
            final(self)@.offset >= -final(self)@.lower_bound,
            final(self)@.lower_bound >= 0 ==> final(self)@.in_range(),
    {
        proof {
            use_type_invariant(&*self);
        }
        let pushed: i64 = self.velocity + (wheel as i64) * WHEEL_GAIN;
        let mut offset: i64 = self.offset + pushed;
        if offset > 0 {
            offset = 0;
        }
        if offset < -self.lower_bound {
            offset = -self.lower_bound;
        }
        let velocity = decay(pushed);
        *self = ScrollState { offset, velocity, lower_bound: self.lower_bound };
    }

    /// Sets the lower bound to that of a list of `track_count` rows.
    pub fn set_track_count(&mut self, track_count: usize)
        requires
            track_count <= MAX_TRACKS,
        ensures
            final(self)@ == old(self)@.with_track_count(track_count as int),
    {
        proof {
            use_type_invariant(&*self);
        }
        let lower_bound: i64 = if track_count == 0 {
            TOP_ANCHOR * UNITS_PER_PIXEL
        } else {
            (row_y(track_count - 1) as i64 - END_MARGIN + TOP_ANCHOR) * UNITS_PER_PIXEL
        };
        *self = ScrollState { offset: self.offset, velocity: self.velocity, lower_bound };
    }
}

/// One frame leaves the bound as it was and the offset at or above the lower
/// bound. Where the bound is not negative the offset is in range; where it is
/// negative the offset is held at the bound, above the top anchor.
pub proof fn lemma_scrolled_in_range(s: ScrollView, wheel: int)
    ensures
        s.scrolled(wheel).lower_bound == s.lower_bound,
        s.scrolled(wheel).offset >= -s.lower_bound,
        s.lower_bound >= 0 ==> s.scrolled(wheel).in_range(),
        s.lower_bound < 0 ==> s.scrolled(wheel).offset == -s.lower_bound,
{
}

/// However the wheel moves, and for however many frames, the bound stays as
/// it was.
pub proof fn lemma_scroll_keeps_bound(s: ScrollView, wheels: Seq<int>)
    ensures
        s.scrolled_through(wheels).lower_bound == s.lower_bound,
    decreases wheels.len(),
{
    if wheels.len() > 0 {
        lemma_scroll_keeps_bound(s, wheels.drop_last());
    }
}

/// However the wheel moves, and for however many frames, the offset ends
/// between the lower bound and the top anchor, provided that the bound is not
/// negative. Before the first frame this holds only if the state starts so.
pub proof fn lemma_scroll_stays_in_range(s: ScrollView, wheels: Seq<int>)
    requires
        s.lower_bound >= 0,
        wheels.len() == 0 ==> s.in_range(),
    ensures
        s.scrolled_through(wheels).in_range(),
{
    if wheels.len() > 0 {
        lemma_scroll_keeps_bound(s, wheels.drop_last());
        lemma_scrolled_in_range(s.scrolled_through(wheels.drop_last()), wheels.last());
    }
}

/// A push fades towards zero and never changes direction.
pub proof fn lemma_decay_shrinks(velocity: int)
    ensures
        velocity >= 0 ==> 0 <= decayed(velocity) <= velocity,
        velocity <= 0 ==> velocity <= decayed(velocity) <= 0,
        velocity != 0 ==> decayed(velocity) != velocity,
{
}

/// Fades a push by one frame.
fn decay(velocity: i64) -> (r: i64)
    requires
        -(MAX_VELOCITY + 10_737_418_240) <= velocity <= MAX_VELOCITY + 10_737_418_240,
    ensures
        r == decayed(velocity as int),
        -MAX_VELOCITY <= r <= MAX_VELOCITY,
{
    if velocity >= 0 {
        velocity * 9 / 10
    } else {
        -((-velocity) * 9 / 10)
    }
}

} // verus!
