//! Scroll-offset arithmetic for a scrollable list widget.
//!
//! A scrollable region keeps one offset per axis, in whole pixels. Each
//! mouse-wheel event carries a signed delta in line or pixel units; the
//! update normalizes the delta to pixels, accumulates it on the selected
//! axis, and clamps the result to the valid scroll range derived from the
//! content and viewport extents. The host UI layer reads events and extents
//! and writes the offset back into the widget's style; only the arithmetic
//! lives here.

use vstd::prelude::*;

verus! {

/// Pixels that one line unit of wheel delta stands for.
pub const PIXELS_PER_LINE: i64 = 20;

/// Unit of a mouse-wheel delta.
#[derive(Clone, Copy, Debug, PartialEq, Eq, Structural)]
pub enum ScrollUnit {
    Line,
    Pixel,
}

/// Scroll offsets of one scrollable region, in whole pixels.
///
/// The vertical offset lives in `[0, max_scroll]`, the horizontal one in
/// `[-max_scroll, 0]`, where `max_scroll` depends on the extents current
/// at each wheel event; `update` clamps the selected axis accordingly.
#[derive(Clone, Copy, Debug, PartialEq, Eq, Structural)]
pub struct ScrollState {
    pub offset_x: i64,
    pub offset_y: i64,
}

impl View for ScrollState {
    type V = (int, int);

    open spec fn view(&self) -> (int, int) {
        (self.offset_x as int, self.offset_y as int)
    }
}

/// Largest valid offset magnitude: `max(0, content_extent - viewport_extent)`.
pub open spec fn spec_max_scroll(content_extent: int, viewport_extent: int) -> int {
    if content_extent - viewport_extent > 0 {
        content_extent - viewport_extent
    } else {
        0
    }
}

/// A wheel delta in pixels: a line delta counts `PIXELS_PER_LINE` pixels.
pub open spec fn spec_normalize(delta: int, unit: ScrollUnit) -> int {
    match unit {
        ScrollUnit::Line => PIXELS_PER_LINE * delta,
        ScrollUnit::Pixel => delta,
    }
}

pub open spec fn spec_clamp(v: int, lo: int, hi: int) -> int
    recommends
        lo <= hi,
{
    if v < lo {
        lo
    } else if v > hi {
        hi
    } else {
        v
    }
}

/// The offset an axis holds after one wheel event: the normalized delta is
/// added, then the sum is clamped to `[-max_scroll, 0]` on the horizontal
/// axis and to `[0, max_scroll]` on the vertical one.
pub open spec fn spec_new_offset(
    offset: int,
    delta: int,
    unit: ScrollUnit,
    horizontal: bool,
    content_extent: int,
    viewport_extent: int,
) -> int {
    let m = spec_max_scroll(content_extent, viewport_extent);
    if horizontal {
        spec_clamp(offset + spec_normalize(delta, unit), -m, 0)
    } else {
        spec_clamp(offset + spec_normalize(delta, unit), 0, m)
    }
}

/// The whole state after one wheel event: the selected axis takes its new
/// offset, the other axis keeps its old one.
pub open spec fn spec_update(
    s: (int, int),
    delta: int,
    unit: ScrollUnit,
    horizontal: bool,
    content_extent: int,
    viewport_extent: int,
) -> (int, int) {
    if horizontal {
        (spec_new_offset(s.0, delta, unit, true, content_extent, viewport_extent), s.1)
    } else {
        (s.0, spec_new_offset(s.1, delta, unit, false, content_extent, viewport_extent))
    }
}

/// Whether an offset lies in the valid scroll range of its axis.
pub open spec fn offset_in_range(
    offset: int,
    horizontal: bool,
    content_extent: int,
    viewport_extent: int,
) -> bool {
    let m = spec_max_scroll(content_extent, viewport_extent);
    if horizontal {
        -m <= offset <= 0
    } else {
        0 <= offset <= m
    }
}

impl ScrollState {
    /// A freshly instantiated scrollable region: both offsets are zero.
    pub fn new() -> (s: Self)
        ensures
            s@ == (0int, 0int),
    {
        ScrollState { offset_x: 0, offset_y: 0 }
    }

    /// Applies one wheel event to this state and returns the new state.
    ///
    /// The delta is normalized to pixels, added to the offset of the
    /// selected axis (horizontal when a modifier key was held), and the sum
    /// is clamped to the axis's valid range; the other axis is untouched.
    pub fn update(
        self,
        wheel_delta: i64,
        unit: ScrollUnit,
        horizontal: bool,
        content_extent: i64,
        viewport_extent: i64,
    ) -> (new_state: Self)
        requires
            0 <= content_extent,
            0 <= viewport_extent,
        ensures
            new_state@ == spec_update(
                self@,
                wheel_delta as int,
                unit,
                horizontal,
                content_extent as int,
                viewport_extent as int,
            ),
    {
        let m: i64 = max_scroll(content_extent, viewport_extent);
        let delta_px: i128 = match unit {
            ScrollUnit::Line => {
                let wide: i128 = wheel_delta as i128;
                proof {
                    assert(20 * (i64::MIN as int) <= 20 * wide <= 20 * (i64::MAX as int))
                        by (nonlinear_arith)
                        requires
                            i64::MIN <= wide <= i64::MAX,
                    ;
                }
                PIXELS_PER_LINE as i128 * wide
            },
            ScrollUnit::Pixel => wheel_delta as i128,
        };
        if horizontal {
            let sum: i128 = self.offset_x as i128 + delta_px;
            ScrollState { offset_x: clamp_wide(sum, -m, 0), offset_y: self.offset_y }
        } else {
            let sum: i128 = self.offset_y as i128 + delta_px;
            ScrollState { offset_x: self.offset_x, offset_y: clamp_wide(sum, 0, m) }
        }
    }
}

impl ScrollState {
    /// The offset of the selected axis: the one a wheel event moves and the
    /// host writes into the widget's positional style.
    pub fn active_offset(&self, horizontal: bool) -> (off: i64)
        ensures
            off == if horizontal {
                self@.0
            } else {
                self@.1
            },
    {
        if horizontal {
            self.offset_x
        } else {
            self.offset_y
        }
    }
}

impl Default for ScrollState {
    fn default() -> (s: Self)
        ensures
            s@ == (0int, 0int),
    {
        ScrollState { offset_x: 0, offset_y: 0 }
    }
}

/// Largest valid offset magnitude for the given extents.
pub fn max_scroll(content_extent: i64, viewport_extent: i64) -> (m: i64)
    requires
        0 <= content_extent,
        0 <= viewport_extent,
    ensures
        m == spec_max_scroll(content_extent as int, viewport_extent as int),
{
    if content_extent > viewport_extent {
        content_extent - viewport_extent
    } else {
        0
    }
}

/// The offset an axis holds after a whole sequence of wheel events, each
/// a delta with its unit, applied in order.
pub open spec fn spec_apply_all(
    offset: int,
    events: Seq<(int, ScrollUnit)>,
    horizontal: bool,
    content_extent: int,
    viewport_extent: int,
) -> int
    decreases events.len(),
{
    if events.len() == 0 {
        offset
    } else {
        spec_new_offset(
            spec_apply_all(offset, events.drop_last(), horizontal, content_extent, viewport_extent),
            events.last().0,
            events.last().1,
            horizontal,
            content_extent,
            viewport_extent,
        )
    }
}

/// Content that fits in its viewport cannot be scrolled: when the content
/// extent is at most the viewport extent, the updated offset on the
/// selected axis is zero, whatever the old offset and the delta.
pub proof fn lemma_fitting_content_pins_offset(
    offset: int,
    delta: int,
    unit: ScrollUnit,
    horizontal: bool,
    content_extent: int,
    viewport_extent: int,
)
    requires
        content_extent <= viewport_extent,
    ensures
        spec_new_offset(offset, delta, unit, horizontal, content_extent, viewport_extent) == 0,
{
}

/// One wheel event always leaves the selected axis inside its valid range,
/// however far the accumulated sum overshot.
pub proof fn lemma_update_stays_in_range(
    offset: int,
    delta: int,
    unit: ScrollUnit,
    horizontal: bool,
    content_extent: int,
    viewport_extent: int,
)
    ensures
        offset_in_range(
            spec_new_offset(offset, delta, unit, horizontal, content_extent, viewport_extent),
            horizontal,
            content_extent,
            viewport_extent,
        ),
{
}

/// Whatever sequence of deltas arrives, the offset never leaves the valid
/// range of its axis: any non-empty sequence ends inside it, and an offset
/// already inside it stays there.
pub proof fn lemma_apply_all_stays_in_range(
    offset: int,
    events: Seq<(int, ScrollUnit)>,
    horizontal: bool,
    content_extent: int,
    viewport_extent: int,
)
    requires
        events.len() > 0 || offset_in_range(offset, horizontal, content_extent, viewport_extent),
    ensures
        offset_in_range(
            spec_apply_all(offset, events, horizontal, content_extent, viewport_extent),
            horizontal,
            content_extent,
            viewport_extent,
        ),
{
}

/// A line delta and its pixel equivalent scroll alike: a `Line` delta of
/// `d` yields the same state as a `Pixel` delta of `PIXELS_PER_LINE * d`.
pub proof fn lemma_line_equals_scaled_pixel(
    s: (int, int),
    delta: int,
    horizontal: bool,
    content_extent: int,
    viewport_extent: int,
)
    ensures
        spec_update(s, delta, ScrollUnit::Line, horizontal, content_extent, viewport_extent)
            == spec_update(
            s,
            PIXELS_PER_LINE * delta,
            ScrollUnit::Pixel,
            horizontal,
            content_extent,
            viewport_extent,
        ),
{
}

/// A zero delta changes nothing, provided the offset of the selected axis
/// already lies in its valid range (as it does in every state the update
/// itself produced).
pub proof fn lemma_zero_delta_is_identity(
    s: (int, int),
    unit: ScrollUnit,
    horizontal: bool,
    content_extent: int,
    viewport_extent: int,
)
    requires
        offset_in_range(
            if horizontal {
                s.0
            } else {
                s.1
            },
            horizontal,
            content_extent,
            viewport_extent,
        ),
    ensures
        spec_update(s, 0, unit, horizontal, content_extent, viewport_extent) == s,
{
}

/// Clamps an accumulated sum, carried widely enough that no overshoot is
/// lost, back into an `i64` range.
fn clamp_wide(v: i128, lo: i64, hi: i64) -> (r: i64)
    requires
        lo <= hi,
    ensures
        r == spec_clamp(v as int, lo as int, hi as int),
{
    if v < lo as i128 {
        lo
    } else if v > hi as i128 {
        hi
    } else {
        v as i64
    }
}

} // verus!
