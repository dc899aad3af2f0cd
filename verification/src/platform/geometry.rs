//! Rectangles on the screens: whether a saved window is still on one, and where a popup goes.
use vstd::prelude::*;

verus! {

/// A rectangle in pixels.
#[derive(Clone, Copy, Debug, PartialEq, Eq, Structural)]
pub struct Rect {
    pub x: i32,
    pub y: i32,
    pub width: u32,
    pub height: u32,
}

impl Rect {
    /// The pixel at `(px, py)` is in the rectangle.
    pub open spec fn holds(self, px: int, py: int) -> bool {
        self.x <= px < self.x + self.width && self.y <= py < self.y + self.height
    }

    /// The rectangles lie over each other: neither is beside, above or below the other.
    pub open spec fn overlaps(self, other: Rect) -> bool {
        &&& self.x < other.x + other.width
        &&& other.x < self.x + self.width
        &&& self.y < other.y + other.height
        &&& other.y < self.y + self.height
    }

    /// The first column right of the rectangle.
    pub fn right(self) -> (r: i64)
        ensures
            r == self.x + self.width,
    {
        self.x as i64 + self.width as i64
    }

    /// The first row below the rectangle.
    pub fn bottom(self) -> (r: i64)
        ensures
            r == self.y + self.height,
    {
        self.y as i64 + self.height as i64
    }

    /// Whether the rectangles lie over each other.
    pub fn intersects(self, other: Rect) -> (r: bool)
        ensures
            r == self.overlaps(other),
    {
        (self.x as i64) < other.right() && self.right() > other.x as i64 && (self.y as i64)
            < other.bottom() && self.bottom() > other.y as i64
    }
}

/// Two rectangles that are not empty lie over each other exactly where they share a pixel.
pub proof fn law_overlapping_is_sharing_a_pixel(a: Rect, b: Rect)
    requires
        a.width > 0,
        a.height > 0,
        b.width > 0,
        b.height > 0,
    ensures
        a.overlaps(b) <==> exists|px: int, py: int| #[trigger] a.holds(px, py) && b.holds(px, py),
{
    if a.overlaps(b) {
        let px = if a.x < b.x {
            b.x as int
        } else {
            a.x as int
        };
        let py = if a.y < b.y {
            b.y as int
        } else {
            a.y as int
        };
        assert(a.holds(px, py) && b.holds(px, py));
    }
}

/// It does not matter which of two rectangles is asked.
pub proof fn law_overlapping_is_mutual(a: Rect, b: Rect)
    ensures
        a.overlaps(b) == b.overlaps(a),
{
}

/// Whether a saved window position is kept: it lies on a screen that is there now, or nothing is
/// known of the screens.
pub fn geometry_fits_a_monitor(saved: Rect, monitors: &[Rect]) -> (r: bool)
    ensures
        r == (monitors@.len() == 0 || exists|i: int|
            0 <= i < monitors@.len() && saved.overlaps(#[trigger] monitors@[i])),
{
    if monitors.len() == 0 {
        return true;
    }
    for i in 0..monitors.len()
        invariant
            forall|k: int| 0 <= k < i ==> !saved.overlaps(#[trigger] monitors@[k]),
    {
        if saved.intersects(monitors[i]) {
            assert(saved.overlaps(monitors@[i as int]));
            return true;
        }
    }
    false
}

/// The part of a screen that no taskbar covers.
#[derive(Clone, Copy, Debug, PartialEq, Eq, Structural)]
pub struct WorkArea {
    pub left: i32,
    pub top: i32,
    pub right: i32,
    pub bottom: i32,
}

/// Half of a number, rounded towards zero.
pub open spec fn half(n: int) -> int {
    if n >= 0 {
        n / 2
    } else {
        -((-n) / 2)
    }
}

/// The number can be held.
pub open spec fn held(n: int) -> bool {
    i32::MIN <= n <= i32::MAX
}

/// Where a length starts when it is centred between two bounds.
pub open spec fn centre_start(low: int, high: int, length: int) -> int {
    low + half(high - low - length)
}

/// The centring can be reckoned.
pub open spec fn centre_fits(low: int, high: int, length: int) -> bool {
    held(high - low) && held(length) && held(high - low - length) && held(
        centre_start(low, high, length),
    )
}

fn centre(low: i32, high: i32, length: u32) -> (r: Option<i32>)
    ensures
        r is Some <==> centre_fits(low as int, high as int, length as int),
        r matches Some(n) ==> n == centre_start(low as int, high as int, length as int),
{
    if length > i32::MAX as u32 {
        return None;
    }
    let gap: i32 = match high.checked_sub(low) {
        Some(between) => match between.checked_sub(length as i32) {
            Some(gap) => gap,
            None => {
                return None;
            },
        },
        None => {
            return None;
        },
    };
    let start: i32 = if gap >= 0 {
        gap / 2
    } else {
        -(-(gap as i64) / 2) as i32
    };
    low.checked_add(start)
}

/// The position that centres a window on a work area, or `None` where it lies beyond every
/// coordinate.
pub fn centered(work: WorkArea, width: u32, height: u32) -> (r: Option<(i32, i32)>)
    ensures
        r is Some <==> centre_fits(work.left as int, work.right as int, width as int) && centre_fits(
            work.top as int,
            work.bottom as int,
            height as int,
        ),
        r matches Some(p) ==> p.0 == centre_start(work.left as int, work.right as int, width as int)
            && p.1 == centre_start(work.top as int, work.bottom as int, height as int),
{
    match (centre(work.left, work.right, width), centre(work.top, work.bottom, height)) {
        (Some(x), Some(y)) => Some((x, y)),
        _ => None,
    }
}

/// A window no larger than the work area is centred inside it, with as much room on either side
/// up to one pixel.
pub proof fn law_centred_inside(low: int, high: int, length: int)
    requires
        0 <= length <= high - low,
    ensures
        ({
            let start = centre_start(low, high, length);
            &&& low <= start
            &&& start + length <= high
            &&& 0 <= (high - (start + length)) - (start - low) <= 1
        }),
{
}

/// The style bits of a window that is to stay out of the task switcher: those of a tool window,
/// and none of an application window.
pub fn tool_window_style(style: isize, tool_bit: isize, app_bit: isize) -> (r: isize)
    ensures
        r == (style | tool_bit) & !app_bit,
{
    (style | tool_bit) & !app_bit
}

/// Half of a number is rounded towards zero, whichever side it lies on.
pub proof fn law_half_is_rounded_towards_zero(n: int)
    ensures
        half(2 * n) == n,
        n >= 0 ==> half(2 * n + 1) == n,
        n <= 0 ==> half(2 * n - 1) == n,
        half(-n) == -half(n),
{
}

/// A window larger than the work area sticks out by as much on either side, up to one pixel.
pub proof fn law_large_window_sticks_out_evenly(low: int, high: int, length: int)
    requires
        length > high - low,
    ensures
        ({
            let start = centre_start(low, high, length);
            &&& start <= low
            &&& start + length >= high
            &&& 0 <= (start + length - high) - (low - start) <= 1
        }),
{
}

/// The centring is reckoned exactly where the room, what is left of it beside the window, and the
/// place all fit a coordinate.
pub proof fn law_centring_within_coordinates(low: i32, high: i32, length: int)
    requires
        low <= high,
        0 <= length <= high - low,
        high - low <= i32::MAX,
    ensures
        centre_fits(low as int, high as int, length),
{
}

/// What cannot be held on the way to the centre leaves the window uncentred.
pub proof fn law_centring_beyond_coordinates(low: int, high: int, length: int)
    ensures
        centre_fits(low, high, length) <==> (-2147483648 <= high - low <= 2147483647 && -2147483648
            <= length <= 2147483647 && -2147483648 <= high - low - length <= 2147483647
            && -2147483648 <= centre_start(low, high, length) <= 2147483647),
        held(low) <==> -2147483648 <= low <= 2147483647,
{
}

} // verus!
