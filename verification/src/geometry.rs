//! Integer screen geometry: the edges a sprite touches, and the box that holds every
//! monitor.

use vstd::prelude::*;

verus! {

/// Which edges of its allowed area a sprite's top-left corner has reached: `left`
/// when it is at (or before) the smallest x, `right` at (or past) the largest, and so
/// for `top` and `bottom`.
#[derive(PartialEq, Eq, Structural, Clone, Copy, Debug)]
pub struct Edges {
    pub left: bool,
    pub top: bool,
    pub right: bool,
    pub bottom: bool,
}

impl Edges {
    /// Whether any edge is reached.
    pub open spec fn any(self) -> bool {
        self.left || self.top || self.right || self.bottom
    }
}

/// A monitor's area in the compositor's global coordinates.
#[derive(PartialEq, Eq, Structural, Clone, Copy, Debug)]
pub struct Rect {
    pub x: i32,
    pub y: i32,
    pub width: i32,
    pub height: i32,
}

/// The size assumed when no monitor is reported.
pub const FALLBACK_WIDTH: i32 = 1920;

/// The size assumed when no monitor is reported.
pub const FALLBACK_HEIGHT: i32 = 1080;

/// The right and bottom sides of every monitor, and their spans from every left
/// and top side, are machine integers.
pub open spec fn union_fits(m: Seq<Rect>) -> bool {
    &&& forall|i: int| 0 <= i < m.len() ==> i32::MIN <= #[trigger] m[i].x + m[i].width <= i32::MAX
    &&& forall|i: int| 0 <= i < m.len() ==> i32::MIN <= #[trigger] m[i].y + m[i].height <= i32::MAX
    &&& forall|i: int, j: int| 0 <= i < m.len() && 0 <= j < m.len() ==> i32::MIN <= #[trigger] m[i].x + m[i].width - #[trigger] m[j].x <= i32::MAX
    &&& forall|i: int, j: int| 0 <= i < m.len() && 0 <= j < m.len() ==> i32::MIN <= #[trigger] m[i].y + m[i].height - #[trigger] m[j].y <= i32::MAX
}

/// The box that holds every monitor, as `(x, y, width, height)`: from the smallest
/// left and top sides to the largest right and bottom sides. Without any monitor, a
/// 1920x1080 area at the origin.
pub fn union_bounds(monitors: &Vec<Rect>) -> (b: (i32, i32, i32, i32))
    requires
        union_fits(monitors@),
    ensures
        monitors@.len() == 0 ==> b == (0i32, 0i32, FALLBACK_WIDTH, FALLBACK_HEIGHT),
        monitors@.len() > 0 ==> {
            &&& forall|i: int| 0 <= i < monitors@.len() ==> b.0 <= #[trigger] monitors@[i].x
            &&& exists|i: int| 0 <= i < monitors@.len() && b.0 == #[trigger] monitors@[i].x
            &&& forall|i: int| 0 <= i < monitors@.len() ==> b.1 <= #[trigger] monitors@[i].y
            &&& exists|i: int| 0 <= i < monitors@.len() && b.1 == #[trigger] monitors@[i].y
            &&& forall|i: int| 0 <= i < monitors@.len() ==> #[trigger] monitors@[i].x + monitors@[i].width <= b.0 + b.2
            &&& exists|i: int| 0 <= i < monitors@.len() && #[trigger] monitors@[i].x + monitors@[i].width == b.0 + b.2
            &&& forall|i: int| 0 <= i < monitors@.len() ==> #[trigger] monitors@[i].y + monitors@[i].height <= b.1 + b.3
            &&& exists|i: int| 0 <= i < monitors@.len() && #[trigger] monitors@[i].y + monitors@[i].height == b.1 + b.3
        },
{
    if monitors.len() == 0 {
        return (0, 0, FALLBACK_WIDTH, FALLBACK_HEIGHT);
    }
    let mut min_x: i32 = i32::MAX;
    let mut min_y: i32 = i32::MAX;
    let mut max_x: i32 = i32::MIN;
    let mut max_y: i32 = i32::MIN;
    let mut k: usize = 0;
    let ghost mut wx: int = 0;
    let ghost mut wy: int = 0;
    let ghost mut wr: int = 0;
    let ghost mut wb: int = 0;
    while k < monitors.len()
        invariant
            k <= monitors@.len(),
            union_fits(monitors@),
            forall|i: int| 0 <= i < k ==> min_x <= #[trigger] monitors@[i].x,
            forall|i: int| 0 <= i < k ==> min_y <= #[trigger] monitors@[i].y,
            forall|i: int| 0 <= i < k ==> #[trigger] monitors@[i].x + monitors@[i].width <= max_x,
            forall|i: int| 0 <= i < k ==> #[trigger] monitors@[i].y + monitors@[i].height <= max_y,
            k > 0 ==> 0 <= wx < k && min_x == monitors@[wx].x,
            k > 0 ==> 0 <= wy < k && min_y == monitors@[wy].y,
            k > 0 ==> 0 <= wr < k && monitors@[wr].x + monitors@[wr].width == max_x,
            k > 0 ==> 0 <= wb < k && monitors@[wb].y + monitors@[wb].height == max_y,
        decreases monitors@.len() - k,
    {
        let g = monitors[k];
        assert(monitors@[k as int] == g);
        if g.x < min_x || k == 0 {
            min_x = g.x;
            proof { wx = k as int; }
        }
        if g.y < min_y || k == 0 {
            min_y = g.y;
            proof { wy = k as int; }
        }
        if g.x + g.width > max_x || k == 0 {
            max_x = g.x + g.width;
            proof { wr = k as int; }
        }
        if g.y + g.height > max_y || k == 0 {
            max_y = g.y + g.height;
            proof { wb = k as int; }
        }
        assert(monitors@[k as int].x == g.x && monitors@[k as int].y == g.y);
        assert(monitors@[k as int].x + monitors@[k as int].width == g.x + g.width);
        assert(monitors@[k as int].y + monitors@[k as int].height == g.y + g.height);
        k = k + 1;
    }
    assert(i32::MIN <= monitors@[wr].x + monitors@[wr].width - monitors@[wx].x <= i32::MAX);
    assert(i32::MIN <= monitors@[wb].y + monitors@[wb].height - monitors@[wy].y <= i32::MAX);
    (min_x, min_y, max_x - min_x, max_y - min_y)
}

} // verus!
