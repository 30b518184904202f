use vstd::prelude::*;

verus! {

/// Half of `n`, rounded toward zero, as Rust's integer division does.
pub open spec fn half_toward_zero(n: int) -> int {
    if n >= 0 {
        n / 2
    } else {
        -((-n) / 2)
    }
}

/// An axis-aligned rectangle given by its two corners, both inclusive.
#[derive(PartialEq, Eq, Structural, Copy, Clone, Debug)]
pub struct MapRect {
    pub x1: i32,
    pub y1: i32,
    pub x2: i32,
    pub y2: i32,
}

impl MapRect {
    /// Whether the two rectangles overlap or touch, bounds inclusive.
    pub open spec fn overlaps(self, other: MapRect) -> bool {
        self.x1 <= other.x2 && self.x2 >= other.x1 && self.y1 <= other.y2 && self.y2 >= other.y1
    }

    /// The tile a rectangle calls its centre: the midpoint shifted by one on
    /// each axis, towards the interior of the room it stands for.
    pub open spec fn center_of(self) -> (int, int) {
        (
            half_toward_zero(self.x1 + self.x2) + 1,
            half_toward_zero(self.y1 + self.y2) + 1,
        )
    }

    /// The rectangle at `(x, y)` that is `w` wide and `h` high.
    pub fn new(x: i32, y: i32, w: i32, h: i32) -> (r: MapRect)
        requires
            i32::MIN <= x + w <= i32::MAX,
            i32::MIN <= y + h <= i32::MAX,
        ensures
            r.x1 == x,
            r.y1 == y,
            r.x2 == x + w,
            r.y2 == y + h,
    {
        MapRect { x1: x, y1: y, x2: x + w, y2: y + h }
    }

    /// Returns true if this rectangle overlaps `other`.
    pub fn intersect(&self, other: &MapRect) -> (r: bool)
        ensures
            r == self.overlaps(*other),
    {
        self.x1 <= other.x2 && self.x2 >= other.x1 && self.y1 <= other.y2 && self.y2 >= other.y1
    }

    /// Returns the centre of this rectangle.
    pub fn center(&self) -> (r: (i32, i32))
        requires
            self.x1 + self.x2 < 2 * i32::MAX,
            self.y1 + self.y2 < 2 * i32::MAX,
        ensures
            r.0 == self.center_of().0,
            r.1 == self.center_of().1,
    {
        let sx: i64 = self.x1 as i64 + self.x2 as i64;
        let sy: i64 = self.y1 as i64 + self.y2 as i64;
        ((sx / 2 + 1) as i32, (sy / 2 + 1) as i32)
    }
}

/// The centre of a rectangle that spans more than one tile on each axis,
/// at non-negative coordinates, lies within it.
pub proof fn lemma_center_within(r: MapRect)
    requires
        0 <= r.x1 < r.x2,
        0 <= r.y1 < r.y2,
    ensures
        r.x1 <= r.center_of().0 <= r.x2,
        r.y1 <= r.center_of().1 <= r.y2,
{
}

/// The centre of `MapRect::new(x, y, w, h)` is
/// `((x * 2 + w) / 2 + 1, (y * 2 + h) / 2 + 1)`, division toward zero.
pub proof fn lemma_center_of_new(x: i32, y: i32, w: i32, h: i32, r: MapRect)
    requires
        r.x1 == x,
        r.y1 == y,
        r.x2 == x + w,
        r.y2 == y + h,
    ensures
        r.center_of() == (half_toward_zero(x * 2 + w) + 1, half_toward_zero(y * 2 + h) + 1),
{
    assert(r.x1 + r.x2 == x * 2 + w);
    assert(r.y1 + r.y2 == y * 2 + h);
}

} // verus!
