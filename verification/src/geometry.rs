//! Points and rectangles on the integer grid of length units.

use vstd::prelude::*;
use crate::range::{lemma_map_endpoints, lemma_map_monotonic, map_spec};

verus! {

/// Length units in one logical point of the host's screen space.
pub const UNITS_PER_POINT: i32 = 64;

/// A place on the grid of length units; `y` grows downward.
#[derive(Clone, Copy, Debug, PartialEq, Eq)]
pub struct Point {
    pub x: i32,
    pub y: i32,
}

/// An axis-aligned rectangle that holds its `min` edges and not its `max`
/// edges, so that rectangles side by side share no point.
#[derive(Clone, Copy, Debug, PartialEq, Eq)]
pub struct Rect {
    pub min: Point,
    pub max: Point,
}

/// The place a fraction `num / den` of the way from `lo` to `hi`, rounded
/// down.
pub open spec fn lerp_spec(lo: int, hi: int, num: int, den: int) -> int {
    map_spec(num, 0, den, lo, hi)
}

/// A place a proper fraction of the way from `lo` to `hi` lies between them.
pub proof fn lemma_lerp_between(lo: int, hi: int, num: int, den: int)
    requires
        0 < den,
        0 <= num <= den,
    ensures
        lo <= hi ==> lo <= lerp_spec(lo, hi, num, den) <= hi,
        hi <= lo ==> hi <= lerp_spec(lo, hi, num, den) <= lo,
{
    lemma_map_endpoints(0, den, lo, hi);
    lemma_map_monotonic(0, num, 0, den, lo, hi);
    lemma_map_monotonic(num, den, 0, den, lo, hi);
}

/// The place a fraction `num / den` of the way from `lo` to `hi`.
pub fn lerp(lo: i32, hi: i32, num: u32, den: u32) -> (at: i32)
    requires
        0 < den,
        num <= den,
    ensures
        at == lerp_spec(lo as int, hi as int, num as int, den as int),
{
    proof {
        lemma_lerp_between(lo as int, hi as int, num as int, den as int);
    }
    crate::range::map(num as i64, 0, den as i64, lo, hi) as i32
}

impl Rect {
    /// Whether `p` lies in the rectangle: at or after `min`, and before `max`.
    pub open spec fn contains_spec(self, p: Point) -> bool {
        self.min.x <= p.x < self.max.x && self.min.y <= p.y < self.max.y
    }

    /// The part of the rectangle before `x`.
    pub open spec fn left_of(self, x: int) -> Rect {
        Rect { min: self.min, max: Point { x: x as i32, y: self.max.y } }
    }

    /// The part of the rectangle from `x` on.
    pub open spec fn right_of(self, x: int) -> Rect {
        Rect { min: Point { x: x as i32, y: self.min.y }, max: self.max }
    }

    /// The part of the rectangle before `y`.
    pub open spec fn above(self, y: int) -> Rect {
        Rect { min: self.min, max: Point { x: self.max.x, y: y as i32 } }
    }

    /// The part of the rectangle from `y` on.
    pub open spec fn below(self, y: int) -> Rect {
        Rect { min: Point { x: self.min.x, y: y as i32 }, max: self.max }
    }

    pub fn from_min_max(min: Point, max: Point) -> (rect: Rect)
        ensures
            rect == (Rect { min, max }),
    {
        Rect { min, max }
    }

    /// Whether `p` lies in the rectangle.
    pub fn contains(&self, p: Point) -> (inside: bool)
        ensures
            inside == self.contains_spec(p),
    {
        self.min.x <= p.x && p.x < self.max.x && self.min.y <= p.y && p.y < self.max.y
    }

    /// The part left of `split_x` and the part from `split_x` on.
    pub fn split_left_right_at_x(&self, split_x: i32) -> (halves: (Rect, Rect))
        ensures
            halves.0 == self.left_of(split_x as int),
            halves.1 == self.right_of(split_x as int),
    {
        let left = Rect::from_min_max(self.min, Point { x: split_x, y: self.max.y });
        let right = Rect::from_min_max(Point { x: split_x, y: self.min.y }, self.max);
        (left, right)
    }

    /// The part above `split_y` and the part from `split_y` on.
    pub fn split_top_bottom_at_y(&self, split_y: i32) -> (halves: (Rect, Rect))
        ensures
            halves.0 == self.above(split_y as int),
            halves.1 == self.below(split_y as int),
    {
        let top = Rect::from_min_max(self.min, Point { x: self.max.x, y: split_y });
        let bottom = Rect::from_min_max(Point { x: self.min.x, y: split_y }, self.max);
        (top, bottom)
    }

    /// Cuts the rectangle into a left and a right part, the left one taking
    /// the fraction `num / den` of the width.
    pub fn split_left_right_at_fraction(&self, num: u32, den: u32) -> (halves: (Rect, Rect))
        requires
            0 < den,
            num <= den,
        ensures
            halves.0 == self.left_of(
                lerp_spec(self.min.x as int, self.max.x as int, num as int, den as int),
            ),
            halves.1 == self.right_of(
                lerp_spec(self.min.x as int, self.max.x as int, num as int, den as int),
            ),
    {
        self.split_left_right_at_x(lerp(self.min.x, self.max.x, num, den))
    }

    /// Cuts the rectangle into a top and a bottom part, the top one taking
    /// the fraction `num / den` of the height.
    pub fn split_top_bottom_at_fraction(&self, num: u32, den: u32) -> (halves: (Rect, Rect))
        requires
            0 < den,
            num <= den,
        ensures
            halves.0 == self.above(
                lerp_spec(self.min.y as int, self.max.y as int, num as int, den as int),
            ),
            halves.1 == self.below(
                lerp_spec(self.min.y as int, self.max.y as int, num as int, den as int),
            ),
    {
        self.split_top_bottom_at_y(lerp(self.min.y, self.max.y, num, den))
    }
}

/// The two parts of a rectangle cut at a proper fraction share no point and
/// leave none out.
pub proof fn lemma_split_left_right_partitions(rect: Rect, num: int, den: int, p: Point)
    requires
        0 < den,
        0 <= num <= den,
    ensures
        rect.contains_spec(p) <==> rect.left_of(
            lerp_spec(rect.min.x as int, rect.max.x as int, num, den),
        ).contains_spec(p) || rect.right_of(
            lerp_spec(rect.min.x as int, rect.max.x as int, num, den),
        ).contains_spec(p),
        !(rect.left_of(lerp_spec(rect.min.x as int, rect.max.x as int, num, den)).contains_spec(p)
            && rect.right_of(
            lerp_spec(rect.min.x as int, rect.max.x as int, num, den),
        ).contains_spec(p)),
{
    lemma_lerp_between(rect.min.x as int, rect.max.x as int, num, den);
}

/// The same, for a cut into a top and a bottom part.
pub proof fn lemma_split_top_bottom_partitions(rect: Rect, num: int, den: int, p: Point)
    requires
        0 < den,
        0 <= num <= den,
    ensures
        rect.contains_spec(p) <==> rect.above(
            lerp_spec(rect.min.y as int, rect.max.y as int, num, den),
        ).contains_spec(p) || rect.below(
            lerp_spec(rect.min.y as int, rect.max.y as int, num, den),
        ).contains_spec(p),
        !(rect.above(lerp_spec(rect.min.y as int, rect.max.y as int, num, den)).contains_spec(p)
            && rect.below(
            lerp_spec(rect.min.y as int, rect.max.y as int, num, den),
        ).contains_spec(p)),
{
    lemma_lerp_between(rect.min.y as int, rect.max.y as int, num, den);
}

} // verus!
