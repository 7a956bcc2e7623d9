use vstd::prelude::*;

verus! {

/// A screen rectangle in virtual-screen coordinates; `right` and `bottom`
/// are exclusive, so a rectangle with `right <= left` or `bottom <= top`
/// covers no point.
#[derive(Clone, Copy, Debug, PartialEq, Eq, Structural)]
pub struct Rect {
    pub left: i32,
    pub top: i32,
    pub right: i32,
    pub bottom: i32,
}

pub open spec fn max_i(a: int, b: int) -> int {
    if a >= b { a } else { b }
}

pub open spec fn min_i(a: int, b: int) -> int {
    if a <= b { a } else { b }
}

impl Rect {
    /// The rectangle covers no point.
    pub open spec fn spec_is_empty(self) -> bool {
        self.right <= self.left || self.bottom <= self.top
    }

    /// A point lies in the rectangle.
    pub open spec fn contains_point(self, x: int, y: int) -> bool {
        self.left <= x < self.right && self.top <= y < self.bottom
    }

    /// The two rectangles share at least one point: their intersection,
    /// taken edge by edge, is not empty.
    pub open spec fn spec_intersects(self, other: Rect) -> bool {
        max_i(self.left as int, other.left as int) < min_i(self.right as int, other.right as int)
            && max_i(self.top as int, other.top as int) < min_i(
            self.bottom as int,
            other.bottom as int,
        )
    }

    pub fn is_empty(&self) -> (r: bool)
        ensures
            r == self.spec_is_empty(),
    {
        self.right <= self.left || self.bottom <= self.top
    }

    /// The overlap of two rectangles, or `None` where they share no point.
    pub fn intersection(&self, other: &Rect) -> (r: Option<Rect>)
        ensures
            r.is_some() == self.spec_intersects(*other),
            r matches Some(o) ==> !o.spec_is_empty() && forall|x: int, y: int|
                o.contains_point(x, y) <==> (self.contains_point(x, y) && other.contains_point(
                    x,
                    y,
                )),
    {
        let left = if self.left >= other.left { self.left } else { other.left };
        let top = if self.top >= other.top { self.top } else { other.top };
        let right = if self.right <= other.right { self.right } else { other.right };
        let bottom = if self.bottom <= other.bottom { self.bottom } else { other.bottom };
        if left < right && top < bottom {
            Some(Rect { left, top, right, bottom })
        } else {
            None
        }
    }

    /// Whether the two rectangles share at least one point.
    pub fn intersects(&self, other: &Rect) -> (r: bool)
        ensures
            r == self.spec_intersects(*other),
            r <==> exists|x: int, y: int|
                self.contains_point(x, y) && other.contains_point(x, y),
    {
        let r = self.intersection(other).is_some();
        if r {
            let x = if self.left >= other.left { self.left } else { other.left };
            let y = if self.top >= other.top { self.top } else { other.top };
            assert(self.contains_point(x as int, y as int) && other.contains_point(x as int, y as int));
        }
        r
    }
}

} // verus!
