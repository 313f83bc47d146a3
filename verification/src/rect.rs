//! Rectangles: of device pixels, and of user-space lengths.

use vstd::prelude::*;

verus! {

/// A rectangle of device pixels: the columns `x0 <= x < x1` of the rows
/// `y0 <= y < y1`. It marks the part of a surface that holds content.
#[derive(Clone, Copy, Debug, PartialEq, Eq, Structural)]
pub struct IRect {
    pub x0: i32,
    pub y0: i32,
    pub x1: i32,
    pub y1: i32,
}

pub open spec fn max_int(a: int, b: int) -> int {
    if a >= b {
        a
    } else {
        b
    }
}

pub open spec fn min_int(a: int, b: int) -> int {
    if a <= b {
        a
    } else {
        b
    }
}

impl IRect {
    /// The corners are in order.
    pub open spec fn wf(self) -> bool {
        self.x0 <= self.x1 && self.y0 <= self.y1
    }

    /// The pixel in column `x` of row `y` lies inside.
    pub open spec fn contains(self, x: int, y: int) -> bool {
        self.x0 <= x < self.x1 && self.y0 <= y < self.y1
    }

    /// No pixel lies inside.
    pub open spec fn spec_is_empty(&self) -> bool {
        self.x0 >= self.x1 || self.y0 >= self.y1
    }

    /// The largest rectangle inside both, on the corners of the two. Where
    /// they share no pixel it is an empty rectangle at the greater of the
    /// two upper left corners.
    pub open spec fn spec_intersection(self, other: IRect) -> IRect {
        let x0 = max_int(self.x0 as int, other.x0 as int);
        let y0 = max_int(self.y0 as int, other.y0 as int);
        IRect {
            x0: x0 as i32,
            y0: y0 as i32,
            x1: max_int(x0, min_int(self.x1 as int, other.x1 as int)) as i32,
            y1: max_int(y0, min_int(self.y1 as int, other.y1 as int)) as i32,
        }
    }

    /// The rectangle with the given corners, where they are in order.
    pub fn new(x0: i32, y0: i32, x1: i32, y1: i32) -> (r: Option<IRect>)
        ensures
            r.is_some() <==> (x0 <= x1 && y0 <= y1),
            r matches Some(rect) ==> rect == (IRect { x0, y0, x1, y1 }) && rect.wf(),
    {
        if x0 <= x1 && y0 <= y1 {
            Some(IRect { x0, y0, x1, y1 })
        } else {
            None
        }
    }

    /// The whole of a surface of `width` by `height` pixels.
    pub fn from_size(width: i32, height: i32) -> (r: IRect)
        requires
            width >= 0,
            height >= 0,
        ensures
            r == (IRect { x0: 0, y0: 0, x1: width, y1: height }),
            r.wf(),
    {
        IRect { x0: 0, y0: 0, x1: width, y1: height }
    }

    #[verifier::when_used_as_spec(spec_is_empty)]
    pub fn is_empty(&self) -> (r: bool)
        ensures
            r == self.spec_is_empty(),
    {
        self.x0 >= self.x1 || self.y0 >= self.y1
    }

    /// The part that lies in both rectangles.
    pub fn intersection(&self, other: &IRect) -> (r: IRect)
        ensures
            r == self.spec_intersection(*other),
            r.wf(),
            forall|x: int, y: int|
                r.contains(x, y) <==> self.contains(x, y) && other.contains(x, y),
    {
        let x0: i32 = if self.x0 >= other.x0 { self.x0 } else { other.x0 };
        let y0: i32 = if self.y0 >= other.y0 { self.y0 } else { other.y0 };
        let x1: i32 = if self.x1 <= other.x1 { self.x1 } else { other.x1 };
        let y1: i32 = if self.y1 <= other.y1 { self.y1 } else { other.y1 };
        IRect {
            x0,
            y0,
            x1: if x1 >= x0 { x1 } else { x0 },
            y1: if y1 >= y0 { y1 } else { y0 },
        }
    }
}

/// Intersecting keeps exactly the pixels that both rectangles hold. Of two
/// rectangles with their corners in order it gives the same in either
/// order, and such a rectangle meets itself in itself.
pub proof fn intersection_is_meet(a: IRect, b: IRect)
    ensures
        a.spec_intersection(b).wf(),
        forall|x: int, y: int|
            a.spec_intersection(b).contains(x, y) <==> a.contains(x, y) && b.contains(x, y),
        a.wf() && b.wf() ==> a.spec_intersection(b) == b.spec_intersection(a),
        a.wf() ==> a.spec_intersection(a) == a,
{
}

/// A rectangle in user space, by its origin and size. The four numbers
/// count steps of a length that the caller picks, small enough that a size
/// which comes to zero steps is one that draws nothing.
#[derive(Clone, Copy, Debug, PartialEq, Eq, Structural)]
pub struct Rectangle {
    pub x: i32,
    pub y: i32,
    pub width: i32,
    pub height: i32,
}

impl Rectangle {
    pub open spec fn spec_is_empty(&self) -> bool {
        self.width == 0 || self.height == 0
    }

    /// The width or the height is zero.
    #[verifier::when_used_as_spec(spec_is_empty)]
    pub fn is_empty(&self) -> (r: bool)
        ensures
            r == self.spec_is_empty(),
    {
        self.width == 0 || self.height == 0
    }
}

/// The `viewBox` of an element: the rectangle of its own coordinate system
/// that is to be mapped onto its viewport. It is counted in the steps of
/// the viewport that it goes with.
#[derive(Clone, Copy, Debug, PartialEq, Eq, Structural)]
pub struct ViewBox {
    pub x: i32,
    pub y: i32,
    pub width: i32,
    pub height: i32,
}

impl ViewBox {
    pub open spec fn spec_is_empty(&self) -> bool {
        self.width == 0 || self.height == 0
    }

    /// The width or the height is zero: such a `viewBox` disables the
    /// rendering of the element that declares it.
    #[verifier::when_used_as_spec(spec_is_empty)]
    pub fn is_empty(&self) -> (r: bool)
        ensures
            r == self.spec_is_empty(),
    {
        self.width == 0 || self.height == 0
    }
}

} // verus!
