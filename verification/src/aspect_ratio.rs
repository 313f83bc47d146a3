//! `preserveAspectRatio`: how a `viewBox` is fitted into a viewport.

use vstd::prelude::*;
use crate::ratio::{product_within, Frac, Ratio};
use crate::rect::{Rectangle, ViewBox};

verus! {

/// Whether the fitted box stays inside the viewport or covers it.
#[derive(Clone, Copy, Debug, PartialEq, Eq, Structural)]
pub enum FitMode {
    /// The largest uniform scale at which the whole box is visible.
    Meet,
    /// The smallest uniform scale at which the box covers the viewport.
    Slice,
}

/// Where the fitted box goes along one axis of the viewport.
#[derive(Clone, Copy, Debug, PartialEq, Eq, Structural)]
pub enum Align1D {
    Min,
    Mid,
    Max,
}

/// An alignment on both axes and the way to fit.
#[derive(Clone, Copy, Debug, PartialEq, Eq, Structural)]
pub struct Align {
    pub x: Align1D,
    pub y: Align1D,
    pub fit: FitMode,
}

/// The policy of one element. Without an alignment (`none`) the box is
/// stretched on each axis by itself until it fills the viewport.
#[derive(Clone, Copy, Debug, PartialEq, Eq, Structural)]
pub struct AspectRatio {
    pub align: Option<Align>,
}

impl Align1D {
    /// The position of an object of size `obj_size` in the span of
    /// `dest_size` that starts at `dest_pos`: at its start, in its middle,
    /// or flush with its end.
    pub open spec fn spec_compute(self, dest_pos: int, dest_size: int, obj_size: Frac) -> Frac {
        match self {
            Align1D::Min => Frac::whole(dest_pos),
            Align1D::Mid => Frac::whole(dest_pos).plus(
                Frac::whole(dest_size).minus(obj_size).over(2),
            ),
            Align1D::Max => Frac::whole(dest_pos).plus(Frac::whole(dest_size).minus(obj_size)),
        }
    }

    pub fn compute(self, dest_pos: i32, dest_size: i32, obj_size: &Ratio) -> (r: Ratio)
        requires
            obj_size@.small(),
        ensures
            r@ == self.spec_compute(dest_pos as int, dest_size as int, obj_size@),
            r@.wf(),
    {
        proof {
            product_within(
                dest_size as int,
                obj_size.den as int,
                0x8000_0000,
                0x4000_0000_0000_0000,
            );
            product_within(
                dest_pos as int,
                obj_size.den as int,
                0x8000_0000,
                0x4000_0000_0000_0000,
            );
        }
        let free: i128 = (dest_size as i128) * obj_size.den - obj_size.num;
        match self {
            Align1D::Min => Ratio::whole(dest_pos as i64),
            Align1D::Mid => {
                let den: i128 = obj_size.den * 2;
                assert(dest_pos * den == 2 * (dest_pos * obj_size.den)) by (nonlinear_arith)
                    requires
                        den == obj_size.den * 2,
                ;
                Ratio { num: (dest_pos as i128) * den + free, den }
            },
            Align1D::Max => Ratio {
                num: (dest_pos as i128) * obj_size.den + free,
                den: obj_size.den,
            },
        }
    }
}

impl FitMode {
    /// The one scale for both axes, out of the scale that would fit the
    /// width and the one that would fit the height: the smaller of the two
    /// to meet, the larger to slice.
    pub open spec fn spec_factor(self, w_factor: Frac, h_factor: Frac) -> Frac {
        match self {
            FitMode::Meet => if w_factor.le(h_factor) {
                w_factor
            } else {
                h_factor
            },
            FitMode::Slice => if h_factor.le(w_factor) {
                w_factor
            } else {
                h_factor
            },
        }
    }

    pub fn factor(self, w_factor: &Ratio, h_factor: &Ratio) -> (r: Ratio)
        requires
            w_factor@.small(),
            h_factor@.small(),
        ensures
            r@ == self.spec_factor(w_factor@, h_factor@),
            r == *w_factor || r == *h_factor,
    {
        match self {
            FitMode::Meet => if w_factor.le(h_factor) {
                *w_factor
            } else {
                *h_factor
            },
            FitMode::Slice => if h_factor.le(w_factor) {
                *w_factor
            } else {
                *h_factor
            },
        }
    }
}

impl AspectRatio {
    /// Where the `viewBox` lands in the viewport, as `(x, y, width, height)`
    /// in the viewport's coordinates. The origin of the `viewBox` plays no
    /// part in it.
    pub open spec fn spec_compute(self, vbox: ViewBox, viewport: Rectangle) -> (
        Frac,
        Frac,
        Frac,
        Frac,
    ) {
        match self.align {
            None => (
                Frac::whole(viewport.x as int),
                Frac::whole(viewport.y as int),
                Frac::whole(viewport.width as int),
                Frac::whole(viewport.height as int),
            ),
            Some(align) => {
                let factor = align.fit.spec_factor(
                    Frac::of(viewport.width as int, vbox.width as int),
                    Frac::of(viewport.height as int, vbox.height as int),
                );
                let w = factor.times(vbox.width as int);
                let h = factor.times(vbox.height as int);
                (
                    align.x.spec_compute(viewport.x as int, viewport.width as int, w),
                    align.y.spec_compute(viewport.y as int, viewport.height as int, h),
                    w,
                    h,
                )
            },
        }
    }

    /// Fits `vbox` into `viewport`.
    pub fn compute(&self, vbox: &ViewBox, viewport: &Rectangle) -> (r: (Ratio, Ratio, Ratio, Ratio))
        requires
            self.align.is_some() ==> !vbox.spec_is_empty(),
        ensures
            (r.0@, r.1@, r.2@, r.3@) == self.spec_compute(*vbox, *viewport),
            r.0@.wf() && r.1@.wf() && r.2@.wf() && r.3@.wf(),
            r.2@.small() && r.3@.small(),
    {
        match self.align {
            None => (
                Ratio::whole(viewport.x as i64),
                Ratio::whole(viewport.y as i64),
                Ratio::whole(viewport.width as i64),
                Ratio::whole(viewport.height as i64),
            ),
            Some(align) => {
                let w_factor = Ratio::of(viewport.width as i64, vbox.width as i64);
                let h_factor = Ratio::of(viewport.height as i64, vbox.height as i64);
                let factor = align.fit.factor(&w_factor, &h_factor);
                proof {
                    product_within(factor.num as int, vbox.width as int, 0x8000_0000, 0x8000_0000);
                    product_within(factor.num as int, vbox.height as int, 0x8000_0000, 0x8000_0000);
                }
                let w = factor.times(vbox.width as i64);
                let h = factor.times(vbox.height as i64);
                let x = align.x.compute(viewport.x, viewport.width, &w);
                let y = align.y.compute(viewport.y, viewport.height, &h);
                (x, y, w, h)
            },
        }
    }
}

/// An aligned object sits where its alignment says: `Min` puts it at the
/// start of the span, `Max` makes it end where the span ends, and `Mid`
/// leaves as much room before it as after it.
pub proof fn alignment_places(align: Align1D, dest_pos: int, dest_size: int, obj_size: Frac)
    requires
        obj_size.wf(),
    ensures
        align.spec_compute(dest_pos, dest_size, obj_size).wf(),
        align == Align1D::Min ==> align.spec_compute(dest_pos, dest_size, obj_size) == Frac::whole(
            dest_pos,
        ),
        align == Align1D::Max ==> align.spec_compute(dest_pos, dest_size, obj_size).plus(
            obj_size,
        ).same(Frac::whole(dest_pos + dest_size)),
        align == Align1D::Mid ==> align.spec_compute(dest_pos, dest_size, obj_size).minus(
            Frac::whole(dest_pos),
        ).same(
            Frac::whole(dest_pos + dest_size).minus(
                align.spec_compute(dest_pos, dest_size, obj_size).plus(obj_size),
            ),
        ),
{
    let r = align.spec_compute(dest_pos, dest_size, obj_size);
    let n = obj_size.n;
    let d = obj_size.d;
    match align {
        Align1D::Min => {},
        Align1D::Max => {
            assert(r.n == dest_pos * d + (dest_size * d - n) && r.d == d) by (nonlinear_arith)
                requires
                    r == Frac::whole(dest_pos).plus(Frac::whole(dest_size).minus(obj_size)),
                    n == obj_size.n,
                    d == obj_size.d,
            ;
            assert((r.n * d + n * r.d) * 1 == (dest_pos + dest_size) * (r.d * d))
                by (nonlinear_arith)
                requires
                    r.n == dest_pos * d + (dest_size * d - n),
                    r.d == d,
            ;
        },
        Align1D::Mid => {
            assert(r.n == 2 * (dest_pos * d) + (dest_size * d - n) && r.d == 2 * d)
                by (nonlinear_arith)
                requires
                    r == Frac::whole(dest_pos).plus(
                        Frac::whole(dest_size).minus(obj_size).over(2),
                    ),
                    n == obj_size.n,
                    d == obj_size.d,
            ;
            let before = r.minus(Frac::whole(dest_pos));
            let after = Frac::whole(dest_pos + dest_size).minus(r.plus(obj_size));
            assert(before.n * after.d == after.n * before.d) by (nonlinear_arith)
                requires
                    r.n == 2 * (dest_pos * d) + (dest_size * d - n),
                    r.d == 2 * d,
                    before.n == r.n * 1 - dest_pos * r.d,
                    before.d == r.d * 1,
                    after.n == (dest_pos + dest_size) * (r.d * d) - (r.n * d + n * r.d) * 1,
                    after.d == 1 * (r.d * d),
            ;
        },
    }
}

/// A fitted box has the shape of the `viewBox`, and it touches the
/// viewport: with `Meet` it lies inside the viewport and fills its width
/// or its height; with `Slice` it covers the viewport and matches its
/// width or its height. What is said of inside and covering is for sizes
/// above zero.
pub proof fn fit_keeps_shape(align: Align, vbox: ViewBox, viewport: Rectangle)
    requires
        !vbox.spec_is_empty(),
    ensures
        ({
            let (x, y, w, h) = (AspectRatio { align: Some(align) }).spec_compute(vbox, viewport);
            &&& w.wf() && h.wf()
            &&& w.times(vbox.height as int).same(h.times(vbox.width as int))
            &&& (vbox.width > 0 && vbox.height > 0 && viewport.width > 0 && viewport.height > 0
                && align.fit == FitMode::Meet) ==> {
                &&& w.le(Frac::whole(viewport.width as int))
                &&& h.le(Frac::whole(viewport.height as int))
                &&& w.same(Frac::whole(viewport.width as int)) || h.same(
                    Frac::whole(viewport.height as int),
                )
            }
            &&& (vbox.width > 0 && vbox.height > 0 && viewport.width > 0 && viewport.height > 0
                && align.fit == FitMode::Slice) ==> {
                &&& Frac::whole(viewport.width as int).le(w)
                &&& Frac::whole(viewport.height as int).le(h)
                &&& w.same(Frac::whole(viewport.width as int)) || h.same(
                    Frac::whole(viewport.height as int),
                )
            }
        }),
{
    let vw = viewport.width as int;
    let vh = viewport.height as int;
    let bw = vbox.width as int;
    let bh = vbox.height as int;
    let a = Frac::of(vw, bw);
    let b = Frac::of(vh, bh);
    let f = align.fit.spec_factor(a, b);
    let w = f.times(bw);
    let h = f.times(bh);
    assert((f.n * bw * bh) * f.d == (f.n * bh * bw) * f.d) by (nonlinear_arith);
    if bw > 0 && bh > 0 && vw > 0 && vh > 0 {
        assert(a.n == vw && a.d == bw && b.n == vh && b.d == bh);
        if f == a {
            assert((vw * bw) * 1 == vw * bw);
            assert(vw * bh == (vw * bh) * 1);
        }
        if f == b {
            assert((vh * bh) * 1 == vh * bh);
            assert(vh * bw == (vh * bw) * 1);
        }
    }
}

/// Without an alignment the box is stretched over the whole viewport.
pub proof fn stretch_fills_viewport(vbox: ViewBox, viewport: Rectangle)
    ensures
        (AspectRatio { align: None }).spec_compute(vbox, viewport) == (
            Frac::whole(viewport.x as int),
            Frac::whole(viewport.y as int),
            Frac::whole(viewport.width as int),
            Frac::whole(viewport.height as int),
        ),
{
}

} // verus!
