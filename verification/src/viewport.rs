//! Establishing a viewport: the transform and the clip of an element that
//! brings its own coordinate system.

use vstd::prelude::*;
use crate::aspect_ratio::{AspectRatio, FitMode};
use crate::ratio::{Frac, Ratio};
use crate::rect::{Rectangle, ViewBox};

verus! {

/// Which rectangle the content is clipped to.
#[derive(Debug, Copy, Clone, PartialEq, Eq, Structural)]
pub enum ClipMode {
    ClipToViewport,
    ClipToVbox,
}

/// One operation for the drawing back end. The back end keeps a transform of
/// its own, which starts as the transform in force at the element; the
/// operations that translate and scale it compose onto it from the right, and
/// `SetMatrix` makes it the one that drawing goes through.
#[derive(Debug, Copy, Clone, PartialEq, Eq, Structural)]
#[allow(inconsistent_fields)]
pub enum DrawOp {
    /// Opens the compositing group of the element.
    EnterLayer,
    /// Installs the transform as it stands.
    SetMatrix,
    /// Clips to a rectangle in the coordinates installed last.
    Clip { x: i32, y: i32, width: i32, height: i32 },
    /// Opens a coordinate frame of the given size, against which
    /// percentages inside the element are resolved.
    PushViewBox { width: i32, height: i32 },
    /// Translates the transform.
    Translate { x: Ratio, y: Ratio },
    /// Scales the transform.
    Scale { x: Ratio, y: Ratio },
    /// Draws the content of the element.
    Draw,
    /// Closes the coordinate frame opened last.
    PopViewBox,
    /// Closes the compositing group.
    LeaveLayer,
}

/// `DrawOp` over mathematical numbers.
#[allow(inconsistent_fields)]
pub enum DrawOpView {
    EnterLayer,
    SetMatrix,
    Clip { x: int, y: int, width: int, height: int },
    PushViewBox { width: int, height: int },
    Translate { x: Frac, y: Frac },
    Scale { x: Frac, y: Frac },
    Draw,
    PopViewBox,
    LeaveLayer,
}

impl View for DrawOp {
    type V = DrawOpView;

    open spec fn view(&self) -> DrawOpView {
        match *self {
            DrawOp::EnterLayer => DrawOpView::EnterLayer,
            DrawOp::SetMatrix => DrawOpView::SetMatrix,
            DrawOp::Clip { x, y, width, height } => DrawOpView::Clip {
                x: x as int,
                y: y as int,
                width: width as int,
                height: height as int,
            },
            DrawOp::PushViewBox { width, height } => DrawOpView::PushViewBox {
                width: width as int,
                height: height as int,
            },
            DrawOp::Translate { x, y } => DrawOpView::Translate { x: x@, y: y@ },
            DrawOp::Scale { x, y } => DrawOpView::Scale { x: x@, y: y@ },
            DrawOp::Draw => DrawOpView::Draw,
            DrawOp::PopViewBox => DrawOpView::PopViewBox,
            DrawOp::LeaveLayer => DrawOpView::LeaveLayer,
        }
    }
}

/// The operations of a list, each by its view.
pub open spec fn ops_view(ops: Seq<DrawOp>) -> Seq<DrawOpView> {
    Seq::new(ops.len(), |i: int| ops[i]@)
}

/// How every list for a viewport that draws begins: the layer is entered,
/// and for `ClipToViewport` the clip is set to the viewport in the
/// coordinates outside it.
pub open spec fn spec_prologue(viewport: Rectangle, clip_mode: Option<ClipMode>) -> Seq<
    DrawOpView,
> {
    if clip_mode == Some(ClipMode::ClipToViewport) {
        seq![
            DrawOpView::EnterLayer,
            DrawOpView::SetMatrix,
            DrawOpView::Clip {
                x: viewport.x as int,
                y: viewport.y as int,
                width: viewport.width as int,
                height: viewport.height as int,
            },
        ]
    } else {
        seq![DrawOpView::EnterLayer]
    }
}

/// The operations that map a `viewBox` that is not empty onto the viewport:
/// a frame of the size of the box; a translation to where the fitted box
/// lands; the scale that takes the box to its fitted size; a translation
/// that brings the origin of the box to that place.
pub open spec fn spec_fit(
    viewport: Rectangle,
    vbox: ViewBox,
    preserve_aspect_ratio: AspectRatio,
) -> Seq<DrawOpView> {
    let (x, y, w, h) = preserve_aspect_ratio.spec_compute(vbox, viewport);
    seq![
        DrawOpView::PushViewBox { width: vbox.width as int, height: vbox.height as int },
        DrawOpView::Translate { x, y },
        DrawOpView::Scale { x: w.over(vbox.width as int), y: h.over(vbox.height as int) },
        DrawOpView::Translate { x: Frac::whole(-vbox.x), y: Frac::whole(-vbox.y) },
        DrawOpView::SetMatrix,
    ]
}

/// The whole list for one element.
///
/// A viewport without width or height draws nothing and opens nothing. So
/// does a `viewBox` without width or height, but it is only looked at inside
/// the layer, after the clip to the viewport. Without a `viewBox` the frame
/// has the size of the viewport and the transform is moved to its origin.
pub open spec fn spec_draw_in_viewport(
    viewport: Rectangle,
    clip_mode: Option<ClipMode>,
    vbox: Option<ViewBox>,
    preserve_aspect_ratio: AspectRatio,
) -> Seq<DrawOpView> {
    if viewport.spec_is_empty() {
        Seq::empty()
    } else {
        let prologue = spec_prologue(viewport, clip_mode);
        match vbox {
            Some(vbox) => {
                if vbox.spec_is_empty() {
                    prologue.push(DrawOpView::LeaveLayer)
                } else {
                    let fitted = prologue + spec_fit(viewport, vbox, preserve_aspect_ratio);
                    let clipped = if clip_mode == Some(ClipMode::ClipToVbox) {
                        fitted.push(
                            DrawOpView::Clip {
                                x: vbox.x as int,
                                y: vbox.y as int,
                                width: vbox.width as int,
                                height: vbox.height as int,
                            },
                        )
                    } else {
                        fitted
                    };
                    clipped.push(DrawOpView::Draw).push(DrawOpView::PopViewBox).push(
                        DrawOpView::LeaveLayer,
                    )
                }
            },
            None => prologue.push(
                DrawOpView::PushViewBox {
                    width: viewport.width as int,
                    height: viewport.height as int,
                },
            ).push(
                DrawOpView::Translate {
                    x: Frac::whole(viewport.x as int),
                    y: Frac::whole(viewport.y as int),
                },
            ).push(DrawOpView::SetMatrix).push(DrawOpView::Draw).push(DrawOpView::PopViewBox).push(
                DrawOpView::LeaveLayer,
            ),
        }
    }
}

/// What an operation can open and has to close again.
pub enum Scope {
    Layer,
    Frame,
}

/// The scopes that are open after one more operation, the innermost last;
/// `None` where the operation closes a scope that is not the innermost
/// open one.
pub open spec fn spec_scopes_after(open: Option<Seq<Scope>>, op: DrawOpView) -> Option<
    Seq<Scope>,
> {
    match open {
        None => None,
        Some(open) => match op {
            DrawOpView::EnterLayer => Some(open.push(Scope::Layer)),
            DrawOpView::PushViewBox { .. } => Some(open.push(Scope::Frame)),
            DrawOpView::PopViewBox => if open.len() > 0 && open.last() == Scope::Frame {
                Some(open.drop_last())
            } else {
                None
            },
            DrawOpView::LeaveLayer => if open.len() > 0 && open.last() == Scope::Layer {
                Some(open.drop_last())
            } else {
                None
            },
            _ => Some(open),
        },
    }
}

/// The scopes that are open after a list of operations.
pub open spec fn spec_scopes(ops: Seq<DrawOpView>) -> Option<Seq<Scope>>
    decreases ops.len(),
{
    if ops.len() == 0 {
        Some(Seq::empty())
    } else {
        spec_scopes_after(spec_scopes(ops.drop_last()), ops.last())
    }
}

proof fn scopes_of_push(ops: Seq<DrawOpView>, op: DrawOpView)
    ensures
        spec_scopes(ops.push(op)) == spec_scopes_after(spec_scopes(ops), op),
{
    assert(ops.push(op).drop_last() =~= ops);
}

/// The operations for a viewport leave nothing open: the frame and the
/// layer that they open are closed again, the frame first, whether or not
/// anything is drawn. Where they draw, they draw once, inside the layer and
/// the frame, and that is whenever neither the viewport nor the `viewBox`
/// is empty.
pub proof fn viewport_scopes_are_closed(
    viewport: Rectangle,
    clip_mode: Option<ClipMode>,
    vbox: Option<ViewBox>,
    preserve_aspect_ratio: AspectRatio,
)
    ensures
        spec_scopes(spec_draw_in_viewport(viewport, clip_mode, vbox, preserve_aspect_ratio))
            == Some(Seq::<Scope>::empty()),
        ({
            let ops = spec_draw_in_viewport(viewport, clip_mode, vbox, preserve_aspect_ratio);
            let drawn = !viewport.spec_is_empty() && !(vbox matches Some(b) && b.spec_is_empty());
            &&& drawn ==> ops.len() >= 3 && ops[ops.len() - 3] == DrawOpView::Draw && spec_scopes(
                ops.subrange(0, ops.len() - 3),
            ) == Some(seq![Scope::Layer, Scope::Frame])
            &&& forall|i: int|
                0 <= i < ops.len() && #[trigger] ops[i] == DrawOpView::Draw ==> drawn && i
                    == ops.len() - 3
        }),
{
    let ops = spec_draw_in_viewport(viewport, clip_mode, vbox, preserve_aspect_ratio);
    if viewport.spec_is_empty() {
    } else {
        let prologue = spec_prologue(viewport, clip_mode);
        let layer = seq![Scope::Layer];
        let inside = seq![Scope::Layer, Scope::Frame];
        assert(layer.push(Scope::Frame) =~= inside);
        assert(inside.drop_last() =~= layer);
        assert(layer.drop_last() =~= Seq::<Scope>::empty());
        assert(spec_scopes(prologue) == Some(layer)) by {
            let e = Seq::<DrawOpView>::empty();
            scopes_of_push(e, DrawOpView::EnterLayer);
            assert(Seq::<Scope>::empty().push(Scope::Layer) =~= layer);
            if clip_mode == Some(ClipMode::ClipToViewport) {
                let clip = DrawOpView::Clip {
                    x: viewport.x as int,
                    y: viewport.y as int,
                    width: viewport.width as int,
                    height: viewport.height as int,
                };
                scopes_of_push(e.push(DrawOpView::EnterLayer), DrawOpView::SetMatrix);
                scopes_of_push(
                    e.push(DrawOpView::EnterLayer).push(DrawOpView::SetMatrix),
                    clip,
                );
                assert(prologue =~= e.push(DrawOpView::EnterLayer).push(DrawOpView::SetMatrix).push(
                    clip,
                ));
            } else {
                assert(prologue =~= e.push(DrawOpView::EnterLayer));
            }
        }
        assert(forall|i: int| 0 <= i < prologue.len() ==> prologue[i] != DrawOpView::Draw);
        match vbox {
            Some(b) => {
                if b.spec_is_empty() {
                    scopes_of_push(prologue, DrawOpView::LeaveLayer);
                } else {
                    let fit = spec_fit(viewport, b, preserve_aspect_ratio);
                    let framed = prologue.push(fit[0]);
                    let placed = framed.push(fit[1]);
                    let scaled = placed.push(fit[2]);
                    let shifted = scaled.push(fit[3]);
                    let fitted = shifted.push(fit[4]);
                    assert(prologue + fit =~= fitted);
                    scopes_of_push(prologue, fit[0]);
                    scopes_of_push(framed, fit[1]);
                    scopes_of_push(placed, fit[2]);
                    scopes_of_push(scaled, fit[3]);
                    scopes_of_push(shifted, fit[4]);
                    assert(spec_scopes(fitted) == Some(inside));
                    let clip = DrawOpView::Clip {
                        x: b.x as int,
                        y: b.y as int,
                        width: b.width as int,
                        height: b.height as int,
                    };
                    let clipped = if clip_mode == Some(ClipMode::ClipToVbox) {
                        fitted.push(clip)
                    } else {
                        fitted
                    };
                    scopes_of_push(fitted, clip);
                    assert(spec_scopes(clipped) == Some(inside));
                    scopes_of_push(clipped, DrawOpView::Draw);
                    scopes_of_push(clipped.push(DrawOpView::Draw), DrawOpView::PopViewBox);
                    scopes_of_push(
                        clipped.push(DrawOpView::Draw).push(DrawOpView::PopViewBox),
                        DrawOpView::LeaveLayer,
                    );
                    assert(ops.subrange(0, ops.len() - 3) =~= clipped);
                    assert(forall|i: int| 0 <= i < clipped.len() ==> clipped[i] != DrawOpView::Draw);
                }
            },
            None => {
                let frame = DrawOpView::PushViewBox {
                    width: viewport.width as int,
                    height: viewport.height as int,
                };
                let shift = DrawOpView::Translate {
                    x: Frac::whole(viewport.x as int),
                    y: Frac::whole(viewport.y as int),
                };
                let framed = prologue.push(frame);
                let shifted = framed.push(shift);
                let installed = shifted.push(DrawOpView::SetMatrix);
                scopes_of_push(prologue, frame);
                scopes_of_push(framed, shift);
                scopes_of_push(shifted, DrawOpView::SetMatrix);
                assert(spec_scopes(installed) == Some(inside));
                scopes_of_push(installed, DrawOpView::Draw);
                scopes_of_push(installed.push(DrawOpView::Draw), DrawOpView::PopViewBox);
                scopes_of_push(
                    installed.push(DrawOpView::Draw).push(DrawOpView::PopViewBox),
                    DrawOpView::LeaveLayer,
                );
                assert(ops.subrange(0, ops.len() - 3) =~= installed);
                assert(forall|i: int| 0 <= i < installed.len() ==> installed[i] != DrawOpView::Draw);
            },
        }
    }
}

/// The scale that maps a `viewBox` onto the viewport. With an alignment it
/// is the same on both axes: the smaller of the two ratios of viewport to
/// box to meet, the larger to slice. Without one it is, on each axis, the
/// ratio of viewport to box on that axis.
pub proof fn viewport_scale(viewport: Rectangle, vbox: ViewBox, preserve_aspect_ratio: AspectRatio)
    requires
        !vbox.spec_is_empty(),
    ensures
        ({
            let (x, y, w, h) = preserve_aspect_ratio.spec_compute(vbox, viewport);
            let sx = w.over(vbox.width as int);
            let sy = h.over(vbox.height as int);
            let rx = Frac::of(viewport.width as int, vbox.width as int);
            let ry = Frac::of(viewport.height as int, vbox.height as int);
            &&& spec_fit(viewport, vbox, preserve_aspect_ratio)[2] == (DrawOpView::Scale {
                x: sx,
                y: sy,
            })
            &&& sx.wf() && sy.wf()
            &&& match preserve_aspect_ratio.align {
                None => sx.same(rx) && sy.same(ry),
                Some(align) => sx.same(sy) && sx.same(align.fit.spec_factor(rx, ry)) && (
                align.fit.spec_factor(rx, ry) == rx || align.fit.spec_factor(rx, ry) == ry),
            }
            &&& preserve_aspect_ratio.align matches Some(align) ==> (align.fit == FitMode::Meet
                ==> sx.le(rx) && sx.le(ry)) && (align.fit == FitMode::Slice ==> rx.le(sx) && ry.le(
                sx,
            ))
        }),
{
    let bw = vbox.width as int;
    let bh = vbox.height as int;
    let vw = viewport.width as int;
    let vh = viewport.height as int;
    let (x, y, w, h) = preserve_aspect_ratio.spec_compute(vbox, viewport);
    let sx = w.over(bw);
    let sy = h.over(bh);
    let rx = Frac::of(vw, bw);
    let ry = Frac::of(vh, bh);
    let abw = if bw < 0 { -bw } else { bw };
    let abh = if bh < 0 { -bh } else { bh };
    assert(rx.d == abw && ry.d == abh);
    match preserve_aspect_ratio.align {
        None => {
            assert(sx.n * rx.d == rx.n * sx.d) by (nonlinear_arith)
                requires
                    sx.d == 1 * abw,
                    rx.d == abw,
                    sx.n == rx.n,
            ;
            assert(sy.n * ry.d == ry.n * sy.d) by (nonlinear_arith)
                requires
                    sy.d == 1 * abh,
                    ry.d == abh,
                    sy.n == ry.n,
            ;
        },
        Some(align) => {
            let f = align.fit.spec_factor(rx, ry);
            assert(f.d > 0);
            assert(sx.d == f.d * abw && sx.d > 0 && sx.n * bw == (f.n * bw) * abw) by (nonlinear_arith)
                requires
                    f.d > 0,
                    abw > 0,
                    abw == if bw < 0 { -bw } else { bw },
                    sx == f.times(bw).over(bw),
            ;
            assert(sy.d == f.d * abh && sy.d > 0 && sy.n * bh == (f.n * bh) * abh) by (nonlinear_arith)
                requires
                    f.d > 0,
                    abh > 0,
                    abh == if bh < 0 { -bh } else { bh },
                    sy == f.times(bh).over(bh),
            ;
            assert(sx.n == f.n * abw) by (nonlinear_arith)
                requires
                    sx.n * bw == (f.n * bw) * abw,
                    bw != 0,
            ;
            assert(sy.n == f.n * abh) by (nonlinear_arith)
                requires
                    sy.n * bh == (f.n * bh) * abh,
                    bh != 0,
            ;
            assert(sx.n * f.d == f.n * sx.d) by (nonlinear_arith)
                requires
                    sx.n == f.n * abw,
                    sx.d == f.d * abw,
            ;
            assert(sx.n * sy.d == sy.n * sx.d) by (nonlinear_arith)
                requires
                    sx.n == f.n * abw,
                    sx.d == f.d * abw,
                    sy.n == f.n * abh,
                    sy.d == f.d * abh,
            ;
            assert(forall|o: Frac|
                o.d > 0 ==> (f.le(o) <==> sx.le(o)) && (o.le(f) <==> o.le(sx))) by {
                assert forall|o: Frac| o.d > 0 implies (f.le(o) <==> sx.le(o)) && (o.le(f)
                    <==> o.le(sx)) by {
                    assert((f.n * o.d <= o.n * f.d) <==> (sx.n * o.d <= o.n * sx.d))
                        by (nonlinear_arith)
                        requires
                            sx.n == f.n * abw,
                            sx.d == f.d * abw,
                            abw > 0,
                    ;
                    assert((o.n * f.d <= f.n * o.d) <==> (o.n * sx.d <= sx.n * o.d))
                        by (nonlinear_arith)
                        requires
                            sx.n == f.n * abw,
                            sx.d == f.d * abw,
                            abw > 0,
                    ;
                }
            }
            assert(rx.d > 0 && ry.d > 0);
            assert(f.le(rx) <==> sx.le(rx));
            assert(f.le(ry) <==> sx.le(ry));
            assert(rx.le(f) <==> rx.le(sx));
            assert(ry.le(f) <==> ry.le(sx));
            assert(rx.le(rx) && ry.le(ry));
        },
    }
}

/// Appending an operation appends its view.
proof fn ops_view_push(ops: Seq<DrawOp>, op: DrawOp)
    ensures
        ops_view(ops.push(op)) == ops_view(ops).push(op@),
{
    assert(ops_view(ops.push(op)) =~= ops_view(ops).push(op@));
}

fn push_op(ops: &mut Vec<DrawOp>, op: DrawOp)
    ensures
        final(ops)@ == old(ops)@.push(op),
        ops_view(final(ops)@) == ops_view(old(ops)@).push(op@),
{
    proof {
        ops_view_push(ops@, op);
    }
    ops.push(op);
}

/// The operations that establish the viewport of an element and draw its
/// content, in the order in which the back end is to perform them.
pub fn draw_in_viewport(
    viewport: &Rectangle,
    clip_mode: Option<ClipMode>,
    vbox: Option<ViewBox>,
    preserve_aspect_ratio: AspectRatio,
) -> (ops: Vec<DrawOp>)
    ensures
        ops_view(ops@) == spec_draw_in_viewport(*viewport, clip_mode, vbox, preserve_aspect_ratio),
        viewport.spec_is_empty() ==> ops@.len() == 0,
        forall|i: int|
            0 <= i < ops@.len() && (viewport.spec_is_empty() || (vbox matches Some(b)
                && b.spec_is_empty())) ==> !(#[trigger] ops@[i] is Draw),
{
    let mut ops: Vec<DrawOp> = Vec::new();
    assert(ops_view(ops@) =~= Seq::empty());
    if viewport.is_empty() {
        return ops;
    }
    push_op(&mut ops, DrawOp::EnterLayer);
    let clip_to_viewport = match clip_mode {
        Some(ClipMode::ClipToViewport) => true,
        _ => false,
    };
    let clip_to_vbox = match clip_mode {
        Some(ClipMode::ClipToVbox) => true,
        _ => false,
    };
    if clip_to_viewport {
        push_op(&mut ops, DrawOp::SetMatrix);
        push_op(
            &mut ops,
            DrawOp::Clip {
                x: viewport.x,
                y: viewport.y,
                width: viewport.width,
                height: viewport.height,
            },
        );
    }
    assert(ops_view(ops@) =~= spec_prologue(*viewport, clip_mode));
    let ghost prologue = ops_view(ops@);
    match vbox {
        Some(vbox) => {
            if vbox.is_empty() {
                push_op(&mut ops, DrawOp::LeaveLayer);
                return ops;
            }
            let (x, y, w, h) = preserve_aspect_ratio.compute(&vbox, viewport);
            push_op(&mut ops, DrawOp::PushViewBox { width: vbox.width, height: vbox.height });
            push_op(&mut ops, DrawOp::Translate { x, y });
            push_op(
                &mut ops,
                DrawOp::Scale { x: w.over(vbox.width as i64), y: h.over(vbox.height as i64) },
            );
            push_op(
                &mut ops,
                DrawOp::Translate {
                    x: Ratio::whole(-(vbox.x as i64)),
                    y: Ratio::whole(-(vbox.y as i64)),
                },
            );
            push_op(&mut ops, DrawOp::SetMatrix);
            assert(ops_view(ops@) =~= prologue + spec_fit(
                *viewport,
                vbox,
                preserve_aspect_ratio,
            ));
            if clip_to_vbox {
                push_op(
                    &mut ops,
                    DrawOp::Clip {
                        x: vbox.x,
                        y: vbox.y,
                        width: vbox.width,
                        height: vbox.height,
                    },
                );
            }
        },
        None => {
            push_op(
                &mut ops,
                DrawOp::PushViewBox { width: viewport.width, height: viewport.height },
            );
            push_op(
                &mut ops,
                DrawOp::Translate {
                    x: Ratio::whole(viewport.x as i64),
                    y: Ratio::whole(viewport.y as i64),
                },
            );
            push_op(&mut ops, DrawOp::SetMatrix);
        },
    }
    push_op(&mut ops, DrawOp::Draw);
    push_op(&mut ops, DrawOp::PopViewBox);
    push_op(&mut ops, DrawOp::LeaveLayer);
    ops
}

} // verus!
