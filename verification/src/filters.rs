//! Filter effects: the environment of one filter chain and the `feMerge`
//! primitive.
//!
//! A primitive does not touch a surface. What its `render` returns is the
//! list of operations by which the back end makes the output surface, and
//! what becomes of it once they are done.

use vstd::prelude::*;
use crate::attributes::{Attribute, Property};
use crate::error::NodeError;
use crate::filters::context::{FilterContext, FilterOutput, FilterResult, Surface};
use crate::filters::error::{FilterError, Status};
use crate::node::Tree;
use crate::rect::IRect;

pub mod context;
pub mod error;
pub mod input;
pub mod merge;

verus! {

/// What every filter primitive has: the part of the filter region that it
/// works on, and the name under which later primitives find its result.
#[derive(Clone, Debug, PartialEq, Eq)]
pub struct Primitive {
    /// The subregion in device pixels. Without one the primitive works on
    /// all of the filter region.
    pub subregion: Option<IRect>,
    pub result: Option<String>,
}

/// The name behind an optional string.
pub open spec fn name_view(name: Option<String>) -> Option<Seq<char>> {
    match name {
        Some(s) => Some(s@),
        None => None,
    }
}

/// The result name that a primitive has after it was given the attributes
/// `pbag`: the text of the last `result` among them, and the name it had
/// before where there is none.
pub open spec fn spec_result_name(before: Option<Seq<char>>, pbag: Seq<Property>) -> Option<
    Seq<char>,
>
    decreases pbag.len(),
{
    if pbag.len() == 0 {
        before
    } else if pbag.last().attr == Attribute::Result {
        Some(pbag.last().value@)
    } else {
        spec_result_name(before, pbag.drop_last())
    }
}

impl Primitive {
    /// The pixels that the output of the primitive is confined to: its
    /// subregion, cut to the region of the filter.
    pub open spec fn spec_get_bounds(&self, ctx: &FilterContext) -> IRect {
        match self.subregion {
            Some(r) => r.spec_intersection(ctx.spec_effects_region()),
            None => ctx.spec_effects_region(),
        }
    }

    /// A primitive without subregion and without result name.
    pub fn new() -> (p: Primitive)
        ensures
            p.subregion.is_none(),
            p.result.is_none(),
    {
        Primitive { subregion: None, result: None }
    }

    /// Takes the attributes of the element. Only `result` is read here.
    pub fn set_atts(&mut self, pbag: &Vec<Property>) -> (r: Result<(), NodeError>)
        ensures
            r.is_ok(),
            final(self).subregion == old(self).subregion,
            name_view(final(self).result) == spec_result_name(name_view(old(self).result), pbag@),
    {
        let mut i: usize = 0;
        assert(pbag@.subrange(0, 0) =~= Seq::<Property>::empty());
        while i < pbag.len()
            invariant
                i <= pbag.len(),
                self.subregion == old(self).subregion,
                name_view(self.result) == spec_result_name(
                    name_view(old(self).result),
                    pbag@.subrange(0, i as int),
                ),
            decreases pbag.len() - i,
        {
            assert(pbag@.subrange(0, i + 1).drop_last() =~= pbag@.subrange(0, i as int));
            if pbag[i].attr == Attribute::Result {
                self.result = Some(pbag[i].value.clone());
            }
            i = i + 1;
        }
        assert(pbag@.subrange(0, i as int) =~= pbag@);
        Ok(())
    }

    /// The bounds of the output.
    pub fn get_bounds(&self, ctx: &FilterContext) -> (r: IRect)
        requires
            ctx.wf(),
        ensures
            r == self.spec_get_bounds(ctx),
            r.wf(),
            forall|x: int, y: int| r.contains(x, y) ==> ctx.spec_effects_region().contains(x, y),
    {
        let region = ctx.effects_region();
        match self.subregion {
            Some(r) => r.intersection(&region),
            None => region,
        }
    }
}

/// One operation on surfaces. A list of them works on one surface in the
/// making, the accumulator, which the first of them creates. What is
/// handed out in the end is confined to the bounds of the primitive: the
/// steps that convert colours leave nothing outside them.
#[derive(Clone, Copy, Debug, PartialEq, Eq, Structural)]
pub enum Step {
    /// The accumulator becomes a new surface of the size of `input`. Inside
    /// `bounds` it holds the pixels of `input`, converted from display
    /// colour to linear light; outside `bounds` it is transparent.
    Linearize { input: Surface, bounds: IRect },
    /// `input` is converted to linear light as for `Linearize`, and the
    /// converted surface is painted onto the accumulator with the
    /// source-over operator, under the identity transform and clipped to
    /// `bounds`. Outside `bounds` the accumulator stays as it is.
    PaintOver { input: Surface, bounds: IRect },
    /// The accumulator becomes a new surface of its own size. Inside
    /// `bounds` it holds the pixels that the accumulator had, converted
    /// back from linear light to display colour; outside `bounds` it is
    /// transparent.
    Unlinearize { bounds: IRect },
    /// The accumulator becomes a new surface of the given size in which
    /// every pixel is transparent.
    Transparent { width: i32, height: i32 },
}

impl Step {
    /// The error that a primitive ends with when the back end refuses this
    /// step. A step that reads a surface or converts its colours, to linear
    /// light or back, fails as a bad input surface. Only the step that
    /// asks the back end for a new surface fails as a failed creation.
    pub open spec fn spec_failure(self, status: Status) -> FilterError {
        match self {
            Step::Linearize { .. } | Step::PaintOver { .. } | Step::Unlinearize { .. } => {
                FilterError::BadInputSurfaceStatus(status)
            },
            Step::Transparent { .. } => FilterError::OutputSurfaceCreation(status),
        }
    }

    pub fn failure(&self, status: Status) -> (e: FilterError)
        ensures
            e == self.spec_failure(status),
    {
        match self {
            Step::Linearize { .. } | Step::PaintOver { .. } | Step::Unlinearize { .. } => {
                FilterError::BadInputSurfaceStatus(status)
            },
            Step::Transparent { .. } => FilterError::OutputSurfaceCreation(status),
        }
    }
}

/// What becomes of the accumulator once every step is done: the output of
/// the primitive, under this name and with these bounds.
#[derive(Clone, Debug, PartialEq, Eq)]
pub struct Pending {
    pub name: Option<String>,
    pub bounds: IRect,
}

impl Pending {
    /// Wraps the surface that the steps have made.
    pub fn complete(self, surface: Surface) -> (r: FilterResult)
        ensures
            r.name == self.name,
            r.output == (FilterOutput { surface, bounds: self.bounds }),
    {
        FilterResult { name: self.name, output: FilterOutput { surface, bounds: self.bounds } }
    }
}

/// How one primitive is rendered: the steps for the back end, in order, and
/// the outcome once all of them are done. Where the outcome is an error, the
/// steps are those that come before the error is met; it is the result of
/// the primitive unless one of them fails first.
#[derive(Debug, PartialEq, Eq)]
pub struct Rendering {
    pub steps: Vec<Step>,
    pub outcome: Result<Pending, FilterError>,
}

/// What the back end reports once it has gone through the steps of a
/// rendering in order, stopping at the first that it could not perform.
#[derive(Clone, Copy, Debug, PartialEq, Eq, Structural)]
pub enum Performed {
    /// The step at this place in the list was refused with this status.
    Failed { step: usize, status: Status },
    /// Every step was performed; the accumulator is this surface, or there
    /// is none where the list was empty.
    Done { accumulator: Option<Surface> },
}

impl Rendering {
    /// The report can be one of this rendering: a step that failed is one
    /// of the list, and steps that end well have made a surface.
    pub open spec fn admits(&self, performed: Performed) -> bool {
        match performed {
            Performed::Failed { step, .. } => step < self.steps@.len(),
            Performed::Done { accumulator } => self.outcome.is_ok() ==> accumulator.is_some(),
        }
    }

    /// The result of the primitive. A step that the back end refused ends
    /// it with the error of that step. Otherwise it ends as the rendering
    /// says: with its error, or with the accumulator as the output.
    pub open spec fn spec_conclude(&self, performed: Performed) -> Result<
        FilterResult,
        FilterError,
    > {
        match performed {
            Performed::Failed { step, status } => Err(self.steps@[step as int].spec_failure(status)),
            Performed::Done { accumulator } => match self.outcome {
                Ok(pending) => Ok(
                    FilterResult {
                        name: pending.name,
                        output: FilterOutput {
                            surface: accumulator.unwrap(),
                            bounds: pending.bounds,
                        },
                    },
                ),
                Err(e) => Err(e),
            },
        }
    }

    /// Turns the report of the back end into the result of the primitive.
    pub fn conclude(self, performed: Performed) -> (r: Result<FilterResult, FilterError>)
        requires
            self.admits(performed),
        ensures
            r == self.spec_conclude(performed),
    {
        match performed {
            Performed::Failed { step, status } => Err(self.steps[step].failure(status)),
            Performed::Done { accumulator } => match self.outcome {
                Ok(pending) => Ok(pending.complete(accumulator.unwrap())),
                Err(e) => Err(e),
            },
        }
    }
}

/// What every filter primitive implements.
pub trait Filter {
    /// The attributes that the primitive shares with all others.
    spec fn spec_base(&self) -> Primitive;

    /// Renders the primitive that `node` of `tree` stands for, in the
    /// environment `ctx`, which it only reads. The output has the name that
    /// the primitive declares, and none where it declares none; its bounds
    /// are those that `Primitive::get_bounds` gives.
    fn render(&self, tree: &Tree, node: usize, ctx: &FilterContext) -> (r: Rendering)
        requires
            ctx.wf(),
        ensures
            r.outcome matches Ok(pending) ==> pending.name == self.spec_base().result
                && pending.bounds == self.spec_base().spec_get_bounds(ctx),
    ;
}

} // verus!
