//! The environment in which the primitives of one filter chain are rendered.

use vstd::prelude::*;
use crate::filters::error::FilterError;
use crate::filters::input::{Input, InputView};
use crate::rect::IRect;

verus! {

/// A raster surface that the back end holds, by the number under which the
/// back end knows it and by its size in pixels.
#[derive(Clone, Copy, Debug, PartialEq, Eq, Structural)]
pub struct Surface {
    pub id: u64,
    pub width: i32,
    pub height: i32,
}

impl Surface {
    pub open spec fn wf(self) -> bool {
        self.width >= 0 && self.height >= 0
    }

    /// The rectangle of all its pixels.
    pub open spec fn spec_extents(self) -> IRect {
        IRect { x0: 0, y0: 0, x1: self.width, y1: self.height }
    }
}

/// A surface and the part of it that has been painted.
#[derive(Clone, Copy, Debug, PartialEq, Eq, Structural)]
pub struct FilterOutput {
    pub surface: Surface,
    pub bounds: IRect,
}

/// What one primitive has produced, with the name it gave to it.
#[derive(Clone, Debug, PartialEq, Eq)]
pub struct FilterResult {
    pub name: Option<String>,
    pub output: FilterOutput,
}

/// A result under its name.
struct NamedOutput {
    name: String,
    output: FilterOutput,
}

/// The handle of one coordinate frame. It is what `push_view_box` gives out
/// and what `pop_view_box` takes back.
#[derive(Debug)]
pub struct ViewParams {
    depth: usize,
}

/// The environment of one filter chain: the source graphic, the results of
/// the primitives rendered so far, the region of the filter, and the stack
/// of coordinate frames.
pub struct FilterContext {
    source_surface: Surface,
    last_result: Option<FilterOutput>,
    previous_results: Vec<NamedOutput>,
    effects_region: IRect,
    view_boxes: Vec<(i32, i32)>,
}

/// The table that a list of named results stands for: a later entry
/// replaces an earlier one of the same name.
spec fn table_of(entries: Seq<NamedOutput>) -> Map<Seq<char>, FilterOutput>
    decreases entries.len(),
{
    if entries.len() == 0 {
        Map::empty()
    } else {
        table_of(entries.drop_last()).insert(entries.last().name@, entries.last().output)
    }
}

impl FilterContext {
    /// The surface that holds the source graphic.
    pub closed spec fn spec_source_graphic(&self) -> Surface {
        self.source_surface
    }

    /// The output of the primitive rendered last, if there is one.
    pub closed spec fn spec_last_result(&self) -> Option<FilterOutput> {
        self.last_result
    }

    /// The named results, by name.
    pub closed spec fn spec_results(&self) -> Map<Seq<char>, FilterOutput> {
        table_of(self.previous_results@)
    }

    /// The region outside which the filter has no effect.
    pub closed spec fn spec_effects_region(&self) -> IRect {
        self.effects_region
    }

    /// The sizes of the open coordinate frames, the innermost last.
    pub closed spec fn spec_view_boxes(&self) -> Seq<(i32, i32)> {
        self.view_boxes@
    }

    pub open spec fn wf(&self) -> bool {
        self.spec_source_graphic().wf() && self.spec_effects_region().wf()
    }

    /// The source graphic as an input: all of its surface.
    pub open spec fn spec_source_output(&self) -> FilterOutput {
        FilterOutput {
            surface: self.spec_source_graphic(),
            bounds: self.spec_source_graphic().spec_extents(),
        }
    }

    /// What an input resolves to. A primitive without `in` takes the result
    /// before it, and the first of a chain takes the source graphic. A name
    /// resolves to the result stored under it, and to nothing else.
    pub open spec fn spec_get_input(&self, input: Option<InputView>) -> Result<
        FilterOutput,
        FilterError,
    > {
        match input {
            None => match self.spec_last_result() {
                Some(output) => Ok(output),
                None => Ok(self.spec_source_output()),
            },
            Some(InputView::SourceGraphic) => Ok(self.spec_source_output()),
            Some(InputView::FilterOutput(name)) => if self.spec_results().dom().contains(name) {
                Ok(self.spec_results()[name])
            } else {
                Err(FilterError::InputNotFound)
            },
        }
    }

    /// The environment at the start of a chain: no result yet, no frame open.
    pub fn new(source_graphic: Surface, effects_region: IRect) -> (ctx: FilterContext)
        requires
            source_graphic.wf(),
            effects_region.wf(),
        ensures
            ctx.wf(),
            ctx.spec_source_graphic() == source_graphic,
            ctx.spec_effects_region() == effects_region,
            ctx.spec_last_result().is_none(),
            ctx.spec_results() == Map::<Seq<char>, FilterOutput>::empty(),
            ctx.spec_view_boxes().len() == 0,
    {
        FilterContext {
            source_surface: source_graphic,
            last_result: None,
            previous_results: Vec::new(),
            effects_region,
            view_boxes: Vec::new(),
        }
    }

    /// The source graphic, untouched by any primitive.
    pub fn source_graphic(&self) -> (s: &Surface)
        ensures
            *s == self.spec_source_graphic(),
    {
        &self.source_surface
    }

    /// The region of the filter.
    pub fn effects_region(&self) -> (r: IRect)
        ensures
            r == self.spec_effects_region(),
    {
        self.effects_region
    }

    /// The output of the primitive rendered last.
    pub fn last_result(&self) -> (r: Option<FilterOutput>)
        ensures
            r == self.spec_last_result(),
    {
        self.last_result
    }

    /// The result stored under `name`.
    pub fn filter_output(&self, name: &String) -> (r: Option<FilterOutput>)
        ensures
            r.is_some() <==> self.spec_results().dom().contains(name@),
            r matches Some(output) ==> output == self.spec_results()[name@],
    {
        let mut i: usize = self.previous_results.len();
        assert(self.previous_results@.subrange(0, i as int) =~= self.previous_results@);
        while i > 0
            invariant
                i <= self.previous_results.len(),
                self.spec_results().dom().contains(name@) <==> table_of(
                    self.previous_results@.subrange(0, i as int),
                ).dom().contains(name@),
                self.spec_results().dom().contains(name@) ==> self.spec_results()[name@]
                    == table_of(self.previous_results@.subrange(0, i as int))[name@],
            decreases i,
        {
            let ghost prefix = self.previous_results@.subrange(0, i as int);
            assert(prefix.drop_last() =~= self.previous_results@.subrange(0, i - 1));
            i = i - 1;
            if self.previous_results[i].name == *name {
                return Some(self.previous_results[i].output);
            }
        }
        None
    }

    /// Resolves the input of a primitive. The named results are only read.
    pub fn get_input(&self, input: Option<&Input>) -> (r: Result<FilterOutput, FilterError>)
        requires
            self.wf(),
        ensures
            r == self.spec_get_input(
                match input {
                    Some(i) => Some(i@),
                    None => None,
                },
            ),
    {
        match input {
            None => match self.last_result {
                Some(output) => Ok(output),
                None => Ok(self.source_output()),
            },
            Some(Input::SourceGraphic) => Ok(self.source_output()),
            Some(Input::FilterOutput(name)) => match self.filter_output(name) {
                Some(output) => Ok(output),
                None => Err(FilterError::InputNotFound),
            },
        }
    }

    fn source_output(&self) -> (r: FilterOutput)
        requires
            self.wf(),
        ensures
            r == self.spec_source_output(),
    {
        FilterOutput {
            surface: self.source_surface,
            bounds: IRect::from_size(self.source_surface.width, self.source_surface.height),
        }
    }

    /// Takes in what a primitive has produced: it is the last result from
    /// now on, and where it has a name it is the result of that name,
    /// in place of any earlier one.
    pub fn store_result(&mut self, result: FilterResult)
        requires
            old(self).wf(),
        ensures
            final(self).wf(),
            final(self).spec_last_result() == Some(result.output),
            final(self).spec_results() == match result.name {
                Some(name) => old(self).spec_results().insert(name@, result.output),
                None => old(self).spec_results(),
            },
            final(self).spec_source_graphic() == old(self).spec_source_graphic(),
            final(self).spec_effects_region() == old(self).spec_effects_region(),
            final(self).spec_view_boxes() == old(self).spec_view_boxes(),
    {
        let FilterResult { name, output } = result;
        if let Some(name) = name {
            let ghost before = self.previous_results@;
            let entry = NamedOutput { name, output };
            self.previous_results.push(entry);
            assert(self.previous_results@.drop_last() =~= before);
        }
        self.last_result = Some(output);
    }

    /// Opens a coordinate frame of the given size.
    pub fn push_view_box(&mut self, width: i32, height: i32) -> (params: ViewParams)
        ensures
            final(self).spec_view_boxes() == old(self).spec_view_boxes().push((width, height)),
            params.spec_depth() == old(self).spec_view_boxes().len() + 1,
            final(self).spec_source_graphic() == old(self).spec_source_graphic(),
            final(self).spec_effects_region() == old(self).spec_effects_region(),
            final(self).spec_last_result() == old(self).spec_last_result(),
            final(self).spec_results() == old(self).spec_results(),
    {
        self.view_boxes.push((width, height));
        ViewParams { depth: self.view_boxes.len() }
    }

    /// Closes the frame that the handle stands for, and with it any frame
    /// opened after it that is still open.
    pub fn pop_view_box(&mut self, params: ViewParams)
        ensures
            final(self).spec_view_boxes() == if 0 < params.spec_depth() <= old(
                self,
            ).spec_view_boxes().len() {
                old(self).spec_view_boxes().subrange(0, params.spec_depth() - 1)
            } else {
                old(self).spec_view_boxes()
            },
            final(self).spec_source_graphic() == old(self).spec_source_graphic(),
            final(self).spec_effects_region() == old(self).spec_effects_region(),
            final(self).spec_last_result() == old(self).spec_last_result(),
            final(self).spec_results() == old(self).spec_results(),
    {
        if 0 < params.depth && params.depth <= self.view_boxes.len() {
            self.view_boxes.truncate(params.depth - 1);
        }
    }

    /// The size of the innermost open frame.
    pub fn view_box(&self) -> (r: Option<(i32, i32)>)
        ensures
            r == if self.spec_view_boxes().len() > 0 {
                Some(self.spec_view_boxes().last())
            } else {
                None
            },
    {
        let n: usize = self.view_boxes.len();
        if n > 0 {
            Some(self.view_boxes[n - 1])
        } else {
            None
        }
    }
}

impl ViewParams {
    /// How many frames were open once this one was.
    pub closed spec fn spec_depth(&self) -> int {
        self.depth as int
    }
}

} // verus!
