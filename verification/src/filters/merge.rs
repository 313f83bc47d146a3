//! The `feMerge` filter primitive and its `feMergeNode` children.

use vstd::prelude::*;
use crate::attributes::{Attribute, Property};
use crate::error::NodeError;
use crate::filters::context::FilterContext;
use crate::filters::error::FilterError;
use crate::filters::input::{Input, InputView};
use crate::filters::{name_view, spec_result_name, Filter, Pending, Primitive, Rendering, Step};
use crate::node::{NodeImpl, NodeType, Tree};
use crate::rect::IRect;

verus! {

/// The `feMerge` filter primitive.
#[derive(Clone, Debug, PartialEq, Eq)]
pub struct Merge {
    pub base: Primitive,
}

/// The `<feMergeNode>` element.
#[derive(Clone, Debug, PartialEq, Eq)]
pub struct MergeNode {
    pub in_: Option<Input>,
}

/// The input that a merge node has after it was given the attributes
/// `pbag`, and whether they were accepted. The attributes are read in
/// order. Each `in` replaces the input; the first `in` whose text is no
/// reference ends the reading with an error and leaves the input as it was
/// then.
pub open spec fn spec_merge_node_atts(before: Option<InputView>, pbag: Seq<Property>) -> (
    Option<InputView>,
    Result<(), NodeError>,
)
    decreases pbag.len(),
{
    if pbag.len() == 0 {
        (before, Ok(()))
    } else {
        let (input, accepted) = spec_merge_node_atts(before, pbag.drop_last());
        if accepted.is_err() || pbag.last().attr != Attribute::In {
            (input, accepted)
        } else {
            match Input::spec_parse(pbag.last().value@) {
                Ok(i) => (Some(i), Ok(())),
                Err(e) => (input, Err(NodeError { attr: Attribute::In, err: e })),
            }
        }
    }
}

/// Once an attribute was refused, the attributes after it change nothing.
proof fn merge_node_atts_stay_refused(before: Option<InputView>, pbag: Seq<Property>, k: int)
    requires
        0 <= k <= pbag.len(),
        spec_merge_node_atts(before, pbag.subrange(0, k)).1.is_err(),
    ensures
        spec_merge_node_atts(before, pbag) == spec_merge_node_atts(before, pbag.subrange(0, k)),
    decreases pbag.len(),
{
    if k == pbag.len() {
        assert(pbag.subrange(0, k) =~= pbag);
    } else {
        assert(pbag.drop_last().subrange(0, k) =~= pbag.subrange(0, k));
        merge_node_atts_stay_refused(before, pbag.drop_last(), k);
    }
}

/// The attributes of a merge node are accepted if and only if no `in`
/// among them has an empty text.
pub proof fn merge_node_atts_accepted(before: Option<InputView>, pbag: Seq<Property>)
    ensures
        spec_merge_node_atts(before, pbag).1.is_ok() <==> forall|i: int|
            0 <= i < pbag.len() && (#[trigger] pbag[i]).attr == Attribute::In ==> pbag[i].value@.len()
                > 0,
    decreases pbag.len(),
{
    if pbag.len() > 0 {
        let rest = pbag.drop_last();
        merge_node_atts_accepted(before, rest);
        assert(forall|i: int| 0 <= i < rest.len() ==> rest[i] == pbag[i]);
        if spec_merge_node_atts(before, pbag).1.is_ok() {
            assert forall|i: int|
                0 <= i < pbag.len() && (#[trigger] pbag[i]).attr == Attribute::In implies pbag[i].value@.len()
                > 0 by {
                if i < rest.len() {
                    assert(rest[i] == pbag[i]);
                }
            }
        } else {
            if spec_merge_node_atts(before, rest).1.is_ok() {
                assert(pbag[pbag.len() - 1].attr == Attribute::In);
            } else {
                let i = choose|i: int|
                    0 <= i < rest.len() && (#[trigger] rest[i]).attr == Attribute::In
                        && rest[i].value@.len() == 0;
                assert(pbag[i] == rest[i]);
            }
        }
    }
}

/// What a merge node adds to the rendering of its parent: its input is
/// resolved and, from linear light, either starts the accumulator or is
/// painted over it.
pub open spec fn spec_render_merge_node(
    input: Option<InputView>,
    ctx: &FilterContext,
    bounds: IRect,
    has_output: bool,
) -> Result<Step, FilterError> {
    match ctx.spec_get_input(input) {
        Ok(output) => Ok(
            if has_output {
                Step::PaintOver { input: output.surface, bounds }
            } else {
                Step::Linearize { input: output.surface, bounds }
            },
        ),
        Err(e) => Err(e),
    }
}

/// The inputs of the merge nodes among `children`, in order. Children of
/// other kinds are passed over.
pub open spec fn spec_merge_inputs(tree: &Tree, children: Seq<usize>) -> Seq<Option<InputView>>
    decreases children.len(),
{
    if children.len() == 0 {
        Seq::empty()
    } else {
        let rest = spec_merge_inputs(tree, children.drop_last());
        match tree.spec_impl(children.last() as int) {
            NodeImpl::MergeNode(merge_node) => rest.push(merge_node.spec_in()),
            _ => rest,
        }
    }
}

/// The steps that fold `inputs` into the accumulator from left to right,
/// and the error that ended the fold, if one did: the first input that
/// does not resolve ends it, and the steps are then those of the inputs
/// before it.
pub open spec fn spec_merge_fold(
    ctx: &FilterContext,
    bounds: IRect,
    inputs: Seq<Option<InputView>>,
) -> (Seq<Step>, Option<FilterError>)
    decreases inputs.len(),
{
    if inputs.len() == 0 {
        (Seq::empty(), None)
    } else {
        let (steps, failed) = spec_merge_fold(ctx, bounds, inputs.drop_last());
        if failed.is_some() {
            (steps, failed)
        } else {
            match spec_render_merge_node(inputs.last(), ctx, bounds, steps.len() > 0) {
                Ok(step) => (steps.push(step), None),
                Err(e) => (steps, Some(e)),
            }
        }
    }
}

/// The rendering of a merge with the given inputs. After the fold the
/// accumulator goes back to display colour. A merge without inputs is a
/// transparent surface of the size of the source graphic.
pub open spec fn spec_render_merge(
    base: Primitive,
    ctx: &FilterContext,
    inputs: Seq<Option<InputView>>,
) -> (Seq<Step>, Result<Pending, FilterError>) {
    let bounds = base.spec_get_bounds(ctx);
    let (steps, failed) = spec_merge_fold(ctx, bounds, inputs);
    match failed {
        Some(e) => (steps, Err(e)),
        None => (
            if steps.len() == 0 {
                seq![
                    Step::Transparent {
                        width: ctx.spec_source_graphic().width,
                        height: ctx.spec_source_graphic().height,
                    },
                ]
            } else {
                steps.push(Step::Unlinearize { bounds })
            },
            Ok(Pending { name: base.result, bounds }),
        ),
    }
}

/// Once an input did not resolve, the inputs after it change nothing.
proof fn merge_fold_stays_failed(
    ctx: &FilterContext,
    bounds: IRect,
    inputs: Seq<Option<InputView>>,
    k: int,
)
    requires
        0 <= k <= inputs.len(),
        spec_merge_fold(ctx, bounds, inputs.subrange(0, k)).1.is_some(),
    ensures
        spec_merge_fold(ctx, bounds, inputs) == spec_merge_fold(ctx, bounds, inputs.subrange(0, k)),
    decreases inputs.len(),
{
    if k == inputs.len() {
        assert(inputs.subrange(0, k) =~= inputs);
    } else {
        assert(inputs.drop_last().subrange(0, k) =~= inputs.subrange(0, k));
        merge_fold_stays_failed(ctx, bounds, inputs.drop_last(), k);
    }
}

/// The inputs of the first children are the first inputs of all children.
proof fn merge_inputs_of_prefix(tree: &Tree, children: Seq<usize>, k: int)
    requires
        0 <= k <= children.len(),
    ensures
        spec_merge_inputs(tree, children.subrange(0, k)).len() <= spec_merge_inputs(
            tree,
            children,
        ).len(),
        spec_merge_inputs(tree, children.subrange(0, k)) == spec_merge_inputs(
            tree,
            children,
        ).subrange(0, spec_merge_inputs(tree, children.subrange(0, k)).len() as int),
    decreases children.len(),
{
    if k == children.len() {
        assert(children.subrange(0, k) =~= children);
        assert(spec_merge_inputs(tree, children) =~= spec_merge_inputs(tree, children).subrange(
            0,
            spec_merge_inputs(tree, children).len() as int,
        ));
    } else {
        assert(children.drop_last().subrange(0, k) =~= children.subrange(0, k));
        merge_inputs_of_prefix(tree, children.drop_last(), k);
        let part = spec_merge_inputs(tree, children.subrange(0, k));
        let rest = spec_merge_inputs(tree, children.drop_last());
        assert(part =~= spec_merge_inputs(tree, children).subrange(0, part.len() as int));
    }
}

/// The step that the input at place `j` of a merge contributes, where it
/// resolves: the first input starts the accumulator, every later one is
/// painted over it.
pub open spec fn spec_merge_step(
    ctx: &FilterContext,
    bounds: IRect,
    inputs: Seq<Option<InputView>>,
    j: int,
) -> Step {
    let surface = ctx.spec_get_input(inputs[j]).unwrap().surface;
    if j == 0 {
        Step::Linearize { input: surface, bounds }
    } else {
        Step::PaintOver { input: surface, bounds }
    }
}

/// The fold of a merge takes the inputs strictly in their order, one step
/// for each, up to the first input that does not resolve. There it ends
/// with `InputNotFound`, and no step stands for that input or for one
/// after it.
pub proof fn merge_fold_in_order(
    ctx: &FilterContext,
    bounds: IRect,
    inputs: Seq<Option<InputView>>,
    k: int,
)
    requires
        0 <= k <= inputs.len(),
        forall|j: int| 0 <= j < k ==> ctx.spec_get_input(#[trigger] inputs[j]).is_ok(),
        k < inputs.len() ==> ctx.spec_get_input(inputs[k]).is_err(),
    ensures
        spec_merge_fold(ctx, bounds, inputs).0.len() == k,
        forall|j: int|
            0 <= j < k ==> #[trigger] spec_merge_fold(ctx, bounds, inputs).0[j] == spec_merge_step(
                ctx,
                bounds,
                inputs,
                j,
            ),
        spec_merge_fold(ctx, bounds, inputs).1 == if k < inputs.len() {
            Some(FilterError::InputNotFound)
        } else {
            None
        },
    decreases inputs.len(),
{
    if inputs.len() > 0 {
        let rest = inputs.drop_last();
        assert(forall|j: int| 0 <= j < rest.len() ==> rest[j] == inputs[j]);
        if k == inputs.len() {
            merge_fold_in_order(ctx, bounds, rest, k - 1);
            assert(ctx.spec_get_input(inputs[k - 1]).is_ok());
        } else {
            merge_fold_in_order(ctx, bounds, rest, k);
        }
        assert forall|j: int| 0 <= j < k implies #[trigger] spec_merge_fold(ctx, bounds, inputs).0[j]
            == spec_merge_step(ctx, bounds, inputs, j) by {
            if j < rest.len() {
                assert(spec_merge_fold(ctx, bounds, rest).0[j] == spec_merge_step(
                    ctx,
                    bounds,
                    rest,
                    j,
                ));
            }
        }
    }
}

/// A merge without merge nodes is a transparent surface of the size of the
/// source graphic. No step of it converts colours, so none of it can fail
/// on a colour conversion.
pub proof fn merge_of_nothing(base: Primitive, ctx: &FilterContext)
    ensures
        spec_render_merge(base, ctx, Seq::empty()) == (
            seq![
                Step::Transparent {
                    width: ctx.spec_source_graphic().width,
                    height: ctx.spec_source_graphic().height,
                },
            ],
            Ok::<Pending, FilterError>(
                Pending { name: base.result, bounds: base.spec_get_bounds(ctx) },
            ),
        ),
        forall|status: crate::filters::error::Status|
            (#[trigger] spec_render_merge(base, ctx, Seq::empty()).0[0].spec_failure(status))
                == FilterError::OutputSurfaceCreation(status),
{
}

/// Where no child of a merge is a merge node, the merge has no inputs.
pub proof fn merge_inputs_of_other_children(tree: &Tree, children: Seq<usize>)
    requires
        forall|j: int|
            0 <= j < children.len() ==> !(tree.spec_impl(#[trigger] children[j] as int) is MergeNode),
    ensures
        spec_merge_inputs(tree, children) == Seq::<Option<InputView>>::empty(),
    decreases children.len(),
{
    if children.len() > 0 {
        let rest = children.drop_last();
        assert(forall|j: int| 0 <= j < rest.len() ==> rest[j] == children[j]);
        merge_inputs_of_other_children(tree, rest);
        assert(!(tree.spec_impl(children[children.len() - 1] as int) is MergeNode));
    }
}

/// A merge of one input that resolves is that input taken to linear light
/// and back, inside the bounds of the primitive.
pub proof fn merge_of_one(base: Primitive, ctx: &FilterContext, input: Option<InputView>)
    requires
        ctx.spec_get_input(input).is_ok(),
    ensures
        spec_render_merge(base, ctx, seq![input]) == (
            seq![
                Step::Linearize {
                    input: ctx.spec_get_input(input).unwrap().surface,
                    bounds: base.spec_get_bounds(ctx),
                },
                Step::Unlinearize { bounds: base.spec_get_bounds(ctx) },
            ],
            Ok::<Pending, FilterError>(
                Pending { name: base.result, bounds: base.spec_get_bounds(ctx) },
            ),
        ),
{
    let bounds = base.spec_get_bounds(ctx);
    let inputs = seq![input];
    assert(inputs[0] == input);
    merge_fold_in_order(ctx, bounds, inputs, 1);
    let steps = spec_merge_fold(ctx, bounds, inputs).0;
    assert(steps[0] == spec_merge_step(ctx, bounds, inputs, 0));
    assert(steps.push(Step::Unlinearize { bounds }) =~= seq![
        Step::Linearize { input: ctx.spec_get_input(input).unwrap().surface, bounds },
        Step::Unlinearize { bounds },
    ]);
}

/// A merge whose inputs all resolve composites them in document order: the
/// first starts the accumulator, each later one is painted over it with
/// source-over, and the accumulator is taken back to display colour last.
/// Whichever of these steps the back end refuses, the conversion back
/// included, the merge fails as a bad input surface.
pub proof fn merge_in_document_order(
    base: Primitive,
    ctx: &FilterContext,
    inputs: Seq<Option<InputView>>,
)
    requires
        inputs.len() > 0,
        forall|j: int| 0 <= j < inputs.len() ==> ctx.spec_get_input(#[trigger] inputs[j]).is_ok(),
    ensures
        spec_render_merge(base, ctx, inputs).0.len() == inputs.len() + 1,
        forall|j: int|
            0 <= j < inputs.len() ==> #[trigger] spec_render_merge(base, ctx, inputs).0[j]
                == spec_merge_step(ctx, base.spec_get_bounds(ctx), inputs, j),
        spec_render_merge(base, ctx, inputs).0[inputs.len() as int] == (Step::Unlinearize {
            bounds: base.spec_get_bounds(ctx),
        }),
        spec_render_merge(base, ctx, inputs).1 == Ok::<Pending, FilterError>(
            Pending { name: base.result, bounds: base.spec_get_bounds(ctx) },
        ),
        forall|j: int, status: crate::filters::error::Status|
            0 <= j <= inputs.len() ==> (#[trigger] spec_render_merge(
                base,
                ctx,
                inputs,
            ).0[j].spec_failure(status)) == FilterError::BadInputSurfaceStatus(status),
{
    let bounds = base.spec_get_bounds(ctx);
    merge_fold_in_order(ctx, bounds, inputs, inputs.len() as int);
    assert forall|j: int| 0 <= j < inputs.len() implies #[trigger] spec_render_merge(
        base,
        ctx,
        inputs,
    ).0[j] == spec_merge_step(ctx, bounds, inputs, j) by {
        assert(spec_merge_fold(ctx, bounds, inputs).0[j] == spec_merge_step(
            ctx,
            bounds,
            inputs,
            j,
        ));
    }
}

/// The order of the merge nodes matters: two inputs that resolve to
/// different surfaces give one rendering in one order and another in the
/// other.
pub proof fn merge_order_matters(
    base: Primitive,
    ctx: &FilterContext,
    first: Option<InputView>,
    second: Option<InputView>,
)
    requires
        ctx.spec_get_input(first).is_ok(),
        ctx.spec_get_input(second).is_ok(),
        ctx.spec_get_input(first).unwrap().surface != ctx.spec_get_input(second).unwrap().surface,
    ensures
        spec_render_merge(base, ctx, seq![first, second]).0 != spec_render_merge(
            base,
            ctx,
            seq![second, first],
        ).0,
{
    let bounds = base.spec_get_bounds(ctx);
    let ab = seq![first, second];
    let ba = seq![second, first];
    assert(ab[0] == first && ab[1] == second);
    assert(ba[0] == second && ba[1] == first);
    merge_in_document_order(base, ctx, ab);
    merge_in_document_order(base, ctx, ba);
    assert(spec_render_merge(base, ctx, ab).0[0] == spec_merge_step(ctx, bounds, ab, 0));
    assert(spec_render_merge(base, ctx, ba).0[0] == spec_merge_step(ctx, bounds, ba, 0));
}

/// A merge with an input that does not resolve fails with `InputNotFound`.
/// Its steps are those of the inputs before the first such input: nothing
/// is composited for that input or after it, and the accumulator is never
/// taken back to display colour.
pub proof fn merge_stops_at_unknown_input(
    base: Primitive,
    ctx: &FilterContext,
    inputs: Seq<Option<InputView>>,
    k: int,
)
    requires
        0 <= k < inputs.len(),
        forall|j: int| 0 <= j < k ==> ctx.spec_get_input(#[trigger] inputs[j]).is_ok(),
        ctx.spec_get_input(inputs[k]).is_err(),
    ensures
        spec_render_merge(base, ctx, inputs).1 == Err::<Pending, FilterError>(
            FilterError::InputNotFound,
        ),
        spec_render_merge(base, ctx, inputs).0.len() == k,
        forall|j: int|
            0 <= j < k ==> #[trigger] spec_render_merge(base, ctx, inputs).0[j] == spec_merge_step(
                ctx,
                base.spec_get_bounds(ctx),
                inputs,
                j,
            ),
{
    let bounds = base.spec_get_bounds(ctx);
    merge_fold_in_order(ctx, bounds, inputs, k);
    assert forall|j: int| 0 <= j < k implies #[trigger] spec_render_merge(base, ctx, inputs).0[j]
        == spec_merge_step(ctx, bounds, inputs, j) by {
        assert(spec_merge_fold(ctx, bounds, inputs).0[j] == spec_merge_step(
            ctx,
            bounds,
            inputs,
            j,
        ));
    }
}

/// An input resolves unless it is a name under which no result is stored.
pub proof fn input_resolves_unless_unknown(ctx: &FilterContext, input: Option<InputView>)
    ensures
        ctx.spec_get_input(input).is_err() <==> (input matches Some(InputView::FilterOutput(name))
            && !ctx.spec_results().dom().contains(name)),
        ctx.spec_get_input(input).is_err() ==> ctx.spec_get_input(input) == Err::<
            crate::filters::context::FilterOutput,
            FilterError,
        >(FilterError::InputNotFound),
{
}

impl Merge {
    /// Constructs a new `Merge` with empty properties.
    pub fn new() -> (m: Merge)
        ensures
            m.base.subregion.is_none(),
            m.base.result.is_none(),
    {
        Merge { base: Primitive::new() }
    }

    /// Takes the attributes of the element: those of every primitive.
    pub fn set_atts(&mut self, pbag: &Vec<Property>) -> (r: Result<(), NodeError>)
        ensures
            r.is_ok(),
            final(self).base.subregion == old(self).base.subregion,
            name_view(final(self).base.result) == spec_result_name(
                name_view(old(self).base.result),
                pbag@,
            ),
    {
        self.base.set_atts(pbag)
    }
}

impl MergeNode {
    /// The input of the node, by its view.
    pub open spec fn spec_in(&self) -> Option<InputView> {
        match self.in_ {
            Some(i) => Some(i@),
            None => None,
        }
    }

    /// Constructs a new `MergeNode` with empty properties.
    pub fn new() -> (n: MergeNode)
        ensures
            n.in_.is_none(),
    {
        MergeNode { in_: None }
    }

    /// Takes the attributes of the element: `in` names the input.
    pub fn set_atts(&mut self, pbag: &Vec<Property>) -> (r: Result<(), NodeError>)
        ensures
            (final(self).spec_in(), r) == spec_merge_node_atts(old(self).spec_in(), pbag@),
    {
        let mut i: usize = 0;
        assert(pbag@.subrange(0, 0) =~= Seq::<Property>::empty());
        while i < pbag.len()
            invariant
                i <= pbag.len(),
                (self.spec_in(), Ok::<(), NodeError>(())) == spec_merge_node_atts(
                    old(self).spec_in(),
                    pbag@.subrange(0, i as int),
                ),
            decreases pbag.len() - i,
        {
            assert(pbag@.subrange(0, i + 1).drop_last() =~= pbag@.subrange(0, i as int));
            if pbag[i].attr == Attribute::In {
                match Input::parse(pbag[i].value.as_str()) {
                    Ok(input) => {
                        self.in_ = Some(input);
                    },
                    Err(e) => {
                        proof {
                            merge_node_atts_stay_refused(old(self).spec_in(), pbag@, i + 1);
                        }
                        return Err(NodeError { attr: Attribute::In, err: e });
                    },
                }
            }
            i = i + 1;
        }
        assert(pbag@.subrange(0, i as int) =~= pbag@);
        Ok(())
    }

    /// The step by which this node enters the rendering of its parent.
    /// `has_output` says whether an earlier node has started the
    /// accumulator.
    pub fn render(&self, ctx: &FilterContext, bounds: IRect, has_output: bool) -> (r: Result<
        Step,
        FilterError,
    >)
        requires
            ctx.wf(),
        ensures
            r == spec_render_merge_node(self.spec_in(), ctx, bounds, has_output),
    {
        let resolved = match &self.in_ {
            Some(input) => ctx.get_input(Some(input)),
            None => ctx.get_input(None),
        };
        match resolved {
            Ok(output) => {
                if has_output {
                    Ok(Step::PaintOver { input: output.surface, bounds })
                } else {
                    Ok(Step::Linearize { input: output.surface, bounds })
                }
            },
            Err(e) => Err(e),
        }
    }
}

/// A copy of an optional name.
fn clone_name(name: &Option<String>) -> (r: Option<String>)
    ensures
        r == *name,
{
    match name {
        Some(s) => Some(s.clone()),
        None => None,
    }
}

impl Filter for Merge {
    open spec fn spec_base(&self) -> Primitive {
        self.base
    }

    /// Folds the merge nodes among the children of `node`, in document
    /// order, into one surface.
    fn render(&self, tree: &Tree, node: usize, ctx: &FilterContext) -> (r: Rendering)
        ensures
            (r.steps@, r.outcome) == spec_render_merge(
                self.base,
                ctx,
                spec_merge_inputs(tree, tree.spec_children(node as int)),
            ),
    {
        let bounds = self.base.get_bounds(ctx);
        let children = tree.children(node);
        let mut steps: Vec<Step> = Vec::new();
        let mut i: usize = 0;
        assert(children@.subrange(0, 0) =~= Seq::<usize>::empty());
        while i < children.len()
            invariant
                i <= children.len(),
                ctx.wf(),
                children@ == tree.spec_children(node as int),
                bounds == self.base.spec_get_bounds(ctx),
                forall|j: int| 0 <= j < children@.len() ==> children@[j] < tree.spec_len(),
                (steps@, None::<FilterError>) == spec_merge_fold(
                    ctx,
                    bounds,
                    spec_merge_inputs(tree, children@.subrange(0, i as int)),
                ),
            decreases children.len() - i,
        {
            let ghost seen = spec_merge_inputs(tree, children@.subrange(0, i as int));
            assert(children@.subrange(0, i + 1).drop_last() =~= children@.subrange(0, i as int));
            match tree.get_impl(children[i]) {
                NodeImpl::MergeNode(merge_node) => {
                    assert(seen.push(merge_node.spec_in()).drop_last() =~= seen);
                    match merge_node.render(ctx, bounds, steps.len() > 0) {
                        Ok(step) => {
                            steps.push(step);
                        },
                        Err(e) => {
                            proof {
                                let all = spec_merge_inputs(tree, children@);
                                let part = spec_merge_inputs(tree, children@.subrange(0, i + 1));
                                assert(part == seen.push(merge_node.spec_in()));
                                assert(spec_merge_fold(ctx, bounds, part) == (steps@, Some(e)));
                                merge_inputs_of_prefix(tree, children@, i + 1);
                                assert(part == all.subrange(0, seen.len() as int + 1));
                                merge_fold_stays_failed(ctx, bounds, all, seen.len() as int + 1);
                            }
                            return Rendering { steps, outcome: Err(e) };
                        },
                    }
                },
                _ => {},
            }
            i = i + 1;
        }
        assert(children@.subrange(0, i as int) =~= children@);
        if steps.len() == 0 {
            let source = ctx.source_graphic();
            steps.push(Step::Transparent { width: source.width, height: source.height });
        } else {
            steps.push(Step::Unlinearize { bounds });
        }
        Rendering { steps, outcome: Ok(Pending { name: clone_name(&self.base.result), bounds }) }
    }
}

/// A copy of an optional identifier, as a string of its own.
fn own_id(id: Option<&str>) -> (r: Option<String>)
    ensures
        name_view(r) == match id {
            Some(s) => Some(s@),
            None => None,
        },
{
    match id {
        Some(s) => Some(s.to_owned()),
        None => None,
    }
}

/// Returns a new `feMerge` node: the last child of `parent`, or a root
/// where there is no parent. Every node constructor takes the name of the
/// element first; this one has no use for it.
pub fn rsvg_new_filter_primitive_merge(
    _element_name: &str,
    tree: &mut Tree,
    parent: Option<usize>,
    id: Option<&str>,
) -> (node: usize)
    requires
        old(tree).wf(),
        parent matches Some(p) ==> p < old(tree).spec_len(),
    ensures
        final(tree).wf(),
        final(tree).extends(old(tree)),
        node == old(tree).spec_len(),
        final(tree).spec_len() == node + 1,
        final(tree).spec_type(node as int) == NodeType::FilterPrimitiveMerge,
        final(tree).spec_parent(node as int) == parent,
        name_view(final(tree).spec_id(node as int)) == match id {
            Some(s) => Some(s@),
            None => None,
        },
        final(tree).spec_impl(node as int) matches NodeImpl::Merge(m) && m.base.subregion.is_none()
            && m.base.result.is_none(),
        forall|n: int|
            0 <= n <= node ==> #[trigger] final(tree).spec_children(n) == if parent == Some(
                n as usize,
            ) {
                old(tree).spec_children(n).push(node)
            } else {
                old(tree).spec_children(n)
            },
{
    let filter = Merge::new();
    tree.add(NodeType::FilterPrimitiveMerge, parent, own_id(id), NodeImpl::Merge(filter))
}

/// Returns a new `feMergeNode` node: the last child of `parent`, or a
/// root where there is no parent.
pub fn rsvg_new_filter_primitive_merge_node(
    _element_name: &str,
    tree: &mut Tree,
    parent: Option<usize>,
    id: Option<&str>,
) -> (node: usize)
    requires
        old(tree).wf(),
        parent matches Some(p) ==> p < old(tree).spec_len(),
    ensures
        final(tree).wf(),
        final(tree).extends(old(tree)),
        node == old(tree).spec_len(),
        final(tree).spec_len() == node + 1,
        final(tree).spec_type(node as int) == NodeType::FilterPrimitiveMergeNode,
        final(tree).spec_parent(node as int) == parent,
        name_view(final(tree).spec_id(node as int)) == match id {
            Some(s) => Some(s@),
            None => None,
        },
        final(tree).spec_impl(node as int) matches NodeImpl::MergeNode(m) && m.in_.is_none(),
        forall|n: int|
            0 <= n <= node ==> #[trigger] final(tree).spec_children(n) == if parent == Some(
                n as usize,
            ) {
                old(tree).spec_children(n).push(node)
            } else {
                old(tree).spec_children(n)
            },
{
    let filter = MergeNode::new();
    tree.add(NodeType::FilterPrimitiveMergeNode, parent, own_id(id), NodeImpl::MergeNode(filter))
}

} // verus!
