use rsvg_internals::attributes::{Attribute, Property};
use rsvg_internals::filters::context::{FilterContext, FilterOutput, FilterResult, Surface};
use rsvg_internals::filters::error::{FilterError, Status};
use rsvg_internals::filters::input::Input;
use rsvg_internals::filters::merge::{
    rsvg_new_filter_primitive_merge, rsvg_new_filter_primitive_merge_node, Merge, MergeNode,
};
use rsvg_internals::filters::{Filter, Pending, Performed, Primitive, Rendering, Step};
use rsvg_internals::node::{NodeImpl, NodeType, Tree};
use rsvg_internals::rect::IRect;

const REGION: IRect = IRect { x0: 2, y0: 3, x1: 38, y1: 27 };

fn source() -> Surface {
    Surface { id: 0, width: 40, height: 30 }
}

fn surface(id: u64) -> Surface {
    Surface { id, width: 40, height: 30 }
}

/// A context in which the results `a` (surface 1) and `b` (surface 2) are
/// stored, `b` last.
fn context() -> FilterContext {
    let mut ctx = FilterContext::new(source(), REGION);
    for (name, id) in [("a", 1), ("b", 2)] {
        ctx.store_result(FilterResult {
            name: Some(name.to_string()),
            output: FilterOutput { surface: surface(id), bounds: IRect { x0: 0, y0: 0, x1: 1, y1: 1 } },
        });
    }
    ctx
}

/// A tree with one merge whose merge nodes have the given `in` texts; `None`
/// is a merge node without `in`.
fn merge_of(inputs: &[Option<&str>]) -> (Tree, usize) {
    let mut tree = Tree::new();
    let filter = tree.add(NodeType::Filter, None, None, NodeImpl::Other);
    let merge = rsvg_new_filter_primitive_merge("feMerge", &mut tree, Some(filter), None);
    for input in inputs {
        let node = rsvg_new_filter_primitive_merge_node("feMergeNode", &mut tree, Some(merge), None);
        if let Some(text) = input {
            let atts = vec![Property { attr: Attribute::In, value: text.to_string() }];
            assert_eq!(tree.set_atts(node, &atts), Ok(()));
        }
    }
    (tree, merge)
}

fn render(tree: &Tree, merge: usize, ctx: &FilterContext) -> Rendering {
    match tree.get_impl(merge) {
        NodeImpl::Merge(m) => m.render(tree, merge, ctx),
        other => panic!("not a merge: {:?}", other),
    }
}

fn done(name: Option<&str>, bounds: IRect) -> Result<Pending, FilterError> {
    Ok(Pending { name: name.map(|s| s.to_string()), bounds })
}

#[test]
fn merge_without_merge_nodes_is_transparent() {
    let (tree, merge) = merge_of(&[]);
    let r = render(&tree, merge, &context());
    assert_eq!(r.steps, vec![Step::Transparent { width: 40, height: 30 }]);
    assert_eq!(r.outcome, done(None, REGION));
}

#[test]
fn merge_with_only_other_children_is_transparent() {
    let (mut tree, merge) = merge_of(&[]);
    tree.add(NodeType::Chars, Some(merge), None, NodeImpl::Other);
    tree.add(NodeType::Group, Some(merge), None, NodeImpl::Other);
    rsvg_new_filter_primitive_merge("feMerge", &mut tree, Some(merge), None);
    let r = render(&tree, merge, &context());
    assert_eq!(r.steps, vec![Step::Transparent { width: 40, height: 30 }]);
    assert_eq!(r.outcome, done(None, REGION));
}

#[test]
fn merge_of_one_node_goes_to_linear_light_and_back() {
    let (tree, merge) = merge_of(&[Some("a")]);
    let r = render(&tree, merge, &context());
    assert_eq!(
        r.steps,
        vec![
            Step::Linearize { input: surface(1), bounds: REGION },
            Step::Unlinearize { bounds: REGION },
        ]
    );
    assert_eq!(r.outcome, done(None, REGION));
}

#[test]
fn merge_node_without_in_takes_the_last_result() {
    let (tree, merge) = merge_of(&[None]);
    let r = render(&tree, merge, &context());
    assert_eq!(r.steps[0], Step::Linearize { input: surface(2), bounds: REGION });
    let fresh = FilterContext::new(source(), REGION);
    let r = render(&tree, merge, &fresh);
    assert_eq!(r.steps[0], Step::Linearize { input: source(), bounds: REGION });
}

#[test]
fn merge_composites_in_document_order() {
    let (tree, merge) = merge_of(&[Some("a"), Some("SourceGraphic"), Some("b"), None]);
    let r = render(&tree, merge, &context());
    assert_eq!(
        r.steps,
        vec![
            Step::Linearize { input: surface(1), bounds: REGION },
            Step::PaintOver { input: source(), bounds: REGION },
            Step::PaintOver { input: surface(2), bounds: REGION },
            Step::PaintOver { input: surface(2), bounds: REGION },
            Step::Unlinearize { bounds: REGION },
        ]
    );
    assert_eq!(r.outcome, done(None, REGION));
}

#[test]
fn merge_passes_over_children_of_other_kinds() {
    let mut tree = Tree::new();
    let merge = rsvg_new_filter_primitive_merge("feMerge", &mut tree, None, None);
    tree.add(NodeType::Chars, Some(merge), None, NodeImpl::Other);
    tree.add(
        NodeType::FilterPrimitiveMergeNode,
        Some(merge),
        None,
        NodeImpl::MergeNode(MergeNode { in_: Some(Input::FilterOutput("b".to_string())) }),
    );
    tree.add(NodeType::Group, Some(merge), None, NodeImpl::Other);
    let elsewhere = tree.add(NodeType::Group, None, None, NodeImpl::Other);
    tree.add(
        NodeType::FilterPrimitiveMergeNode,
        Some(elsewhere),
        None,
        NodeImpl::MergeNode(MergeNode { in_: Some(Input::FilterOutput("a".to_string())) }),
    );
    tree.add(
        NodeType::FilterPrimitiveMergeNode,
        Some(merge),
        None,
        NodeImpl::MergeNode(MergeNode { in_: Some(Input::FilterOutput("a".to_string())) }),
    );
    let r = render(&tree, merge, &context());
    assert_eq!(
        r.steps,
        vec![
            Step::Linearize { input: surface(2), bounds: REGION },
            Step::PaintOver { input: surface(1), bounds: REGION },
            Step::Unlinearize { bounds: REGION },
        ]
    );
}

#[test]
fn merge_order_changes_the_rendering() {
    let (ab, merge_ab) = merge_of(&[Some("a"), Some("b")]);
    let (ba, merge_ba) = merge_of(&[Some("b"), Some("a")]);
    let ctx = context();
    let r_ab = render(&ab, merge_ab, &ctx);
    let r_ba = render(&ba, merge_ba, &ctx);
    assert_ne!(r_ab.steps, r_ba.steps);
    assert_eq!(
        r_ba.steps,
        vec![
            Step::Linearize { input: surface(2), bounds: REGION },
            Step::PaintOver { input: surface(1), bounds: REGION },
            Step::Unlinearize { bounds: REGION },
        ]
    );
}

#[test]
fn merge_with_unknown_input_fails_before_any_step() {
    let (tree, merge) = merge_of(&[Some("nowhere"), Some("a")]);
    let r = render(&tree, merge, &context());
    assert_eq!(r.steps, vec![]);
    assert_eq!(r.outcome, Err(FilterError::InputNotFound));
}

#[test]
fn merge_with_unknown_input_stops_there() {
    let (tree, merge) = merge_of(&[Some("a"), Some("b"), Some("nowhere"), Some("a")]);
    let r = render(&tree, merge, &context());
    assert_eq!(
        r.steps,
        vec![
            Step::Linearize { input: surface(1), bounds: REGION },
            Step::PaintOver { input: surface(2), bounds: REGION },
        ]
    );
    assert_eq!(r.outcome, Err(FilterError::InputNotFound));
}

#[test]
fn merge_result_has_the_declared_name_and_the_bounds_of_the_subregion() {
    let (mut tree, merge) = merge_of(&[Some("a")]);
    let atts = vec![Property { attr: Attribute::Result, value: "merged".to_string() }];
    assert_eq!(tree.set_atts(merge, &atts), Ok(()));
    let m = match tree.get_impl(merge) {
        NodeImpl::Merge(m) => Merge {
            base: Primitive {
                subregion: Some(IRect { x0: 0, y0: 10, x1: 20, y1: 100 }),
                result: m.base.result.clone(),
            },
        },
        other => panic!("not a merge: {:?}", other),
    };
    let bounds = IRect { x0: 2, y0: 10, x1: 20, y1: 27 };
    let r = m.render(&tree, merge, &context());
    assert_eq!(
        r.steps,
        vec![Step::Linearize { input: surface(1), bounds }, Step::Unlinearize { bounds }]
    );
    assert_eq!(r.outcome, done(Some("merged"), bounds));
}

#[test]
fn primitive_bounds_default_to_the_filter_region() {
    let ctx = context();
    assert_eq!(Primitive::new().get_bounds(&ctx), REGION);
    let outside = Primitive { subregion: Some(IRect { x0: 50, y0: 50, x1: 60, y1: 60 }), result: None };
    let bounds = outside.get_bounds(&ctx);
    assert!(bounds.is_empty());
    assert_eq!(bounds, IRect { x0: 50, y0: 50, x1: 50, y1: 50 });
}

#[test]
fn merge_node_render_starts_or_paints() {
    let ctx = context();
    let node = MergeNode { in_: Some(Input::FilterOutput("a".to_string())) };
    assert_eq!(
        node.render(&ctx, REGION, false),
        Ok(Step::Linearize { input: surface(1), bounds: REGION })
    );
    assert_eq!(
        node.render(&ctx, REGION, true),
        Ok(Step::PaintOver { input: surface(1), bounds: REGION })
    );
    let lost = MergeNode { in_: Some(Input::FilterOutput("c".to_string())) };
    assert_eq!(lost.render(&ctx, REGION, false), Err(FilterError::InputNotFound));
    assert_eq!(lost.render(&ctx, REGION, true), Err(FilterError::InputNotFound));
}

#[test]
fn step_failures_by_kind() {
    let status = Status { code: 1 };
    let input = surface(1);
    assert_eq!(
        Step::Linearize { input, bounds: REGION }.failure(status),
        FilterError::BadInputSurfaceStatus(status)
    );
    assert_eq!(
        Step::PaintOver { input, bounds: REGION }.failure(status),
        FilterError::BadInputSurfaceStatus(status)
    );
    assert_eq!(
        Step::Unlinearize { bounds: REGION }.failure(status),
        FilterError::BadInputSurfaceStatus(status)
    );
    assert_eq!(
        Step::Transparent { width: 1, height: 1 }.failure(status),
        FilterError::OutputSurfaceCreation(status)
    );
}

#[test]
fn conclude_wraps_the_accumulator() {
    let (tree, merge) = merge_of(&[Some("a"), Some("b")]);
    let r = render(&tree, merge, &context());
    let result = r.conclude(Performed::Done { accumulator: Some(surface(9)) });
    assert_eq!(
        result,
        Ok(FilterResult { name: None, output: FilterOutput { surface: surface(9), bounds: REGION } })
    );
}

#[test]
fn conclude_reports_the_step_that_failed() {
    let (tree, merge) = merge_of(&[Some("a"), Some("b")]);
    let ctx = context();
    let status = Status { code: 7 };
    assert_eq!(
        render(&tree, merge, &ctx).conclude(Performed::Failed { step: 1, status }),
        Err(FilterError::BadInputSurfaceStatus(status))
    );
    assert_eq!(
        render(&tree, merge, &ctx).conclude(Performed::Failed { step: 2, status }),
        Err(FilterError::BadInputSurfaceStatus(status))
    );
    let (empty, merge) = merge_of(&[]);
    assert_eq!(
        render(&empty, merge, &ctx).conclude(Performed::Failed { step: 0, status }),
        Err(FilterError::OutputSurfaceCreation(status))
    );
}

#[test]
fn conclude_of_an_unknown_input() {
    let (tree, merge) = merge_of(&[Some("a"), Some("nowhere")]);
    let ctx = context();
    assert_eq!(
        render(&tree, merge, &ctx).conclude(Performed::Done { accumulator: Some(surface(9)) }),
        Err(FilterError::InputNotFound)
    );
    let status = Status { code: 3 };
    assert_eq!(
        render(&tree, merge, &ctx).conclude(Performed::Failed { step: 0, status }),
        Err(FilterError::BadInputSurfaceStatus(status))
    );
    let (tree, merge) = merge_of(&[Some("nowhere")]);
    assert_eq!(
        render(&tree, merge, &ctx).conclude(Performed::Done { accumulator: None }),
        Err(FilterError::InputNotFound)
    );
}

#[test]
fn a_chain_threads_its_results_through_the_context() {
    let mut ctx = FilterContext::new(source(), REGION);
    let (first, merge) = merge_of(&[None]);
    let mut named = match first.get_impl(merge) {
        NodeImpl::Merge(m) => m.clone(),
        other => panic!("not a merge: {:?}", other),
    };
    named.base.result = Some("one".to_string());
    let r = named.render(&first, merge, &ctx);
    assert_eq!(r.steps[0], Step::Linearize { input: source(), bounds: REGION });
    let result = r.conclude(Performed::Done { accumulator: Some(surface(5)) }).unwrap();
    ctx.store_result(result);
    let (second, merge) = merge_of(&[Some("one"), None, Some("SourceGraphic")]);
    let r = render(&second, merge, &ctx);
    assert_eq!(
        r.steps,
        vec![
            Step::Linearize { input: surface(5), bounds: REGION },
            Step::PaintOver { input: surface(5), bounds: REGION },
            Step::PaintOver { input: source(), bounds: REGION },
            Step::Unlinearize { bounds: REGION },
        ]
    );
}

#[test]
fn a_refused_unlinearize_is_a_bad_input_surface() {
    let ctx = context();
    let status = Status { code: 11 };
    for inputs in [vec![Some("a")], vec![Some("a"), Some("b")], vec![None, Some("SourceGraphic"), Some("b")]] {
        let (tree, merge) = merge_of(&inputs);
        let r = render(&tree, merge, &ctx);
        let last = r.steps.len() - 1;
        assert_eq!(r.steps[last], Step::Unlinearize { bounds: REGION });
        assert_eq!(
            r.conclude(Performed::Failed { step: last, status }),
            Err(FilterError::BadInputSurfaceStatus(status))
        );
    }
}

#[test]
fn only_a_refused_allocation_is_a_failed_creation() {
    let ctx = context();
    let status = Status { code: 1 };
    let (tree, merge) = merge_of(&[Some("a"), Some("b"), Some("a")]);
    let steps = render(&tree, merge, &ctx).steps;
    for step in 0..steps.len() {
        assert_eq!(
            render(&tree, merge, &ctx).conclude(Performed::Failed { step, status }),
            Err(FilterError::BadInputSurfaceStatus(status))
        );
    }
    let (empty, merge) = merge_of(&[]);
    assert_eq!(
        render(&empty, merge, &ctx).conclude(Performed::Failed { step: 0, status }),
        Err(FilterError::OutputSurfaceCreation(status))
    );
}
