//! The tree of element nodes.
//!
//! Nodes live in one arena and are known by their index in it. A node is
//! created after its parent, so the order of the indices is the order of the
//! document.

use vstd::prelude::*;
use crate::attributes::Property;
use crate::error::NodeError;
use crate::filters::merge::{spec_merge_node_atts, Merge, MergeNode};
use crate::filters::{name_view, spec_result_name};

verus! {

/// The kind of element that a node stands for.
#[derive(Clone, Copy, Debug, PartialEq, Eq, Structural)]
pub enum NodeType {
    Chars,
    Defs,
    Filter,
    FilterPrimitiveMerge,
    FilterPrimitiveMergeNode,
    Group,
    Svg,
}

/// What a node holds besides its place in the tree, by its kind.
#[derive(Clone, Debug, PartialEq, Eq)]
pub enum NodeImpl {
    Merge(Merge),
    MergeNode(MergeNode),
    /// A kind whose state lives outside this crate.
    Other,
}

pub struct Node {
    node_type: NodeType,
    parent: Option<usize>,
    id: Option<String>,
    node_impl: NodeImpl,
}

pub struct Tree {
    nodes: Vec<Node>,
}

impl Tree {
    /// The number of nodes.
    pub closed spec fn spec_len(&self) -> nat {
        self.nodes@.len()
    }

    pub closed spec fn spec_type(&self, node: int) -> NodeType {
        self.nodes@[node].node_type
    }

    pub closed spec fn spec_parent(&self, node: int) -> Option<usize> {
        self.nodes@[node].parent
    }

    pub closed spec fn spec_id(&self, node: int) -> Option<String> {
        self.nodes@[node].id
    }

    pub closed spec fn spec_impl(&self, node: int) -> NodeImpl {
        self.nodes@[node].node_impl
    }

    /// Every node comes after its parent and holds the state of its kind.
    pub open spec fn wf(&self) -> bool {
        forall|n: int|
            0 <= n < self.spec_len() ==> {
                &&& (#[trigger] self.spec_parent(n)) matches Some(p) ==> p < n
                &&& self.spec_type(n) == NodeType::FilterPrimitiveMerge <==> self.spec_impl(
                    n,
                ) is Merge
                &&& self.spec_type(n) == NodeType::FilterPrimitiveMergeNode <==> self.spec_impl(
                    n,
                ) is MergeNode
            }
    }

    /// The children of `node` among the first `below` nodes, in document
    /// order.
    pub open spec fn spec_children_below(&self, node: int, below: nat) -> Seq<usize>
        decreases below,
    {
        if below == 0 {
            Seq::empty()
        } else {
            let rest = self.spec_children_below(node, (below - 1) as nat);
            if self.spec_parent(below - 1) == Some(node as usize) {
                rest.push((below - 1) as usize)
            } else {
                rest
            }
        }
    }

    /// The children of `node`, in document order.
    pub open spec fn spec_children(&self, node: int) -> Seq<usize> {
        self.spec_children_below(node, self.spec_len())
    }

    /// `self` holds every node of `earlier`, unchanged and in its place.
    pub open spec fn extends(&self, earlier: &Tree) -> bool {
        &&& earlier.spec_len() <= self.spec_len()
        &&& forall|n: int|
            0 <= n < earlier.spec_len() ==> {
                &&& #[trigger] self.spec_type(n) == earlier.spec_type(n)
                &&& self.spec_parent(n) == earlier.spec_parent(n)
                &&& self.spec_id(n) == earlier.spec_id(n)
                &&& self.spec_impl(n) == earlier.spec_impl(n)
            }
    }

    /// The children of a node are told by the parents alone: where two
    /// trees agree on the parents of their first nodes, they agree on the
    /// children among them.
    pub proof fn children_follow_parents(&self, other: &Tree, node: int, below: nat)
        requires
            forall|n: int| 0 <= n < below ==> #[trigger] self.spec_parent(n) == other.spec_parent(n),
        ensures
            self.spec_children_below(node, below) == other.spec_children_below(node, below),
        decreases below,
    {
        if below > 0 {
            self.children_follow_parents(other, node, (below - 1) as nat);
            assert(self.spec_parent(below - 1) == other.spec_parent(below - 1));
        }
    }

    /// The tree without nodes.
    pub fn new() -> (tree: Tree)
        ensures
            tree.wf(),
            tree.spec_len() == 0,
    {
        Tree { nodes: Vec::new() }
    }

    pub fn len(&self) -> (n: usize)
        ensures
            n == self.spec_len(),
    {
        self.nodes.len()
    }

    pub fn get_type(&self, node: usize) -> (t: NodeType)
        requires
            node < self.spec_len(),
        ensures
            t == self.spec_type(node as int),
    {
        self.nodes[node].node_type
    }

    pub fn get_parent(&self, node: usize) -> (p: Option<usize>)
        requires
            node < self.spec_len(),
        ensures
            p == self.spec_parent(node as int),
    {
        self.nodes[node].parent
    }

    pub fn get_id(&self, node: usize) -> (id: &Option<String>)
        requires
            node < self.spec_len(),
        ensures
            *id == self.spec_id(node as int),
    {
        &self.nodes[node].id
    }

    /// The state of a node.
    pub fn get_impl(&self, node: usize) -> (i: &NodeImpl)
        requires
            node < self.spec_len(),
        ensures
            *i == self.spec_impl(node as int),
    {
        &self.nodes[node].node_impl
    }

    /// The children of a node, in document order.
    pub fn children(&self, node: usize) -> (r: Vec<usize>)
        ensures
            r@ == self.spec_children(node as int),
            forall|j: int| 0 <= j < r@.len() ==> r@[j] < self.spec_len(),
    {
        let mut r: Vec<usize> = Vec::new();
        let mut i: usize = 0;
        while i < self.nodes.len()
            invariant
                i <= self.nodes.len(),
                r@ == self.spec_children_below(node as int, i as nat),
                forall|j: int| 0 <= j < r@.len() ==> r@[j] < i,
            decreases self.nodes.len() - i,
        {
            let is_child = match self.nodes[i].parent {
                Some(p) => p == node,
                None => false,
            };
            if is_child {
                r.push(i);
            }
            i = i + 1;
        }
        r
    }

    /// Adds a node as the last child of `parent`, or as a root.
    pub fn add(
        &mut self,
        node_type: NodeType,
        parent: Option<usize>,
        id: Option<String>,
        node_impl: NodeImpl,
    ) -> (node: usize)
        requires
            old(self).wf(),
            parent matches Some(p) ==> p < old(self).spec_len(),
            node_type == NodeType::FilterPrimitiveMerge <==> node_impl is Merge,
            node_type == NodeType::FilterPrimitiveMergeNode <==> node_impl is MergeNode,
        ensures
            final(self).wf(),
            node == old(self).spec_len(),
            final(self).spec_len() == old(self).spec_len() + 1,
            final(self).spec_type(node as int) == node_type,
            final(self).spec_parent(node as int) == parent,
            final(self).spec_id(node as int) == id,
            final(self).spec_impl(node as int) == node_impl,
            final(self).extends(old(self)),
            forall|n: int|
                0 <= n < final(self).spec_len() ==> #[trigger] final(self).spec_children(n) == if parent
                    == Some(n as usize) {
                    old(self).spec_children(n).push(node)
                } else {
                    old(self).spec_children(n)
                },
    {
        let node: usize = self.nodes.len();
        self.nodes.push(Node { node_type, parent, id, node_impl });
        assert forall|n: int| 0 <= n < self.spec_len() implies {
            &&& (#[trigger] self.spec_parent(n)) matches Some(p) ==> p < n
            &&& self.spec_type(n) == NodeType::FilterPrimitiveMerge <==> self.spec_impl(n) is Merge
            &&& self.spec_type(n) == NodeType::FilterPrimitiveMergeNode <==> self.spec_impl(
                n,
            ) is MergeNode
        } by {
            if n < node {
                assert(self.spec_parent(n) == old(self).spec_parent(n));
            }
        }
        assert forall|n: int| 0 <= n < self.spec_len() implies #[trigger] self.spec_children(n)
            == if parent == Some(n as usize) {
            old(self).spec_children(n).push(node)
        } else {
            old(self).spec_children(n)
        } by {
            assert forall|m: int| 0 <= m < node implies #[trigger] self.spec_parent(m) == old(
                self,
            ).spec_parent(m) by {
                assert(self.spec_type(m) == old(self).spec_type(m));
            }
            self.children_follow_parents(old(self), n, node as nat);
        }
        node
    }
    /// Hands the attributes of an element to its node. A node of a kind
    /// whose state lives elsewhere takes none of them.
    pub fn set_atts(&mut self, node: usize, pbag: &Vec<Property>) -> (r: Result<(), NodeError>)
        requires
            old(self).wf(),
            node < old(self).spec_len(),
        ensures
            final(self).wf(),
            final(self).spec_len() == old(self).spec_len(),
            forall|n: int|
                0 <= n < old(self).spec_len() ==> {
                    &&& #[trigger] final(self).spec_type(n) == old(self).spec_type(n)
                    &&& final(self).spec_parent(n) == old(self).spec_parent(n)
                    &&& final(self).spec_id(n) == old(self).spec_id(n)
                    &&& n != node ==> final(self).spec_impl(n) == old(self).spec_impl(n)
                    &&& final(self).spec_children(n) == old(self).spec_children(n)
                },
            match old(self).spec_impl(node as int) {
                NodeImpl::Merge(before) => r.is_ok() && (final(self).spec_impl(
                    node as int,
                ) matches NodeImpl::Merge(after) && after.base.subregion == before.base.subregion
                    && name_view(after.base.result) == spec_result_name(
                    name_view(before.base.result),
                    pbag@,
                )),
                NodeImpl::MergeNode(before) => final(self).spec_impl(
                    node as int,
                ) matches NodeImpl::MergeNode(after) && (after.spec_in(), r)
                    == spec_merge_node_atts(before.spec_in(), pbag@),
                NodeImpl::Other => r.is_ok() && final(self).spec_impl(node as int) == old(
                    self,
                ).spec_impl(node as int),
            },
    {
        let r = match &mut self.nodes[node].node_impl {
            NodeImpl::Merge(merge) => merge.set_atts(pbag),
            NodeImpl::MergeNode(merge_node) => merge_node.set_atts(pbag),
            NodeImpl::Other => Ok(()),
        };
        assert forall|n: int| 0 <= n < self.spec_len() implies {
            &&& (#[trigger] self.spec_parent(n)) matches Some(p) ==> p < n
            &&& self.spec_type(n) == NodeType::FilterPrimitiveMerge <==> self.spec_impl(n) is Merge
            &&& self.spec_type(n) == NodeType::FilterPrimitiveMergeNode <==> self.spec_impl(
                n,
            ) is MergeNode
        } by {
            assert(self.spec_parent(n) == old(self).spec_parent(n));
        }
        assert forall|n: int| 0 <= n < self.spec_len() implies self.spec_children(n) == old(
            self,
        ).spec_children(n) by {
            self.children_follow_parents(old(self), n, self.spec_len());
        }
        r
    }
}

} // verus!
