use vstd::prelude::*;

use crate::handle::Handle;
use crate::widget::WidgetType;

verus! {

/// One node of a configuration tree copied out of the native library.
///
/// `children` holds indices into the tree's node list, in the native
/// enumeration order. A child is followed only when its index is greater than
/// its parent's, which keeps every walk finite.
#[derive(Clone, Debug)]
pub struct ConfigNode {
    pub handle: Handle,
    pub ty: WidgetType,
    pub children: Vec<usize>,
}

/// A configuration tree as a list of nodes; the root (the window) is the
/// first node.
#[derive(Clone, Debug)]
pub struct ConfigTree {
    pub nodes: Vec<ConfigNode>,
}

/// Leaves under node `i`, depth first, in child order: a window or section
/// contributes the leaves of its children, any other node itself.
pub open spec fn leaves_at(nodes: Seq<ConfigNode>, i: int) -> Seq<Handle>
    decreases nodes.len() - i, 1int, 0int,
{
    if 0 <= i < nodes.len() {
        if nodes[i].ty.spec_is_container() {
            leaves_from(nodes, i, 0)
        } else {
            seq![nodes[i].handle]
        }
    } else {
        Seq::empty()
    }
}

/// Leaves under the children of node `p`, from its `k`-th child on.
pub open spec fn leaves_from(nodes: Seq<ConfigNode>, p: int, k: int) -> Seq<Handle>
    decreases nodes.len() - p, 0int, nodes[p].children@.len() - k,
{
    if 0 <= p < nodes.len() && 0 <= k < nodes[p].children@.len() {
        let c = nodes[p].children@[k] as int;
        let here = if p < c < nodes.len() {
            leaves_at(nodes, c)
        } else {
            Seq::empty()
        };
        here + leaves_from(nodes, p, k + 1)
    } else {
        Seq::empty()
    }
}

/// Whether `h` is the handle of some node of the tree that is neither a
/// window nor a section.
pub open spec fn is_leaf_handle(nodes: Seq<ConfigNode>, h: Handle) -> bool {
    exists|j: int| 0 <= j < nodes.len() && nodes[j].handle == h && !nodes[j].ty.spec_is_container()
}

fn collect_leaves(nodes: &Vec<ConfigNode>, i: usize, out: &mut Vec<Handle>)
    requires
        i < nodes@.len(),
    ensures
        final(out)@ == old(out)@ + leaves_at(nodes@, i as int),
    decreases nodes@.len() - i,
{
    if nodes[i].ty.is_container() {
        let n = nodes[i].children.len();
        let mut k: usize = 0;
        while k < n
            invariant
                i < nodes@.len(),
                n == nodes@[i as int].children@.len(),
                k <= n,
                old(out)@ + leaves_from(nodes@, i as int, 0) == out@ + leaves_from(
                    nodes@,
                    i as int,
                    k as int,
                ),
            decreases n - k,
        {
            let c = nodes[i].children[k];
            let ghost before = out@;
            if i < c && c < nodes.len() {
                collect_leaves(nodes, c, out);
            }
            assert(leaves_from(nodes@, i as int, k as int) == (if i < c && c < nodes@.len() {
                leaves_at(nodes@, c as int)
            } else {
                Seq::empty()
            }) + leaves_from(nodes@, i as int, k + 1));
            assert(out@ + leaves_from(nodes@, i as int, k + 1) =~= before + leaves_from(
                nodes@,
                i as int,
                k as int,
            ));
            k = k + 1;
        }
        assert(leaves_from(nodes@, i as int, n as int) =~= Seq::<Handle>::empty());
        assert(out@ + leaves_from(nodes@, i as int, n as int) =~= out@);
    } else {
        out.push(nodes[i].handle);
    }
}

impl ConfigTree {
    /// The leaves of the tree, depth first in native child order; windows and
    /// sections are walked through, never returned.
    pub fn leaves(&self) -> (r: Vec<Handle>)
        ensures
            r@ == leaves_at(self.nodes@, 0),
    {
        let mut out: Vec<Handle> = Vec::new();
        if self.nodes.len() > 0 {
            collect_leaves(&self.nodes, 0, &mut out);
            assert(out@ =~= leaves_at(self.nodes@, 0));
        }
        out
    }
}

proof fn lemma_leaves_at_are_leaves(nodes: Seq<ConfigNode>, i: int)
    ensures
        forall|j: int|
            0 <= j < leaves_at(nodes, i).len() ==> is_leaf_handle(
                nodes,
                #[trigger] leaves_at(nodes, i)[j],
            ),
    decreases nodes.len() - i, 1int, 0int,
{
    if 0 <= i < nodes.len() {
        if nodes[i].ty.spec_is_container() {
            lemma_leaves_from_are_leaves(nodes, i, 0);
            assert(leaves_at(nodes, i) == leaves_from(nodes, i, 0));
        } else {
            assert(leaves_at(nodes, i) =~= seq![nodes[i].handle]);
            assert(is_leaf_handle(nodes, nodes[i].handle));
        }
    }
}

proof fn lemma_leaves_from_are_leaves(nodes: Seq<ConfigNode>, p: int, k: int)
    ensures
        forall|j: int|
            0 <= j < leaves_from(nodes, p, k).len() ==> is_leaf_handle(
                nodes,
                #[trigger] leaves_from(nodes, p, k)[j],
            ),
    decreases nodes.len() - p, 0int, nodes[p].children@.len() - k,
{
    if 0 <= p < nodes.len() && 0 <= k < nodes[p].children@.len() {
        let c = nodes[p].children@[k] as int;
        if p < c < nodes.len() {
            lemma_leaves_at_are_leaves(nodes, c);
        }
        lemma_leaves_from_are_leaves(nodes, p, k + 1);
        let here = if p < c < nodes.len() {
            leaves_at(nodes, c)
        } else {
            Seq::empty()
        };
        let rest = leaves_from(nodes, p, k + 1);
        assert forall|j: int| 0 <= j < (here + rest).len() implies is_leaf_handle(
            nodes,
            #[trigger] (here + rest)[j],
        ) by {
            if j < here.len() {
                assert((here + rest)[j] == here[j]);
            } else {
                assert((here + rest)[j] == rest[j - here.len()]);
            }
        }
    }
}

/// Flattening keeps only leaves: every handle in the result belongs to a node
/// of the tree that is neither a window nor a section.
pub proof fn law_flatten_yields_only_leaves(tree: ConfigTree)
    ensures
        forall|j: int|
            0 <= j < leaves_at(tree.nodes@, 0).len() ==> is_leaf_handle(
                tree.nodes@,
                #[trigger] leaves_at(tree.nodes@, 0)[j],
            ),
{
    lemma_leaves_at_are_leaves(tree.nodes@, 0);
}

} // verus!
