//! The render-graph ordering plan.
//!
//! The skybox material samples the images the compute node has just written,
//! so the node must run strictly before the main camera draw. That ordering
//! is encoded as an explicit edge in a small graph plan, never left to an
//! implicit registration order.

use vstd::prelude::*;

verus! {

/// The graph nodes this core cares about.
#[derive(Clone, Copy, PartialEq, Eq, Structural, Debug)]
pub enum NodeLabel {
    /// The cloud compute scheduling node.
    CloudsCompute,
    /// The host's main camera draw node.
    MainCameraDraw,
}

/// An explicit ordering plan: nodes, and `before` edges between them.
pub struct RenderGraphPlan {
    pub nodes: Vec<NodeLabel>,
    /// Each pair `(a, b)` means `a` must run strictly before `b`.
    pub edges: Vec<(NodeLabel, NodeLabel)>,
}

/// `a` appears strictly before `b` in the execution order.
pub open spec fn runs_before(order: Seq<NodeLabel>, a: NodeLabel, b: NodeLabel) -> bool {
    exists|i: int, j: int|
        0 <= i < j < order.len() && order[i] == a && order[j] == b
}

/// An execution order is valid for a plan when it respects every edge.
pub open spec fn respects_edges(order: Seq<NodeLabel>, edges: Seq<(NodeLabel, NodeLabel)>) -> bool {
    forall|k: int|
        0 <= k < edges.len() ==> runs_before(order, (#[trigger] edges[k]).0, edges[k].1)
}

impl RenderGraphPlan {
    /// An empty plan.
    pub fn new() -> (g: RenderGraphPlan)
        ensures
            g.nodes@ == Seq::<NodeLabel>::empty(),
            g.edges@ == Seq::<(NodeLabel, NodeLabel)>::empty(),
    {
        RenderGraphPlan { nodes: Vec::new(), edges: Vec::new() }
    }

    /// Adds a node to the plan.
    pub fn add_node(&mut self, n: NodeLabel)
        ensures
            final(self).nodes@ == old(self).nodes@.push(n),
            final(self).edges@ == old(self).edges@,
    {
        self.nodes.push(n);
    }

    /// Adds a `before` edge to the plan.
    pub fn add_node_edge(&mut self, a: NodeLabel, b: NodeLabel)
        ensures
            final(self).nodes@ == old(self).nodes@,
            final(self).edges@ == old(self).edges@.push((a, b)),
    {
        self.edges.push((a, b));
    }

    /// Registers the cloud compute node with its one required ordering edge:
    /// before the main camera draw.
    pub fn register_clouds_node(&mut self)
        ensures
            final(self).nodes@ == old(self).nodes@.push(NodeLabel::CloudsCompute),
            final(self).edges@ == old(self).edges@.push(
                (NodeLabel::CloudsCompute, NodeLabel::MainCameraDraw),
            ),
    {
        self.add_node(NodeLabel::CloudsCompute);
        self.add_node_edge(NodeLabel::CloudsCompute, NodeLabel::MainCameraDraw);
    }
}

/// Law: in every execution order that respects the plan of
/// [`RenderGraphPlan::register_clouds_node`], the cloud compute node runs
/// strictly before the main camera draw.
pub proof fn lemma_clouds_before_camera(
    order: Seq<NodeLabel>,
    edges: Seq<(NodeLabel, NodeLabel)>,
    k: int,
)
    requires
        respects_edges(order, edges),
        0 <= k < edges.len(),
        edges[k] == (NodeLabel::CloudsCompute, NodeLabel::MainCameraDraw),
    ensures
        runs_before(order, NodeLabel::CloudsCompute, NodeLabel::MainCameraDraw),
{
}

} // verus!
