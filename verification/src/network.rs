//! Visualization snapshot of the engine's network.
//!
//! After every successful unit (and whenever the label template changes)
//! the snapshot is rebuilt from scratch out of plain per-node data read
//! from the engine's graph.  An invalid or absent rendered label falls
//! back to the node's own name.

use vstd::prelude::*;

verus! {

/// Plain per-node data read from the engine's graph: everything the
/// snapshot needs, as plain values.  `rendered` carries the label text
/// produced by the label template for this node, or `None` when no
/// template applied (absent, invalid, or failed on this node).
pub struct NodeInput {
    pub index: usize,
    pub name: String,
    pub level: u64,
    pub color: Option<(u64, u64, u64)>,
    pub linecolor: Option<(u64, u64, u64)>,
    pub textcolor: Option<(u64, u64, u64)>,
    pub rendered: Option<String>,
    pub output: Option<usize>,
}

/// One displayed node of the snapshot.
pub struct NodeData {
    pub index: usize,
    pub name: String,
    /// drawing position: (level, row index)
    pub pos: (u64, usize),
    pub color: Option<(u64, u64, u64)>,
    pub linecolor: Option<(u64, u64, u64)>,
    pub textcolor: Option<(u64, u64, u64)>,
    pub label: String,
}

/// Mathematical content of one displayed node.
#[verifier::ext_equal]
pub struct NodeModel {
    pub index: int,
    pub name: Seq<char>,
    pub pos: (int, int),
    pub color: Option<(u64, u64, u64)>,
    pub linecolor: Option<(u64, u64, u64)>,
    pub textcolor: Option<(u64, u64, u64)>,
    pub label: Seq<char>,
}

impl View for NodeData {
    type V = NodeModel;

    open spec fn view(&self) -> NodeModel {
        NodeModel {
            index: self.index as int,
            name: self.name@,
            pos: (self.pos.0 as int, self.pos.1 as int),
            color: self.color,
            linecolor: self.linecolor,
            textcolor: self.textcolor,
            label: self.label@,
        }
    }
}

/// The label a node is displayed with: the template-rendered text when
/// one applied, else the node's name.
pub open spec fn spec_label(inp: NodeInput) -> Seq<char> {
    match inp.rendered {
        Some(r) => r@,
        None => inp.name@,
    }
}

/// The displayed node built from one node's data.
pub open spec fn spec_node(inp: NodeInput) -> NodeModel {
    NodeModel {
        index: inp.index as int,
        name: inp.name@,
        pos: (inp.level as int, inp.index as int),
        color: inp.color,
        linecolor: inp.linecolor,
        textcolor: inp.textcolor,
        label: spec_label(inp),
    }
}

/// The edge list: one `(node, output)` pair per node that has an output.
pub open spec fn spec_edges(inputs: Seq<NodeInput>) -> Seq<(usize, usize)>
    decreases inputs.len(),
{
    if inputs.len() == 0 {
        Seq::empty()
    } else {
        spec_edges(inputs.drop_last()) + match inputs.last().output {
            Some(o) => seq![(inputs.last().index, o)],
            None => Seq::empty(),
        }
    }
}

/// The largest node level, or 0 for an empty graph.
pub open spec fn spec_maxlevel(inputs: Seq<NodeInput>) -> u64
    decreases inputs.len(),
{
    if inputs.len() == 0 {
        0
    } else {
        let rest = spec_maxlevel(inputs.drop_last());
        if inputs.last().level > rest {
            inputs.last().level
        } else {
            rest
        }
    }
}

/// Mathematical content of the whole snapshot.
#[verifier::ext_equal]
pub struct NetModel {
    pub nodes: Seq<NodeModel>,
    pub edges: Seq<(usize, usize)>,
    pub maxlevel: u64,
}

/// The displayed nodes, one per node of the graph, in graph order.
pub open spec fn spec_nodes(inputs: Seq<NodeInput>) -> Seq<NodeModel> {
    inputs.map_values(|inp: NodeInput| spec_node(inp))
}

/// The content of a sequence of displayed nodes.
pub open spec fn nodes_view(nodes: Seq<NodeData>) -> Seq<NodeModel> {
    nodes.map_values(|n: NodeData| n@)
}

/// The snapshot determined by the node data alone.
pub open spec fn spec_snapshot(inputs: Seq<NodeInput>) -> NetModel {
    NetModel {
        nodes: spec_nodes(inputs),
        edges: spec_edges(inputs),
        maxlevel: spec_maxlevel(inputs),
    }
}

/// The rebuilt snapshot: displayed nodes, edges between them, and the
/// deepest level, all recomputed in full on every refresh.
pub struct NetworkData {
    pub nodes: Vec<NodeData>,
    pub edges: Vec<(usize, usize)>,
    pub maxlevel: u64,
}

impl View for NetworkData {
    type V = NetModel;

    open spec fn view(&self) -> NetModel {
        NetModel {
            nodes: nodes_view(self.nodes@),
            edges: self.edges@,
            maxlevel: self.maxlevel,
        }
    }
}

impl Default for NetworkData {
    /// The empty snapshot, before any refresh.
    fn default() -> (r: Self)
        ensures
            r@ == spec_snapshot(Seq::<NodeInput>::empty()),
    {
        let r = NetworkData { nodes: Vec::new(), edges: Vec::new(), maxlevel: 0 };
        proof {
            assert(r@ =~= spec_snapshot(Seq::<NodeInput>::empty()));
        }
        r
    }
}

impl NetworkData {
    /// Builds a snapshot from the given node data.
    pub fn new(inputs: Vec<NodeInput>) -> (r: Self)
        ensures
            r@ == spec_snapshot(inputs@),
    {
        let mut r = NetworkData { nodes: Vec::new(), edges: Vec::new(), maxlevel: 0 };
        r.update(inputs);
        r
    }

    /// Rebuilds the snapshot from scratch.  The result is a function of
    /// the node data alone — nothing of the previous snapshot survives —
    /// so refreshing twice with unchanged data yields identical content.
    pub fn update(&mut self, inputs: Vec<NodeInput>)
        ensures
            final(self)@ == spec_snapshot(inputs@),
    {
        let n = inputs.len();
        let mut nodes: Vec<NodeData> = Vec::new();
        let mut edges: Vec<(usize, usize)> = Vec::new();
        let mut maxlevel: u64 = 0;
        for i in 0..n
            invariant
                n == inputs@.len(),
                nodes_view(nodes@) =~= spec_nodes(inputs@.take(i as int)),
                edges@ == spec_edges(inputs@.take(i as int)),
                maxlevel == spec_maxlevel(inputs@.take(i as int)),
        {
            let ghost pre_nodes = nodes@;
            let inp = &inputs[i];
            let label = match &inp.rendered {
                Some(r) => r.clone(),
                None => inp.name.clone(),
            };
            nodes.push(NodeData {
                index: inp.index,
                name: inp.name.clone(),
                pos: (inp.level, inp.index),
                color: inp.color,
                linecolor: inp.linecolor,
                textcolor: inp.textcolor,
                label,
            });
            if let Some(o) = inp.output {
                edges.push((inp.index, o));
            }
            if inp.level > maxlevel {
                maxlevel = inp.level;
            }
            proof {
                assert(nodes_view(pre_nodes).len() == pre_nodes.len());
                assert(spec_nodes(inputs@.take(i as int)).len() == i);
                assert(pre_nodes.len() == i);
                assert(nodes@ == pre_nodes.push(nodes@.last()));
                assert(inputs@.take(i + 1).drop_last() =~= inputs@.take(i as int));
                assert(inputs@.take(i + 1).last() == inputs@[i as int]);
                assert(nodes@.last()@ =~= spec_node(inputs@[i as int]));
                assert forall|k: int| 0 <= k < nodes@.len() implies nodes_view(nodes@)[k]
                    == spec_nodes(inputs@.take(i + 1))[k] by {
                    if k < i {
                        assert(nodes_view(pre_nodes)[k] == spec_nodes(inputs@.take(i as int))[k]);
                        assert(nodes@[k] == pre_nodes[k]);
                    }
                }
                assert(nodes_view(nodes@) =~= spec_nodes(inputs@.take(i + 1)));
                assert(edges@ =~= spec_edges(inputs@.take(i + 1)));
            }
        }
        self.nodes = nodes;
        self.edges = edges;
        self.maxlevel = maxlevel;
        proof {
            assert(inputs@.take(n as int) =~= inputs@);
            assert(self@ =~= spec_snapshot(inputs@));
        }
    }
}

/// Refresh idempotence: the snapshot's content is determined by the node
/// data alone, so any two snapshots rebuilt from the same data — in
/// particular two consecutive refreshes over an unchanged graph and
/// template — have identical content.
pub proof fn lemma_refresh_idempotent(a: NetworkData, b: NetworkData, inputs: Seq<NodeInput>)
    requires
        a@ == spec_snapshot(inputs),
        b@ == spec_snapshot(inputs),
    ensures
        a@ == b@,
{
}

} // verus!
