//! The module dependency graph and its cycle check.
//!
//! The graph itself is a `petgraph` directed graph whose node weights are
//! module names. Its contents are spoken of through [`node_names`] and
//! [`edge_pairs`].

use petgraph::graph::{Graph, NodeIndex};
use petgraph::Directed;
use vstd::prelude::*;

verus! {

/// Declares `petgraph::graph::Graph`; what a graph holds is spoken of
/// through [`node_names`] and [`edge_pairs`].
#[verifier::external_type_specification]
#[verifier::external_body]
#[verifier::reject_recursive_types(N)]
#[verifier::reject_recursive_types(E)]
#[verifier::reject_recursive_types(Ty)]
#[verifier::reject_recursive_types(Ix)]
pub struct ExGraph<N, E, Ty, Ix>(Graph<N, E, Ty, Ix>);

/// Declares `petgraph::Directed`, the marker of directed graphs.
#[verifier::external_type_specification]
#[verifier::external_body]
pub struct ExDirected(Directed);

/// The node weights of a graph, in the order of the node indices.
pub uninterp spec fn node_names(g: Graph<String, (), Directed, u32>) -> Seq<Seq<char>>;

/// The edges of a graph as (source index, target index), in the order in
/// which they were added.
pub uninterp spec fn edge_pairs(g: Graph<String, (), Directed, u32>) -> Seq<(int, int)>;

/// Every step of the walk follows an edge.
pub open spec fn is_walk(edges: Seq<(int, int)>, walk: Seq<int>) -> bool {
    forall|k: int| 0 <= k < walk.len() - 1 ==> edges.contains((#[trigger] walk[k], walk[k + 1]))
}

/// Some walk of at least one edge returns to where it started.
pub open spec fn has_cycle(edges: Seq<(int, int)>) -> bool {
    exists|walk: Seq<int>| walk.len() >= 2 && is_walk(edges, walk) && walk[0] == walk.last()
}

/// The most nodes, and the most edges, that a graph can hold.
pub open spec fn capacity() -> int {
    0xffff_ffff
}

/// Wraps `Graph::new`: a graph without nodes or edges.
#[verifier::external_body]
pub(crate) fn new_graph() -> (g: Graph<String, (), Directed, u32>)
    ensures
        node_names(g).len() == 0,
        edge_pairs(g).len() == 0,
{
    Graph::new()
}

/// Wraps `Graph::add_node`: the new node comes after the existing ones and
/// its index is returned; the edges stay as they were. The graph must be
/// below its capacity.
#[verifier::external_body]
pub(crate) fn add_node(g: &mut Graph<String, (), Directed, u32>, name: String) -> (index: usize)
    requires
        node_names(*old(g)).len() < capacity(),
    ensures
        index == node_names(*old(g)).len(),
        node_names(*final(g)) == node_names(*old(g)).push(name@),
        edge_pairs(*final(g)) == edge_pairs(*old(g)),
{
    g.add_node(name).index()
}

/// Wraps `Graph::add_edge`: the edge from node `from` to node `to` comes
/// after the existing edges; the nodes stay as they were. Both nodes must
/// exist and the graph must be below its capacity.
#[verifier::external_body]
pub(crate) fn add_edge(g: &mut Graph<String, (), Directed, u32>, from: usize, to: usize)
    requires
        from < node_names(*old(g)).len(),
        to < node_names(*old(g)).len(),
        edge_pairs(*old(g)).len() < capacity(),
    ensures
        node_names(*final(g)) == node_names(*old(g)),
        edge_pairs(*final(g)) == edge_pairs(*old(g)).push((from as int, to as int)),
{
    g.add_edge(NodeIndex::new(from), NodeIndex::new(to), ());
}

/// Wraps `petgraph::algo::is_cyclic_directed`: whether the graph contains a
/// cycle. A node with an edge to itself is a cycle.
#[verifier::external_body]
pub(crate) fn is_cyclic(g: &Graph<String, (), Directed, u32>) -> (r: bool)
    ensures
        r == has_cycle(edge_pairs(*g)),
{
    petgraph::algo::is_cyclic_directed(g)
}

/// Wraps `Graph::node_weights`: the module names, in node index order.
#[verifier::external_body]
pub(crate) fn names_of(g: &Graph<String, (), Directed, u32>) -> (r: Vec<String>)
    ensures
        r@.len() == node_names(*g).len(),
        forall|i: int| 0 <= i < r@.len() ==> (#[trigger] r@[i])@ == node_names(*g)[i],
{
    g.node_weights().cloned().collect()
}

/// Wraps `Graph::raw_edges`: the edges as index pairs, in insertion order.
#[verifier::external_body]
pub(crate) fn edges_of(g: &Graph<String, (), Directed, u32>) -> (r: Vec<(usize, usize)>)
    ensures
        r@.len() == edge_pairs(*g).len(),
        forall|i: int|
            0 <= i < r@.len() ==> (#[trigger] r@[i]).0 == edge_pairs(*g)[i].0 && r@[i].1
                == edge_pairs(*g)[i].1,
{
    g.raw_edges().iter().map(|e| (e.source().index(), e.target().index())).collect()
}

} // verus!
