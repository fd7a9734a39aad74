//! The call graph's store: `petgraph`'s `StableGraph`, with the contracts
//! under which the rest of the library uses it.
//!
//! Nothing in this file is proved. Each item below states what the graph
//! crate's own source shows of one of its functions.

use crate::target::{CallKind, CallTarget};
use petgraph::stable_graph::StableGraph;
use vstd::multiset::Multiset;
use vstd::prelude::*;

verus! {

/// `petgraph::stable_graph::StableGraph`: a graph that keeps the position
/// of every node it holds when another node is removed. Verus sees nothing
/// inside a value of it.
#[verifier::external_type_specification]
#[verifier::external_body]
#[verifier::reject_recursive_types(N)]
#[verifier::reject_recursive_types(E)]
#[verifier::reject_recursive_types(Ty)]
#[verifier::reject_recursive_types(Ix)]
pub struct ExStableGraph<N, E, Ty, Ix>(StableGraph<N, E, Ty, Ix>);

/// `petgraph::Directed`: the marker of a graph whose edges have a direction.
/// A type without values.
#[verifier::external_type_specification]
#[verifier::external_body]
pub struct ExDirected(petgraph::Directed);

/// The graph in which a program keeps its call targets.
pub type CallGraph = StableGraph<CallTarget, CallKind>;

/// The number of positions that a call graph can hand out. Positions are
/// 32-bit numbers, and the largest of them is kept to mean "no node".
pub const NODE_LIMIT: usize = 0xffff_ffff;

/// The node positions of a graph, in order: at each position the target
/// that stands there, or `None` where a node was removed and the position
/// is vacant.
pub uninterp spec fn graph_nodes(graph: CallGraph) -> Seq<Option<CallTarget>>;

/// The edges of a graph, each as the position it leaves, the position it
/// enters and its kind.
pub uninterp spec fn graph_edges(graph: CallGraph) -> Multiset<(nat, nat, CallKind)>;

/// Whether some position of `nodes` is vacant.
pub open spec fn has_vacancy(nodes: Seq<Option<CallTarget>>) -> bool {
    exists|i: int| 0 <= i < nodes.len() && (#[trigger] nodes[i]) is None
}

/// Whether one more node can be added to a graph with these positions: a
/// vacant position can be taken again, or a new one is left to hand out.
pub open spec fn has_room(nodes: Seq<Option<CallTarget>>) -> bool {
    has_vacancy(nodes) || nodes.len() < NODE_LIMIT
}

/// An empty graph.
///
/// Calls `StableGraph::new`, which makes a graph without nodes or edges and
/// with nothing vacant.
#[verifier::external_body]
pub(crate) fn graph_new() -> (graph: CallGraph)
    ensures
        graph_nodes(graph) == Seq::<Option<CallTarget>>::empty(),
        graph_edges(graph) == Multiset::<(nat, nat, CallKind)>::empty(),
{
    StableGraph::new()
}

/// Adds a node that holds `target` and returns its position.
///
/// Calls `StableGraph::add_node` and `NodeIndex::index`. Where a position is
/// vacant the graph takes one of the vacant positions again; otherwise the
/// node gets the position after the last. No other position changes, and
/// no edge does. `add_node` panics when no position is vacant and
/// `NODE_LIMIT` positions are in use, which `requires` leaves out.
#[verifier::external_body]
pub(crate) fn graph_add_node(graph: &mut CallGraph, target: CallTarget) -> (position: usize)
    requires
        has_room(graph_nodes(*old(graph))),
    ensures
        position < NODE_LIMIT,
        has_vacancy(graph_nodes(*old(graph))) ==> position < graph_nodes(*old(graph)).len()
            && graph_nodes(*old(graph))[position as int] is None && graph_nodes(*final(graph))
            == graph_nodes(*old(graph)).update(position as int, Some(target)),
        !has_vacancy(graph_nodes(*old(graph))) ==> position == graph_nodes(*old(graph)).len()
            && graph_nodes(*final(graph)) == graph_nodes(*old(graph)).push(Some(target)),
        graph_edges(*final(graph)) == graph_edges(*old(graph)),
{
    graph.add_node(target).index()
}

} // verus!
