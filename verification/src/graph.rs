//! The call-graph store: a directed petgraph `GraphMap` whose nodes are
//! span names and whose edge weights count observed caller -> callee
//! transitions, together with the spec-level names for its contents.

use vstd::prelude::*;

use petgraph::dot::Dot;
use petgraph::graphmap::GraphMap;
use petgraph::Directed;
use std::hash::RandomState;

verus! {

#[verifier::external_type_specification]
#[verifier::external_body]
#[verifier::reject_recursive_types(N)]
#[verifier::reject_recursive_types(E)]
#[verifier::reject_recursive_types(Ty)]
#[verifier::reject_recursive_types(S)]
pub struct ExGraphMap<N, E, Ty, S>(GraphMap<N, E, Ty, S>)
where
    S: std::hash::BuildHasher;

#[verifier::external_type_specification]
#[verifier::external_body]
pub struct ExDirected(Directed);

/// The store behind a [`crate::GraphLayer`]: span names keyed by content,
/// one directed edge per ordered pair, weighted by an observation count.
pub type CallGraph = GraphMap<&'static str, usize, Directed, RandomState>;

/// The set of node names a call graph holds, each as its character sequence.
pub uninterp spec fn nodes_of(g: CallGraph) -> Set<Seq<char>>;

/// The directed edges a call graph holds: each ordered pair of node names
/// that an edge connects, mapped to that edge's weight.
pub uninterp spec fn edges_of(g: CallGraph) -> Map<(Seq<char>, Seq<char>), nat>;

/// The Graphviz dot text that rendering a call graph produces. The text is
/// a function of the graph value alone, so rendering an unchanged graph
/// twice yields identical bytes.
pub uninterp spec fn dot_of(g: CallGraph) -> Seq<char>;

/// A graph that holds no nodes and no edges.
pub open spec fn graph_is_empty(g: CallGraph) -> bool {
    &&& nodes_of(g) == Set::<Seq<char>>::empty()
    &&& edges_of(g) == Map::<(Seq<char>, Seq<char>), nat>::empty()
}

/// Relies on `petgraph::graphmap::GraphMap::new`: the created graph has no
/// nodes and no edges.
#[verifier::external_body]
pub(crate) fn graph_new() -> (g: CallGraph)
    ensures
        graph_is_empty(g),
{
    GraphMap::new()
}

/// Relies on `petgraph::graphmap::GraphMap::add_node`: inserts the node if
/// absent and changes nothing otherwise; edges are untouched. Nodes compare
/// by string content, so the node set is keyed by character sequence.
#[verifier::external_body]
pub(crate) fn graph_add_node(g: &mut CallGraph, n: &'static str)
    ensures
        nodes_of(*final(g)) == nodes_of(*old(g)).insert(n@),
        edges_of(*final(g)) == edges_of(*old(g)),
{
    g.add_node(n);
}

/// Relies on `petgraph::graphmap::GraphMap::remove_node`: removes the node
/// and every edge incident to it, and reports whether the node was present.
#[verifier::external_body]
pub(crate) fn graph_remove_node(g: &mut CallGraph, n: &'static str) -> (present: bool)
    ensures
        present == nodes_of(*old(g)).contains(n@),
        nodes_of(*final(g)) == nodes_of(*old(g)).remove(n@),
        edges_of(*final(g)) == edges_without_node(edges_of(*old(g)), n@),
{
    g.remove_node(n)
}

/// Relies on `petgraph::graphmap::GraphMap::contains_node`.
#[verifier::external_body]
pub(crate) fn graph_contains_node(g: &CallGraph, n: &'static str) -> (present: bool)
    ensures
        present == nodes_of(*g).contains(n@),
{
    g.contains_node(n)
}

/// Relies on `petgraph::graphmap::GraphMap::edge_weight`: for a directed
/// graph the edge from `a` to `b` is looked up under the ordered pair
/// `(a, b)`; the weight is returned by value.
#[verifier::external_body]
pub(crate) fn graph_edge_weight(g: &CallGraph, a: &'static str, b: &'static str) -> (w: Option<
    usize,
>)
    ensures
        match w {
            Some(x) => edges_of(*g).dom().contains((a@, b@)) && edges_of(*g)[(a@, b@)] == x as nat,
            None => !edges_of(*g).dom().contains((a@, b@)),
        },
{
    g.edge_weight(a, b).copied()
}

/// Relies on `petgraph::graphmap::GraphMap::add_edge`: inserts the edge
/// from `a` to `b` with the given weight, replacing and returning any prior
/// weight, and inserts the endpoints as nodes (a no-op for an endpoint that
/// is already present, as every endpoint of an existing edge is).
#[verifier::external_body]
pub(crate) fn graph_add_edge(g: &mut CallGraph, a: &'static str, b: &'static str, w: usize) -> (prev: Option<usize>)
    ensures
        nodes_of(*final(g)) == nodes_of(*old(g)).insert(a@).insert(b@),
        edges_of(*final(g)) == edges_of(*old(g)).insert((a@, b@), w as nat),
        match prev {
            Some(x) => edges_of(*old(g)).dom().contains((a@, b@)) && edges_of(*old(g))[(a@, b@)]
                == x as nat,
            None => !edges_of(*old(g)).dom().contains((a@, b@)),
        },
{
    g.add_edge(a, b, w)
}

/// Relies on `petgraph::graphmap::GraphMap::node_count`: the number of
/// nodes the graph holds, which is the cardinality of its node set.
#[verifier::external_body]
pub(crate) fn graph_node_count(g: &CallGraph) -> (n: usize)
    ensures
        n as nat == nodes_of(*g).len(),
{
    g.node_count()
}

/// Relies on `petgraph::graphmap::GraphMap::edge_count`: the number of
/// edges the graph holds, which is the cardinality of its edge map's domain.
#[verifier::external_body]
pub(crate) fn graph_edge_count(g: &CallGraph) -> (n: usize)
    ensures
        n as nat == edges_of(*g).dom().len(),
{
    g.edge_count()
}

/// Relies on `petgraph::dot::Dot`: Debug-formatting it writes the graph in
/// Graphviz dot notation, one statement per node and one per edge with the
/// edge's weight as its label, reading the graph value alone; a trailing
/// newline matches line-oriented writers.
#[verifier::external_body]
pub(crate) fn graph_render_dot(g: &CallGraph) -> (text: String)
    ensures
        text@ == dot_of(*g),
{
    format!("{:?}\n", Dot::new(g))
}

/// The given edges with every edge incident to node `n` removed.
pub open spec fn edges_without_node(
    edges: Map<(Seq<char>, Seq<char>), nat>,
    n: Seq<char>,
) -> Map<(Seq<char>, Seq<char>), nat> {
    Map::new(
        |p: (Seq<char>, Seq<char>)| edges.dom().contains(p) && p.0 != n && p.1 != n,
        |p: (Seq<char>, Seq<char>)| edges[p],
    )
}

} // verus!
