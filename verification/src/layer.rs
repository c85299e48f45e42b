//! The graph accumulator: applies the span-entry observation rule to the
//! call graph and toggles the synthetic top node.

use vstd::prelude::*;

use crate::graph::edges_of;
use crate::graph::edges_without_node;
use crate::graph::graph_add_edge;
use crate::graph::graph_add_node;
use crate::graph::graph_contains_node;
use crate::graph::graph_edge_count;
use crate::graph::graph_edge_weight;
use crate::graph::graph_new;
use crate::graph::graph_node_count;
use crate::graph::graph_remove_node;
use crate::graph::graph_render_dot;
use crate::graph::nodes_of;
use crate::graph::CallGraph;

verus! {

/// The mathematical value of a call graph under construction: the node
/// names, the weighted directed edges, and the active top node, if any.
#[verifier::ext_equal]
pub ghost struct GraphModel {
    /// Every span name ever entered, plus the top node while one is active.
    pub nodes: Set<Seq<char>>,
    /// Each observed (caller, callee) pair, mapped to the number of times
    /// that transition was observed.
    pub edges: Map<(Seq<char>, Seq<char>), nat>,
    /// The name of the active top node, if one is enabled.
    pub top: Option<Seq<char>>,
}

/// The caller a span entry is charged to: the span's parent if it has one,
/// the active top node otherwise; no caller when neither exists.
pub open spec fn resolved_caller(top: Option<Seq<char>>, parent: Option<Seq<char>>) -> Option<
    Seq<char>,
> {
    match parent {
        Some(p) => Some(p),
        None => top,
    }
}

impl GraphModel {
    /// The model of a freshly built accumulator: nothing observed, no top node.
    pub open spec fn empty() -> GraphModel {
        GraphModel {
            nodes: Set::<Seq<char>>::empty(),
            edges: Map::<(Seq<char>, Seq<char>), nat>::empty(),
            top: None::<Seq<char>>,
        }
    }

    /// Every edge connects nodes the graph holds, every weight is a positive
    /// count, and the top node, while active, is itself a node.
    pub open spec fn wf(self) -> bool {
        &&& forall|p: (Seq<char>, Seq<char>)| #[trigger]
            self.edges.dom().contains(p) ==> self.nodes.contains(p.0) && self.nodes.contains(p.1)
        &&& forall|p: (Seq<char>, Seq<char>)| #[trigger]
            self.edges.dom().contains(p) ==> self.edges[p] >= 1
        &&& match self.top {
            Some(t) => self.nodes.contains(t),
            None => true,
        }
    }

    /// The weight edge `p` carries after one more observation of `p`.
    pub open spec fn bumped(self, p: (Seq<char>, Seq<char>)) -> nat {
        if self.edges.dom().contains(p) {
            self.edges[p] + 1
        } else {
            1
        }
    }

    /// One span-entry observation: the span's node is ensured, and if a
    /// caller resolves, that caller's edge to the span is created with
    /// weight 1 or its weight is incremented.
    pub open spec fn observe(self, span: Seq<char>, parent: Option<Seq<char>>) -> GraphModel {
        match resolved_caller(self.top, parent) {
            None => GraphModel { nodes: self.nodes.insert(span), edges: self.edges, top: self.top },
            Some(c) => GraphModel {
                nodes: self.nodes.insert(span).insert(c),
                edges: self.edges.insert((c, span), self.bumped((c, span))),
                top: self.top,
            },
        }
    }

    /// Enabling a top node: any prior top node goes first, then the new
    /// name becomes a node and the active top node.
    pub open spec fn enable_top(self, name: Seq<char>) -> GraphModel {
        let cleared = self.disable_top();
        GraphModel { nodes: cleared.nodes.insert(name), edges: cleared.edges, top: Some(name) }
    }

    /// Disabling the top node: the active top node leaves the graph along
    /// with its incident edges; without one, nothing changes.
    pub open spec fn disable_top(self) -> GraphModel {
        match self.top {
            None => self,
            Some(t) => GraphModel {
                nodes: self.nodes.remove(t),
                edges: edges_without_node(self.edges, t),
                top: None::<Seq<char>>,
            },
        }
    }

    /// The observation may be applied without the edge weight outgrowing
    /// the machine word that stores it.
    pub open spec fn observe_fits(self, span: Seq<char>, parent: Option<Seq<char>>) -> bool {
        match resolved_caller(self.top, parent) {
            Some(c) => self.edges.dom().contains((c, span)) ==> self.edges[(c, span)]
                < usize::MAX,
            None => true,
        }
    }
}

/// The name a span entry reports for its parent, as a character sequence.
pub open spec fn parent_view(parent: Option<&'static str>) -> Option<Seq<char>> {
    match parent {
        Some(p) => Some(p@),
        None => None::<Seq<char>>,
    }
}

/// Accumulates the call graph: one node per span name, one weighted edge
/// per observed caller -> callee pair, and an optional synthetic top node
/// standing in as the caller of spans that have no parent.
#[derive(Debug)]
pub struct GraphLayer {
    graph: CallGraph,
    top_node: Option<&'static str>,
}

impl View for GraphLayer {
    type V = GraphModel;

    closed spec fn view(&self) -> GraphModel {
        GraphModel {
            nodes: nodes_of(self.graph),
            edges: edges_of(self.graph),
            top: parent_view(self.top_node),
        }
    }
}

impl GraphLayer {
    /// Returns a new accumulator holding an empty graph and no top node.
    pub fn new() -> (layer: GraphLayer)
        ensures
            layer@ == GraphModel::empty(),
            layer@.wf(),
    {
        let layer = GraphLayer { graph: graph_new(), top_node: None };
        proof {
            assert(layer@ =~= GraphModel::empty());
        }
        layer
    }

    /// Inserts node `name`, records it as the active top node, and first
    /// disables any prior top node. Idempotent; returns self for chaining.
    pub fn enable_top_node(self, name: &'static str) -> (layer: GraphLayer)
        requires
            self@.wf(),
        ensures
            layer@ == self@.enable_top(name@),
            layer@.wf(),
    {
        let mut layer = self.disable_top_node();
        graph_add_node(&mut layer.graph, name);
        layer.top_node = Some(name);
        proof {
            assert(layer@ =~= self@.enable_top(name@));
        }
        layer
    }

    /// Removes the active top node and its incident edges from the graph
    /// and clears the designation; a no-op when no top node is active.
    pub fn disable_top_node(self) -> (layer: GraphLayer)
        requires
            self@.wf(),
        ensures
            layer@ == self@.disable_top(),
            layer@.wf(),
    {
        let mut layer = self;
        match layer.top_node {
            None => layer,
            Some(name) => {
                let _ = graph_remove_node(&mut layer.graph, name);
                layer.top_node = None;
                proof {
                    assert(layer@ =~= self@.disable_top());
                }
                layer
            },
        }
    }

    /// Records one span-entry event: ensures a node for `span`, resolves
    /// the caller (the parent if given, else the active top node, else
    /// none), and, when a caller resolves, creates that caller's edge to
    /// `span` with weight 1 or increments its weight by 1.
    pub fn observe(&mut self, span: &'static str, parent: Option<&'static str>)
        requires
            old(self)@.wf(),
            old(self)@.observe_fits(span@, parent_view(parent)),
        ensures
            final(self)@ == old(self)@.observe(span@, parent_view(parent)),
            final(self)@.wf(),
    {
        graph_add_node(&mut self.graph, span);
        let caller: &'static str = match parent {
            Some(p) => p,
            None => match self.top_node {
                Some(t) => t,
                None => {
                    proof {
                        assert(self@ =~= old(self)@.observe(span@, parent_view(parent)));
                    }
                    return;
                },
            },
        };
        let weight: usize = match graph_edge_weight(&self.graph, caller, span) {
            Some(w) => w + 1,
            None => 1,
        };
        let _ = graph_add_edge(&mut self.graph, caller, span, weight);
        proof {
            assert(self@ =~= old(self)@.observe(span@, parent_view(parent)));
        }
    }

    /// Reports whether the graph holds a node named `name`.
    pub fn contains_node(&self, name: &'static str) -> (present: bool)
        ensures
            present == self@.nodes.contains(name@),
    {
        graph_contains_node(&self.graph, name)
    }

    /// Returns the weight of the edge from `from` to `to`, or `None` when
    /// no such edge exists.
    pub fn edge_weight(&self, from: &'static str, to: &'static str) -> (weight: Option<usize>)
        ensures
            match weight {
                Some(w) => self@.edges.dom().contains((from@, to@)) && self@.edges[(from@, to@)]
                    == w as nat,
                None => !self@.edges.dom().contains((from@, to@)),
            },
    {
        graph_edge_weight(&self.graph, from, to)
    }

    /// Returns the number of nodes the graph holds.
    pub fn node_count(&self) -> (count: usize)
        ensures
            count as nat == self@.nodes.len(),
    {
        graph_node_count(&self.graph)
    }

    /// Returns the number of edges the graph holds.
    pub fn edge_count(&self) -> (count: usize)
        ensures
            count as nat == self@.edges.dom().len(),
    {
        graph_edge_count(&self.graph)
    }

    /// Renders the current graph in Graphviz dot notation. The text is a
    /// function of the graph's value alone, so rendering twice without an
    /// intervening mutation yields identical bytes.
    pub fn render_dot(&self) -> (text: String)
        ensures
            text@ == crate::graph::dot_of(self.graph_value()),
    {
        graph_render_dot(&self.graph)
    }

    /// The stored call graph, for specifications that speak of its rendering.
    pub closed spec fn graph_value(&self) -> CallGraph {
        self.graph
    }

    /// Reports whether one more observation of `span` under `parent` can be
    /// recorded, that is, whether the affected edge weight, if any, still
    /// has room in the machine word that stores it.
    pub fn can_observe(&self, span: &'static str, parent: Option<&'static str>) -> (ok: bool)
        ensures
            ok == self@.observe_fits(span@, parent_view(parent)),
    {
        let caller: &'static str = match parent {
            Some(p) => p,
            None => match self.top_node {
                Some(t) => t,
                None => {
                    return true;
                },
            },
        };
        match graph_edge_weight(&self.graph, caller, span) {
            Some(w) => w < usize::MAX,
            None => true,
        }
    }
}

/// What a flush may do, given the state its exclusive access to the graph
/// was found in.
pub enum FlushDecision {
    /// The graph is consistent: serialize it and flush the sink.
    Proceed,
    /// The graph may be inconsistent, but an unwind is already in progress:
    /// do nothing rather than mask the original failure.
    SkipDuringUnwind,
    /// The graph may be inconsistent and nothing else is failing: surface
    /// the internal-invariant violation loudly.
    PanicFatal,
}

/// Decides a flush attempt: serialize when exclusive access is healthy;
/// when it was poisoned by a holder that terminated abnormally, stay quiet
/// during an unwind that is already in progress and fail loudly otherwise.
pub fn flush_decision(poisoned: bool, unwinding: bool) -> (decision: FlushDecision)
    ensures
        decision is Proceed <==> !poisoned,
        decision is SkipDuringUnwind <==> poisoned && unwinding,
        decision is PanicFatal <==> poisoned && !unwinding,
{
    if !poisoned {
        FlushDecision::Proceed
    } else if unwinding {
        FlushDecision::SkipDuringUnwind
    } else {
        FlushDecision::PanicFatal
    }
}

} // verus!
