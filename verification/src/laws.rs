//! General laws of the accumulation rule, stated and proved over the model:
//! edge weights are exact observation counts, node insertion is idempotent,
//! and toggling the top node leaves the graph as it was.

use vstd::prelude::*;

use crate::layer::resolved_caller;
use crate::layer::GraphModel;

verus! {

/// One span-entry event: the entered span's name and, if any, the name of
/// its nearest enclosing span.
pub ghost struct SpanEvent {
    pub span: Seq<char>,
    pub parent: Option<Seq<char>>,
}

/// The model after applying a sequence of span-entry observations in order.
pub open spec fn run_model(m: GraphModel, evs: Seq<SpanEvent>) -> GraphModel
    decreases evs.len(),
{
    if evs.len() == 0 {
        m
    } else {
        run_model(m, evs.drop_last()).observe(evs.last().span, evs.last().parent)
    }
}

/// How many events of `evs` observe exactly the transition `p`, with the
/// caller resolved against the active top node `top`.
pub open spec fn pair_count(
    top: Option<Seq<char>>,
    evs: Seq<SpanEvent>,
    p: (Seq<char>, Seq<char>),
) -> nat
    decreases evs.len(),
{
    if evs.len() == 0 {
        0
    } else {
        pair_count(top, evs.drop_last(), p) + (if resolved_caller(top, evs.last().parent)
            == Some(p.0) && evs.last().span == p.1 {
            1nat
        } else {
            0nat
        })
    }
}

/// The model of a fresh accumulator, optionally with a top node enabled.
pub open spec fn init_model(top: Option<Seq<char>>) -> GraphModel {
    match top {
        None => GraphModel::empty(),
        Some(t) => GraphModel::empty().enable_top(t),
    }
}

/// After any sequence of observations, an edge exists for an ordered pair
/// exactly when the pair was in the graph before or was observed at least
/// once, and its weight grew by exactly the number of observations of it.
pub proof fn lemma_run_counts(m: GraphModel, evs: Seq<SpanEvent>)
    ensures
        run_model(m, evs).top == m.top,
        forall|p: (Seq<char>, Seq<char>)|
            #[trigger] run_model(m, evs).edges.dom().contains(p) <==> (m.edges.dom().contains(p)
                || pair_count(m.top, evs, p) > 0),
        forall|p: (Seq<char>, Seq<char>)|
            run_model(m, evs).edges.dom().contains(p) ==> #[trigger] run_model(m, evs).edges[p]
                == (if m.edges.dom().contains(p) {
                m.edges[p]
            } else {
                0nat
            }) + pair_count(m.top, evs, p),
    decreases evs.len(),
{
    if evs.len() > 0 {
        lemma_run_counts(m, evs.drop_last());
    }
}

/// Every edge's weight is the exact count of the observations of its pair,
/// and an edge exists exactly for the observed pairs: the graph built from
/// a fresh accumulator by a sequence of observations has one edge per
/// distinct resolved (caller, span) pair, weighted by its multiplicity.
pub proof fn lemma_edge_weights_are_observation_counts(
    top: Option<Seq<char>>,
    evs: Seq<SpanEvent>,
)
    ensures
        forall|p: (Seq<char>, Seq<char>)|
            #[trigger] run_model(init_model(top), evs).edges.dom().contains(p) <==> pair_count(
                top,
                evs,
                p,
            ) > 0,
        forall|p: (Seq<char>, Seq<char>)|
            run_model(init_model(top), evs).edges.dom().contains(p) ==> #[trigger] run_model(
                init_model(top),
                evs,
            ).edges[p] == pair_count(top, evs, p),
{
    assert(init_model(top).top == top);
    assert(forall|p: (Seq<char>, Seq<char>)| !(#[trigger] init_model(top).edges.dom().contains(
        p,
    )));
    lemma_run_counts(init_model(top), evs);
}

/// A node exists for every span name ever entered: observation never
/// removes a node, and each observed span's name becomes one.
pub proof fn lemma_every_entered_span_has_a_node(m: GraphModel, evs: Seq<SpanEvent>)
    ensures
        forall|n: Seq<char>|
            m.nodes.contains(n) ==> run_model(m, evs).nodes.contains(n),
        forall|i: int|
            0 <= i < evs.len() ==> run_model(m, evs).nodes.contains(#[trigger] evs[i].span),
    decreases evs.len(),
{
    if evs.len() > 0 {
        lemma_every_entered_span_has_a_node(m, evs.drop_last());
        let prev = run_model(m, evs.drop_last());
        assert forall|i: int| 0 <= i < evs.len() implies run_model(m, evs).nodes.contains(
            #[trigger] evs[i].span,
        ) by {
            if i < evs.len() - 1 {
                assert(evs.drop_last()[i].span == evs[i].span);
                assert(prev.nodes.contains(evs[i].span));
            }
        }
    }
}

/// Observing a span name a second time inserts no further node: the node
/// set after two identical observations is the node set after one.
pub proof fn lemma_node_insertion_idempotent(
    m: GraphModel,
    span: Seq<char>,
    parent: Option<Seq<char>>,
)
    ensures
        m.observe(span, parent).observe(span, parent).nodes == m.observe(span, parent).nodes,
{
    assert(m.observe(span, parent).observe(span, parent).nodes =~= m.observe(
        span,
        parent,
    ).nodes);
}

/// Observations of pairwise distinct span names under one shared parent
/// build exactly one edge per observation, all from that parent and each
/// of weight 1 — and any interleaving of concurrent observers is some such
/// sequence, so the outcome does not depend on the order.
pub proof fn lemma_disjoint_spans_shared_parent(
    m: GraphModel,
    caller: Seq<char>,
    evs: Seq<SpanEvent>,
)
    requires
        m.edges == GraphModel::empty().edges,
        forall|i: int| 0 <= i < evs.len() ==> (#[trigger] evs[i]).parent == Some(caller),
        forall|i: int, j: int| 0 <= i < j < evs.len() ==> evs[i].span != evs[j].span,
    ensures
        forall|i: int|
            0 <= i < evs.len() ==> run_model(m, evs).edges.dom().contains(
                (caller, #[trigger] evs[i].span),
            ) && run_model(m, evs).edges[(caller, evs[i].span)] == 1,
        forall|p: (Seq<char>, Seq<char>)|
            #[trigger] run_model(m, evs).edges.dom().contains(p) ==> p.0 == caller && exists|
                i: int,
            | 0 <= i < evs.len() && p.1 == evs[i].span,
        run_model(m, evs).edges.dom().finite(),
        run_model(m, evs).edges.dom().len() == evs.len(),
    decreases evs.len(),
{
    if evs.len() == 0 {
        assert(run_model(m, evs).edges.dom() =~= Set::<(Seq<char>, Seq<char>)>::empty());
    } else {
        lemma_disjoint_spans_shared_parent(m, caller, evs.drop_last());
        let prev = run_model(m, evs.drop_last());
        let last = evs.last();
        assert(last.parent == Some(caller));
        let p = (caller, last.span);
        assert(!prev.edges.dom().contains(p)) by {
            if prev.edges.dom().contains(p) {
                let i = choose|i: int|
                    0 <= i < evs.drop_last().len() && p.1 == evs.drop_last()[i].span;
                assert(evs[i].span == evs[evs.len() - 1].span);
            }
        }
        assert(run_model(m, evs).edges == prev.edges.insert(p, 1nat));
        assert(run_model(m, evs).edges.dom() =~= prev.edges.dom().insert(p));
        assert forall|i: int| 0 <= i < evs.len() implies run_model(m, evs).edges.dom().contains(
            (caller, #[trigger] evs[i].span),
        ) && run_model(m, evs).edges[(caller, evs[i].span)] == 1 by {
            if i < evs.len() - 1 {
                assert(evs.drop_last()[i].span == evs[i].span);
                assert(prev.edges.dom().contains((caller, evs[i].span)) && prev.edges[(
                    caller,
                    evs[i].span,
                )] == 1);
                assert(evs[i].span != last.span);
            }
        }
    }
}

/// The event neither enters span `x` nor names `x` as a parent.
pub open spec fn avoids(ev: SpanEvent, x: Seq<char>) -> bool {
    ev.span != x && ev.parent != Some(x)
}

/// The worlds with and without top node `x` differ exactly by `x` and the
/// edges incident to it.
pub open spec fn toggles_to(w1: GraphModel, w2: GraphModel, x: Seq<char>) -> bool {
    &&& w1.top == Some(x)
    &&& w2.top is None
    &&& !w2.nodes.contains(x)
    &&& w1.nodes == w2.nodes.insert(x)
    &&& crate::graph::edges_without_node(w1.edges, x) == w2.edges
    &&& forall|p: (Seq<char>, Seq<char>)| #[trigger]
        w2.edges.dom().contains(p) ==> p.0 != x && p.1 != x
}

proof fn lemma_toggle_step(w1: GraphModel, w2: GraphModel, x: Seq<char>, ev: SpanEvent)
    requires
        toggles_to(w1, w2, x),
        avoids(ev, x),
    ensures
        toggles_to(w1.observe(ev.span, ev.parent), w2.observe(ev.span, ev.parent), x),
{
    let v1 = w1.observe(ev.span, ev.parent);
    let v2 = w2.observe(ev.span, ev.parent);
    match ev.parent {
        Some(par) => {
            assert(w1.edges.dom().contains((par, ev.span)) == w2.edges.dom().contains(
                (par, ev.span),
            ) && (w1.edges.dom().contains((par, ev.span)) ==> w1.edges[(par, ev.span)]
                == w2.edges[(par, ev.span)])) by {
                assert(crate::graph::edges_without_node(w1.edges, x).dom().contains(
                    (par, ev.span),
                ) == w1.edges.dom().contains((par, ev.span)));
            }
            assert(v1.nodes =~= v2.nodes.insert(x));
            assert(crate::graph::edges_without_node(v1.edges, x) =~= v2.edges);
        },
        None => {
            assert(v1.nodes =~= v2.nodes.insert(x));
            assert(crate::graph::edges_without_node(v1.edges, x) =~= v2.edges);
        },
    }
}

proof fn lemma_toggle_run(w1: GraphModel, w2: GraphModel, x: Seq<char>, evs: Seq<SpanEvent>)
    requires
        toggles_to(w1, w2, x),
        forall|i: int| 0 <= i < evs.len() ==> avoids(#[trigger] evs[i], x),
    ensures
        toggles_to(run_model(w1, evs), run_model(w2, evs), x),
    decreases evs.len(),
{
    if evs.len() > 0 {
        lemma_toggle_run(w1, w2, x, evs.drop_last());
        lemma_toggle_step(run_model(w1, evs.drop_last()), run_model(w2, evs.drop_last()), x,
            evs.last());
    }
}

/// Enabling top node `x`, observing any events that do not mention `x`,
/// and disabling it again leaves exactly the graph the same events build
/// with no top node: the removed node takes its incident edges, and the
/// weights accumulated on them, away with it.
pub proof fn lemma_top_node_toggle(m: GraphModel, x: Seq<char>, evs: Seq<SpanEvent>)
    requires
        m.wf(),
        m.top is None,
        !m.nodes.contains(x),
        forall|i: int| 0 <= i < evs.len() ==> avoids(#[trigger] evs[i], x),
    ensures
        run_model(m.enable_top(x), evs).disable_top() == run_model(m, evs),
{
    assert(toggles_to(m.enable_top(x), m, x)) by {
        assert(crate::graph::edges_without_node(m.enable_top(x).edges, x) =~= m.edges);
    }
    lemma_toggle_run(m.enable_top(x), m, x, evs);
    let v1 = run_model(m.enable_top(x), evs);
    let v2 = run_model(m, evs);
    assert(v1.disable_top() =~= v2) by {
        assert(v1.nodes.remove(x) =~= v2.nodes);
        assert(crate::graph::edges_without_node(v1.edges, x) =~= v2.edges);
    }
}

} // verus!
