use tracing_callgraph::GraphLayer;

#[test]
fn fresh_layer_is_empty() {
    let layer = GraphLayer::new();
    assert_eq!(layer.node_count(), 0);
    assert_eq!(layer.edge_count(), 0);
    assert!(!layer.contains_node("anything"));
}

#[test]
fn observing_creates_node_and_edge() {
    let mut layer = GraphLayer::new();
    layer.observe("inner", Some("outer"));
    assert!(layer.contains_node("inner"));
    assert!(layer.contains_node("outer"));
    assert_eq!(layer.edge_weight("outer", "inner"), Some(1));
    assert_eq!(layer.edge_weight("inner", "outer"), None);
}

#[test]
fn parentless_span_without_top_node_records_node_only() {
    let mut layer = GraphLayer::new();
    layer.observe("solo", None);
    assert!(layer.contains_node("solo"));
    assert_eq!(layer.node_count(), 1);
    assert_eq!(layer.edge_count(), 0);
}

#[test]
fn repeated_observation_increments_weight_instead_of_duplicating() {
    let mut layer = GraphLayer::new();
    layer.observe("inner", Some("outer_a"));
    layer.observe("inner", Some("outer_a"));
    assert_eq!(layer.edge_count(), 1);
    assert_eq!(layer.edge_weight("outer_a", "inner"), Some(2));
}

#[test]
fn repeated_span_names_collapse_to_one_node() {
    let mut layer = GraphLayer::new();
    layer.observe("worker", None);
    layer.observe("worker", None);
    layer.observe("worker", None);
    assert_eq!(layer.node_count(), 1);
}

#[test]
fn end_to_end_without_top_node() {
    let mut layer = GraphLayer::new();
    layer.observe("inner", Some("outer_a"));
    layer.observe("inner", Some("outer_b"));
    layer.observe("outer_a", None);
    layer.observe("outer_b", None);
    assert_eq!(layer.node_count(), 3);
    assert!(layer.contains_node("inner"));
    assert!(layer.contains_node("outer_a"));
    assert!(layer.contains_node("outer_b"));
    assert_eq!(layer.edge_count(), 2);
    assert_eq!(layer.edge_weight("outer_a", "inner"), Some(1));
    assert_eq!(layer.edge_weight("outer_b", "inner"), Some(1));
    // no top node and no parent given: the outer spans have no incoming edges
    for from in ["inner", "outer_a", "outer_b"] {
        assert_eq!(layer.edge_weight(from, "outer_a"), None);
        assert_eq!(layer.edge_weight(from, "outer_b"), None);
    }
}

#[test]
fn end_to_end_with_top_node() {
    let mut layer = GraphLayer::new().enable_top_node("root");
    layer.observe("inner", Some("outer_a"));
    layer.observe("inner", Some("outer_b"));
    layer.observe("outer_a", None);
    layer.observe("outer_b", None);
    assert_eq!(layer.node_count(), 4);
    assert!(layer.contains_node("root"));
    assert_eq!(layer.edge_count(), 4);
    assert_eq!(layer.edge_weight("outer_a", "inner"), Some(1));
    assert_eq!(layer.edge_weight("outer_b", "inner"), Some(1));
    assert_eq!(layer.edge_weight("root", "outer_a"), Some(1));
    assert_eq!(layer.edge_weight("root", "outer_b"), Some(1));
    assert_eq!(layer.edge_weight("root", "inner"), None);
}

#[test]
fn disjoint_spans_with_shared_parent_get_one_edge_each() {
    let spans = ["s00", "s01", "s02", "s10", "s11", "s12"];
    let mut layer = GraphLayer::new();
    for span in spans {
        layer.observe(span, Some("parent"));
    }
    assert_eq!(layer.edge_count(), spans.len());
    for span in spans {
        assert_eq!(layer.edge_weight("parent", span), Some(1));
    }
}

#[test]
fn top_node_toggle_restores_the_graph() {
    let layer = GraphLayer::new().enable_top_node("root").disable_top_node();
    assert_eq!(layer.node_count(), 0);
    assert_eq!(layer.edge_count(), 0);
    assert!(!layer.contains_node("root"));
}

#[test]
fn disabling_top_node_drops_its_accumulated_edges() {
    let mut layer = GraphLayer::new();
    layer.observe("inner", Some("outer"));
    layer = layer.enable_top_node("root");
    layer.observe("outer", None);
    assert_eq!(layer.edge_weight("root", "outer"), Some(1));
    layer = layer.disable_top_node();
    assert!(!layer.contains_node("root"));
    assert_eq!(layer.edge_weight("root", "outer"), None);
    // unrelated data survives the toggle
    assert!(layer.contains_node("inner"));
    assert!(layer.contains_node("outer"));
    assert_eq!(layer.edge_weight("outer", "inner"), Some(1));
    assert_eq!(layer.node_count(), 2);
    assert_eq!(layer.edge_count(), 1);
}

#[test]
fn enabling_a_new_top_node_disables_the_old_one() {
    let layer = GraphLayer::new().enable_top_node("first").enable_top_node("second");
    assert!(!layer.contains_node("first"));
    assert!(layer.contains_node("second"));
    assert_eq!(layer.node_count(), 1);
}

#[test]
fn enabling_the_same_top_node_twice_is_idempotent() {
    let layer = GraphLayer::new().enable_top_node("root").enable_top_node("root");
    assert!(layer.contains_node("root"));
    assert_eq!(layer.node_count(), 1);
    assert_eq!(layer.edge_count(), 0);
}

#[test]
fn rendering_twice_without_mutation_is_byte_identical() {
    let mut layer = GraphLayer::new().enable_top_node("root");
    layer.observe("inner", Some("outer"));
    layer.observe("outer", None);
    let first = layer.render_dot();
    let second = layer.render_dot();
    assert_eq!(first, second);
    assert_eq!(first.into_bytes(), second.into_bytes());
}

#[test]
fn rendered_dot_reflects_the_graph() {
    let mut layer = GraphLayer::new();
    let empty = layer.render_dot();
    assert!(empty.starts_with("digraph"));
    assert!(empty.ends_with('\n'));
    layer.observe("inner", Some("outer"));
    layer.observe("inner", Some("outer"));
    let text = layer.render_dot();
    assert_ne!(empty, text);
    assert!(text.contains("inner"));
    assert!(text.contains("outer"));
    // the edge's label carries its weight
    assert!(text.contains('2'));
}

#[test]
fn observation_room_is_reported_before_recording() {
    let mut layer = GraphLayer::new();
    assert!(layer.can_observe("inner", Some("outer")));
    layer.observe("inner", Some("outer"));
    assert!(layer.can_observe("inner", Some("outer")));
    assert!(layer.can_observe("lonely", None));
}

#[test]
fn flush_decision_follows_the_poison_policy() {
    assert!(matches!(
        tracing_callgraph::flush_decision(false, false),
        tracing_callgraph::FlushDecision::Proceed
    ));
    assert!(matches!(
        tracing_callgraph::flush_decision(false, true),
        tracing_callgraph::FlushDecision::Proceed
    ));
    assert!(matches!(
        tracing_callgraph::flush_decision(true, true),
        tracing_callgraph::FlushDecision::SkipDuringUnwind
    ));
    assert!(matches!(
        tracing_callgraph::flush_decision(true, false),
        tracing_callgraph::FlushDecision::PanicFatal
    ));
}
