//! Builds a directed, weighted call graph from a stream of span-entry
//! events and renders it in Graphviz dot notation.
//!
//! Each span name is one node; an edge `A -> B` carries the number of
//! times span `B` was entered while `A` was its nearest enclosing span
//! (or while `A` was the designated top node and `B` had no parent).

pub mod graph;
pub mod layer;
pub mod laws;

pub use graph::CallGraph;
pub use layer::flush_decision;
pub use layer::FlushDecision;
pub use layer::GraphLayer;
pub use layer::GraphModel;
