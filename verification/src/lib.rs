//! A "derived value" (map) node for an incremental-computation dataflow graph.
//!
//! The node caches the result of a mapping function over a fixed, ordered set
//! of upstream inputs, tracks staleness through `dirty` notifications from the
//! owning engine, and brings itself up to date through the `poll_updated`
//! state machine, suppressing change propagation when a recomputed value is
//! equal to the cached one (a cutoff).

pub mod context;
pub mod laws;
pub mod node;
pub mod poll;
pub mod protocol;
pub mod scripted;
pub mod sum;
