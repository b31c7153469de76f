//! Control-to-realtime synchronisation for an audio processing graph:
//! parameter diffs and patches, per-node event queues, node processors, the
//! graph's connection rules and the stream's lifecycle.
pub mod context;
pub mod graph;
pub mod node;
pub mod params;
pub mod queue;
pub mod stream;

pub use node::{DummyConfig, DummyState};
