//! A diagnostic-event pipeline: trace contexts and their propagation, an
//! ordered chain of observing layers, and a batching exporter whose
//! delivery is driven from outside through plain values.

pub mod context;
pub mod endpoint;
pub mod error;
pub mod event;
pub mod exporter;
pub mod filter;
pub mod handler;
pub mod hex;
pub mod ids;
pub mod level;
pub mod pipeline;
pub mod propagation;
pub mod registry;
pub mod scope;
pub mod text;
