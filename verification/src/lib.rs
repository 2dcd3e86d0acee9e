//! Trace export for a Datadog intake: span buffering, grouping of spans into
//! traces, conversion to the wire structures, and the header codec that
//! carries a trace context between services.
//!
//! The library computes and decides; it neither locks, waits nor sends. A
//! host keeps a buffer behind its own lock or channel, takes a batch out of
//! it, lets the exporter turn the batch into a payload and a request, and
//! hands the request to its transport. Delivery is at most once: a batch
//! that left the buffer is not put back when its export fails.
//!
//! Trace identifiers are 128 bits wide in the tracing model and 64 bits on
//! the wire. Narrowing keeps the high half and drops the low one, so traces
//! that differ in the low half only share their narrow identifier.

pub mod ident;
pub mod order;
pub mod entries;
pub mod model;
pub mod wire;
pub mod encoder;
pub mod grouper;
pub mod error;
pub mod exporter;
pub mod decimal;
pub mod propagator;
pub mod buffer;
pub mod pipeline;

pub use buffer::{
    BufferPolicy, FlushAction, SignalGatedBuffer, SpanProcessExt, WASMWorkerSpanProcessor,
};
pub use error::Error;
pub use exporter::DatadogExporter;
pub use pipeline::{new_pipeline, DatadogPipelineBuilder};
pub use propagator::DatadogPropagator;
