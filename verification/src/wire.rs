//! The nested messages of the trace intake: spans in chunks, chunks in a
//! tracer's payload, tracer payloads in the payload that is sent.

use vstd::prelude::*;
use crate::entries::{entries_view, KeyValue};

verus! {

/// A span as the intake reads it.
#[derive(Debug)]
pub struct Span {
    pub service: String,
    pub name: String,
    pub resource: String,
    pub span_type: String,
    pub trace_id: u64,
    pub span_id: u64,
    pub parent_id: u64,
    pub error: i32,
    pub start: i64,
    pub duration: i64,
    /// Sorted by key.
    pub meta: Vec<KeyValue>,
    /// Sorted by key.
    pub metrics: Vec<KeyValue>,
    /// Sorted by key.
    pub meta_struct: Vec<(String, Vec<u8>)>,
}

pub ghost struct SpanView {
    pub service: Seq<char>,
    pub name: Seq<char>,
    pub resource: Seq<char>,
    pub span_type: Seq<char>,
    pub trace_id: u64,
    pub span_id: u64,
    pub parent_id: u64,
    pub error: i32,
    pub start: i64,
    pub duration: i64,
    pub meta: Seq<(Seq<char>, Seq<char>)>,
    pub metrics: Seq<(Seq<char>, Seq<char>)>,
    pub meta_struct: Seq<(Seq<char>, Seq<u8>)>,
}

impl View for Span {
    type V = SpanView;

    open spec fn view(&self) -> SpanView {
        SpanView {
            service: self.service@,
            name: self.name@,
            resource: self.resource@,
            span_type: self.span_type@,
            trace_id: self.trace_id,
            span_id: self.span_id,
            parent_id: self.parent_id,
            error: self.error,
            start: self.start,
            duration: self.duration,
            meta: entries_view(self.meta@),
            metrics: entries_view(self.metrics@),
            meta_struct: self.meta_struct@.map_values(|e: (String, Vec<u8>)| (e.0@, e.1@)),
        }
    }
}

pub open spec fn spans_view(spans: Seq<Span>) -> Seq<SpanView> {
    spans.map_values(|s: Span| s@)
}

/// The spans of one trace, with what the intake needs to sample them.
#[derive(Debug)]
pub struct TraceChunk {
    pub priority: i32,
    pub origin: String,
    pub spans: Vec<Span>,
    /// Sorted by key.
    pub tags: Vec<KeyValue>,
    pub dropped_trace: bool,
}

pub ghost struct TraceChunkView {
    pub priority: i32,
    pub origin: Seq<char>,
    pub spans: Seq<SpanView>,
    pub tags: Seq<(Seq<char>, Seq<char>)>,
    pub dropped_trace: bool,
}

impl View for TraceChunk {
    type V = TraceChunkView;

    open spec fn view(&self) -> TraceChunkView {
        TraceChunkView {
            priority: self.priority,
            origin: self.origin@,
            spans: spans_view(self.spans@),
            tags: entries_view(self.tags@),
            dropped_trace: self.dropped_trace,
        }
    }
}

pub open spec fn chunks_view(chunks: Seq<TraceChunk>) -> Seq<TraceChunkView> {
    chunks.map_values(|c: TraceChunk| c@)
}

/// The chunks of one exporting process, with what identifies the process.
#[derive(Debug)]
pub struct TracerPayload {
    pub container_id: String,
    pub language_name: String,
    pub language_version: String,
    pub tracer_version: String,
    pub runtime_id: String,
    pub chunks: Vec<TraceChunk>,
    pub app_version: String,
}

pub ghost struct TracerPayloadView {
    pub container_id: Seq<char>,
    pub language_name: Seq<char>,
    pub language_version: Seq<char>,
    pub tracer_version: Seq<char>,
    pub runtime_id: Seq<char>,
    pub chunks: Seq<TraceChunkView>,
    pub app_version: Seq<char>,
}

impl View for TracerPayload {
    type V = TracerPayloadView;

    open spec fn view(&self) -> TracerPayloadView {
        TracerPayloadView {
            container_id: self.container_id@,
            language_name: self.language_name@,
            language_version: self.language_version@,
            tracer_version: self.tracer_version@,
            runtime_id: self.runtime_id@,
            chunks: chunks_view(self.chunks@),
            app_version: self.app_version@,
        }
    }
}

pub open spec fn tracer_payloads_view(payloads: Seq<TracerPayload>) -> Seq<TracerPayloadView> {
    payloads.map_values(|p: TracerPayload| p@)
}

/// What is serialized and sent: the tracer payloads of one host.
#[derive(Debug)]
pub struct TracePayload {
    pub host_name: String,
    pub env: String,
    pub tracer_payloads: Vec<TracerPayload>,
    /// Sorted by key.
    pub tags: Vec<KeyValue>,
    pub agent_version: String,
    /// Traces per second that the sender aims at.
    pub target_tps: u32,
    /// Error traces per second that the sender aims at.
    pub error_tps: u32,
}

pub ghost struct TracePayloadView {
    pub host_name: Seq<char>,
    pub env: Seq<char>,
    pub tracer_payloads: Seq<TracerPayloadView>,
    pub tags: Seq<(Seq<char>, Seq<char>)>,
    pub agent_version: Seq<char>,
    pub target_tps: u32,
    pub error_tps: u32,
}

impl View for TracePayload {
    type V = TracePayloadView;

    open spec fn view(&self) -> TracePayloadView {
        TracePayloadView {
            host_name: self.host_name@,
            env: self.env@,
            tracer_payloads: tracer_payloads_view(self.tracer_payloads@),
            tags: entries_view(self.tags@),
            agent_version: self.agent_version@,
            target_tps: self.target_tps,
            error_tps: self.error_tps,
        }
    }
}

} // verus!
