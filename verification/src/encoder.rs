//! From span records to the spans and chunks of the wire.

use vstd::prelude::*;
use vstd::string::*;
use crate::entries::{
    entries_map, lookup_or_empty, sorted_entries, strictly_sorted, value_or_empty,
};
use crate::exporter::DatadogExporter;
use crate::ident::{narrow, u128_to_u64s};
use crate::model::{SpanRecord, SpanRecordView, StatusCode};
use crate::wire::{spans_view, Span, SpanView, TraceChunk, TraceChunkView};

verus! {

/// The attribute that names the resource a span worked on.
pub const RESOURCE_ATTRIBUTE: &'static str = "code.namespace";

/// The type label that every exported span carries.
pub const SPAN_TYPE: &'static str = "http";

/// The priority of a chunk whose trace came without one.
pub const DEFAULT_PRIORITY: i32 = 100;

/// The origin tag of every exported chunk.
pub const CHUNK_ORIGIN: &'static str = "lambda";

/// The wire's error flag: 1 for a span that ended in error, 0 for any other.
pub open spec fn error_flag_of(status: StatusCode) -> i32 {
    match status {
        StatusCode::Error => 1,
        StatusCode::Okay => 0,
        StatusCode::Unset => 0,
    }
}

/// A count of nanoseconds in the wire's signed 64-bit field. A count that
/// fits is kept; a larger one is cut to its low 64 bits.
pub open spec fn nanos_on_wire(nanos: u128) -> i64 {
    nanos as i64
}

/// `span` is the wire form of `record` as exported for `service`.
pub open spec fn is_wire_span_of(span: SpanView, service: Seq<char>, record: SpanRecordView) -> bool {
    &&& span.service == service
    &&& span.name == record.name
    &&& span.resource == value_or_empty(entries_map(record.attributes), RESOURCE_ATTRIBUTE@)
    &&& span.span_type == SPAN_TYPE@
    &&& span.trace_id == narrow(record.trace_id)
    &&& span.span_id == record.span_id
    &&& span.parent_id == record.parent_span_id
    &&& span.error == error_flag_of(record.status_code)
    &&& span.start == nanos_on_wire(record.start_time_unix_nanos)
    &&& span.duration == nanos_on_wire(record.duration_nanos)
    &&& strictly_sorted(span.meta)
    &&& entries_map(span.meta) == entries_map(record.attributes)
    &&& span.metrics.len() == 0
    &&& span.meta_struct.len() == 0
}

/// The wire's error flag for a completion status.
pub fn error_flag(status: StatusCode) -> (flag: i32)
    ensures
        flag == error_flag_of(status),
        flag == 1 <==> status == StatusCode::Error,
        flag == 0 <==> status != StatusCode::Error,
{
    match status {
        StatusCode::Unset | StatusCode::Okay => 0,
        StatusCode::Error => 1,
    }
}

/// Cuts a count of nanoseconds to the wire's field.
pub fn nanos_to_wire(nanos: u128) -> (wire: i64)
    ensures
        wire == nanos_on_wire(nanos),
        nanos <= i64::MAX ==> wire == nanos,
{
    #[verifier::truncate]
    (nanos as i64)
}

/// Converts one span record to its wire form, for the service that the
/// exporter reports as.
pub fn trace_into_dd_tracer_payload<C>(exporter: &DatadogExporter<C>, trace: SpanRecord) -> (span:
    Span)
    ensures
        is_wire_span_of(span@, exporter.service_name@, trace@),
{
    let meta = sorted_entries(&trace.attributes);
    let resource = lookup_or_empty(&meta, RESOURCE_ATTRIBUTE);
    let halves = u128_to_u64s(trace.trace_id);
    let span = Span {
        service: exporter.service_name.clone(),
        name: trace.name,
        resource,
        span_type: String::from_str(SPAN_TYPE),
        trace_id: halves[0],
        span_id: trace.span_id,
        parent_id: trace.parent_span_id,
        error: error_flag(trace.status_code),
        start: nanos_to_wire(trace.start_time_unix_nanos),
        duration: nanos_to_wire(trace.duration_nanos),
        meta,
        metrics: Vec::new(),
        meta_struct: Vec::new(),
    };
    span
}

/// Wraps the spans of one trace into a chunk with the default priority and
/// the fixed origin.
pub fn trace_into_chunk(spans: Vec<Span>) -> (chunk: TraceChunk)
    ensures
        chunk.spans == spans,
        chunk@ == (TraceChunkView {
            priority: DEFAULT_PRIORITY,
            origin: CHUNK_ORIGIN@,
            spans: spans_view(spans@),
            tags: Seq::empty(),
            dropped_trace: false,
        }),
{
    let chunk = TraceChunk {
        priority: DEFAULT_PRIORITY,
        origin: String::from_str(CHUNK_ORIGIN),
        spans,
        tags: Vec::new(),
        dropped_trace: false,
    };
    assert(chunk@.tags =~= Seq::empty());
    chunk
}

} // verus!
