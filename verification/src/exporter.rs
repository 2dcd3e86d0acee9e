//! The exporter: what it is configured with, and what it sends for a batch of
//! span records.

use vstd::prelude::*;
use vstd::string::*;
use crate::encoder::{
    is_wire_span_of, trace_into_chunk, trace_into_dd_tracer_payload, CHUNK_ORIGIN,
    DEFAULT_PRIORITY,
};
use crate::entries::{entries_map, entries_view, sorted_entries, strictly_sorted, KeyValue};
use crate::error::Error;
use crate::grouper::{all_spans, group_into_traces, groups_view, is_grouping_of};
use crate::model::{records_view, SpanRecord, SpanRecordView};
use crate::wire::{
    chunks_view, tracer_payloads_view, Span, TraceChunk, TraceChunkView, TracePayload,
    TracePayloadView, TracerPayload, TracerPayloadView,
};

verus! {

/// The path of the trace intake below the endpoint.
pub const DEFAULT_DD_TRACES_PATH: &'static str = "api/v0.2/traces";

/// The content type of an export request.
pub const DEFAULT_DD_CONTENT_TYPE: &'static str = "application/x-protobuf";

/// The header that carries the API key.
pub const DEFAULT_DD_API_KEY_HEADER: &'static str = "DD-Api-Key";

/// The header that names the content type.
pub const CONTENT_TYPE_HEADER: &'static str = "content-type";

/// The header that names the language of the reporting tracer.
pub const REPORTED_LANGUAGES_HEADER: &'static str = "X-Datadog-Reported-Languages";

/// The language tag of this tracer.
pub const LANGUAGE_NAME: &'static str = "rust";

/// The method of an export request.
pub const EXPORT_METHOD: &'static str = "POST";

/// The version that payloads report for tracer and agent.
pub const VERSION: &'static str = "0.1.0";

/// The throughput, in traces per second, that payloads announce as target.
pub const TARGET_TPS: u32 = 1000;

/// Datadog span exporter. `C` is the transport that requests are handed to;
/// the exporter carries it and never looks inside.
pub struct DatadogExporter<C> {
    pub client: C,
    /// The address of the intake: the endpoint followed by the intake's path.
    pub request_url: String,
    pub service_name: String,
    pub env: String,
    pub tags: Vec<KeyValue>,
    pub host_name: String,
    pub key: String,
    pub runtime_id: String,
    pub container_id: String,
    pub app_version: String,
    pub flush_size: usize,
}

/// One outbound request, as the transport is to send it.
#[derive(Debug)]
pub struct ExportRequest {
    pub method: String,
    pub url: String,
    /// The headers in the order they are to be set.
    pub headers: Vec<KeyValue>,
    pub body: Vec<u8>,
}

/// `chunk` is the chunk that carries the spans of `group`, one wire span for
/// each record and in the same order.
pub open spec fn is_chunk_of(
    chunk: TraceChunkView,
    service: Seq<char>,
    group: Seq<SpanRecordView>,
) -> bool {
    &&& chunk.priority == DEFAULT_PRIORITY
    &&& chunk.origin == CHUNK_ORIGIN@
    &&& chunk.tags.len() == 0
    &&& !chunk.dropped_trace
    &&& chunk.spans.len() == group.len()
    &&& forall|j: int|
        0 <= j < group.len() ==> is_wire_span_of(#[trigger] chunk.spans[j], service, group[j])
}

/// There is one chunk for each group, in the order of the groups.
pub open spec fn are_chunks_of(
    chunks: Seq<TraceChunkView>,
    service: Seq<char>,
    groups: Seq<Seq<SpanRecord>>,
) -> bool {
    &&& chunks.len() == groups.len()
    &&& forall|i: int|
        0 <= i < groups.len() ==> is_chunk_of(#[trigger] chunks[i], service, records_view(groups[i]))
}

impl<C> DatadogExporter<C> {
    #[allow(clippy::too_many_arguments)]
    pub fn new(
        service_name: String,
        request_url: String,
        client: C,
        key: String,
        env: String,
        tags: Vec<KeyValue>,
        host_name: String,
        runtime_id: String,
        container_id: String,
        app_version: String,
        flush_size: usize,
    ) -> (exporter: Self)
        ensures
            exporter == (DatadogExporter {
                client,
                request_url,
                service_name,
                env,
                tags,
                host_name,
                key,
                runtime_id,
                container_id,
                app_version,
                flush_size,
            }),
    {
        DatadogExporter {
            client,
            request_url,
            service_name,
            env,
            tags,
            host_name,
            key,
            runtime_id,
            container_id,
            app_version,
            flush_size,
        }
    }

    /// The tracer payload that `payload` must be for the given chunks.
    pub open spec fn tracer_payload_of(&self, chunks: Seq<TraceChunkView>) -> TracerPayloadView {
        TracerPayloadView {
            container_id: self.container_id@,
            language_name: LANGUAGE_NAME@,
            language_version: Seq::empty(),
            tracer_version: VERSION@,
            runtime_id: self.runtime_id@,
            chunks,
            app_version: self.app_version@,
        }
    }

    /// `payload` is the envelope of this exporter around the given tracer
    /// payloads: the exporter's host and environment, its tags as a sorted
    /// list, and the fixed version and throughput hints.
    pub open spec fn is_envelope_of(
        &self,
        payload: TracePayloadView,
        tracer_payloads: Seq<TracerPayloadView>,
    ) -> bool {
        &&& payload.host_name == self.host_name@
        &&& payload.env == self.env@
        &&& payload.tracer_payloads == tracer_payloads
        &&& strictly_sorted(payload.tags)
        &&& entries_map(payload.tags) == entries_map(entries_view(self.tags@))
        &&& payload.agent_version == VERSION@
        &&& payload.target_tps == TARGET_TPS
        &&& payload.error_tps == TARGET_TPS
    }

    /// `payload` is what this exporter sends for spans grouped as `groups`:
    /// one tracer payload with one chunk for each group.
    pub open spec fn is_payload_of(
        &self,
        payload: TracePayloadView,
        groups: Seq<Seq<SpanRecord>>,
    ) -> bool {
        &&& payload.tracer_payloads.len() == 1
        &&& self.is_envelope_of(payload, payload.tracer_payloads)
        &&& payload.tracer_payloads[0] == self.tracer_payload_of(payload.tracer_payloads[0].chunks)
        &&& are_chunks_of(payload.tracer_payloads[0].chunks, self.service_name@, groups)
    }

    /// Wraps chunks into the payload of this tracer.
    pub fn trace_into_tracer(&self, chunks: Vec<TraceChunk>) -> (payload: TracerPayload)
        ensures
            payload.chunks == chunks,
            payload@ == self.tracer_payload_of(chunks_view(chunks@)),
    {
        TracerPayload {
            container_id: self.container_id.clone(),
            language_name: String::from_str(LANGUAGE_NAME),
            language_version: String::new(),
            tracer_version: String::from_str(VERSION),
            runtime_id: self.runtime_id.clone(),
            chunks,
            app_version: self.app_version.clone(),
        }
    }

    /// Wraps tracer payloads into the payload that is sent.
    pub fn trace_build(&self, tracer: Vec<TracerPayload>) -> (payload: TracePayload)
        ensures
            payload.tracer_payloads == tracer,
            self.is_envelope_of(payload@, tracer_payloads_view(tracer@)),
    {
        TracePayload {
            host_name: self.host_name.clone(),
            env: self.env.clone(),
            tracer_payloads: tracer,
            tags: sorted_entries(&self.tags),
            agent_version: String::from_str(VERSION),
            target_tps: TARGET_TPS,
            error_tps: TARGET_TPS,
        }
    }

    /// Converts the spans of one trace, one for one and in their order.
    pub fn trace_into_spans(&self, trace: Vec<SpanRecord>) -> (spans: Vec<Span>)
        ensures
            spans@.len() == trace@.len(),
            forall|j: int|
                0 <= j < trace@.len() ==> is_wire_span_of(
                    (#[trigger] spans@[j])@,
                    self.service_name@,
                    trace@[j]@,
                ),
    {
        let ghost records = trace@;
        let mut spans: Vec<Span> = Vec::new();
        for record in it: trace
            invariant
                it.seq() == records,
                spans@.len() == it.index(),
                forall|j: int|
                    0 <= j < spans@.len() ==> is_wire_span_of(
                        (#[trigger] spans@[j])@,
                        self.service_name@,
                        records[j]@,
                    ),
        {
            let span = trace_into_dd_tracer_payload(self, record);
            spans.push(span);
        }
        spans
    }

    /// Converts traces into chunks, one for each and in the same order.
    pub fn traces_into_chunks(&self, traces: Vec<Vec<SpanRecord>>) -> (chunks: Vec<TraceChunk>)
        ensures
            are_chunks_of(chunks_view(chunks@), self.service_name@, groups_view(traces@)),
    {
        let ghost groups = traces@;
        let mut chunks: Vec<TraceChunk> = Vec::new();
        for trace in it: traces
            invariant
                it.seq() == groups,
                chunks@.len() == it.index(),
                forall|i: int|
                    0 <= i < chunks@.len() ==> is_chunk_of(
                        (#[trigger] chunks@[i])@,
                        self.service_name@,
                        records_view(groups[i]@),
                    ),
        {
            let ghost group = trace@;
            let spans = self.trace_into_spans(trace);
            let chunk = trace_into_chunk(spans);
            assert(is_chunk_of(chunk@, self.service_name@, records_view(group)));
            chunks.push(chunk);
        }
        chunks
    }

    /// Builds what is sent for a batch: the spans grouped by trace, each group
    /// converted into a chunk, the chunks in one tracer payload, and that in
    /// the exporter's envelope.
    pub fn export(&self, batch: Vec<SpanRecord>) -> (payload: TracePayload)
        ensures
            exists|groups: Seq<Seq<SpanRecord>>| #[trigger]
                is_grouping_of(groups, batch@) && self.is_payload_of(payload@, groups),
    {
        let traces = group_into_traces(batch);
        let ghost groups = groups_view(traces@);
        let chunks = self.traces_into_chunks(traces);
        let tracer = self.trace_into_tracer(chunks);
        let mut tracers: Vec<TracerPayload> = Vec::new();
        tracers.push(tracer);
        let payload = self.trace_build(tracers);
        proof {
            assert(payload@.tracer_payloads.len() == 1);
            assert(is_grouping_of(groups, batch@) && self.is_payload_of(payload@, groups));
        }
        payload
    }

    /// The request that carries a serialized payload to the intake.
    pub fn request(&self, body: Vec<u8>) -> (request: ExportRequest)
        ensures
            request.method@ == EXPORT_METHOD@,
            request.url@ == self.request_url@,
            entries_view(request.headers@) == seq![
                (CONTENT_TYPE_HEADER@, DEFAULT_DD_CONTENT_TYPE@),
                (REPORTED_LANGUAGES_HEADER@, LANGUAGE_NAME@),
                (DEFAULT_DD_API_KEY_HEADER@, self.key@),
            ],
            request.body == body,
    {
        let mut headers: Vec<KeyValue> = Vec::new();
        headers.push(KeyValue::new(CONTENT_TYPE_HEADER, DEFAULT_DD_CONTENT_TYPE));
        headers.push(KeyValue::new(REPORTED_LANGUAGES_HEADER, LANGUAGE_NAME));
        headers.push(KeyValue::new(DEFAULT_DD_API_KEY_HEADER, self.key.as_str()));
        assert(entries_view(headers@) =~= seq![
            (CONTENT_TYPE_HEADER@, DEFAULT_DD_CONTENT_TYPE@),
            (REPORTED_LANGUAGES_HEADER@, LANGUAGE_NAME@),
            (DEFAULT_DD_API_KEY_HEADER@, self.key@),
        ]);
        ExportRequest {
            method: String::from_str(EXPORT_METHOD),
            url: self.request_url.clone(),
            headers,
            body,
        }
    }
}

/// What an export comes to once the transport has answered: success if the
/// request went through, and otherwise an error that carries the transport's
/// account of the failure. Nothing is sent again.
pub fn export_outcome(sent: Result<(), String>) -> (outcome: Result<(), Error>)
    ensures
        match sent {
            Ok(_) => outcome is Ok,
            Err(cause) => outcome == Err::<(), Error>(Error::Other(cause)),
        },
{
    match sent {
        Ok(_) => Ok(()),
        Err(cause) => Err(Error::Other(cause)),
    }
}

/// In every chunk of an export the spans carry one narrow trace identifier,
/// and the chunks' spans are, one for one, the spans of the batch: the groups
/// behind the chunks hold each span of the batch exactly as often as the
/// batch does.
pub proof fn lemma_chunks_keep_traces_together(
    chunks: Seq<TraceChunkView>,
    service: Seq<char>,
    groups: Seq<Seq<SpanRecord>>,
    batch: Seq<SpanRecord>,
)
    requires
        is_grouping_of(groups, batch),
        are_chunks_of(chunks, service, groups),
    ensures
        forall|i: int, a: int, b: int|
            0 <= i < chunks.len() && 0 <= a < chunks[i].spans.len() && 0 <= b
                < chunks[i].spans.len() ==> #[trigger] chunks[i].spans[a].trace_id
                == #[trigger] chunks[i].spans[b].trace_id,
        forall|i: int| 0 <= i < chunks.len() ==> (#[trigger] chunks[i]).spans.len() == groups[i].len(),
        all_spans(groups).to_multiset() == batch.to_multiset(),
{
    assert forall|i: int, a: int, b: int|
        0 <= i < chunks.len() && 0 <= a < chunks[i].spans.len() && 0 <= b
            < chunks[i].spans.len() implies #[trigger] chunks[i].spans[a].trace_id
        == #[trigger] chunks[i].spans[b].trace_id by {
        let group = records_view(groups[i]);
        assert(is_chunk_of(chunks[i], service, group));
        assert(is_wire_span_of(chunks[i].spans[a], service, group[a]));
        assert(is_wire_span_of(chunks[i].spans[b], service, group[b]));
        assert(groups[i][a].trace_id == groups[i][b].trace_id);
    }
    assert forall|i: int| 0 <= i < chunks.len() implies (#[trigger] chunks[i]).spans.len()
        == groups[i].len() by {
        assert(is_chunk_of(chunks[i], service, records_view(groups[i])));
    }
}

} // verus!
