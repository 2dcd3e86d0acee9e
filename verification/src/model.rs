//! The span records that the tracing side hands over for export.

use vstd::prelude::*;
use crate::entries::{entries_view, KeyValue};

verus! {

/// How a unit of work ended.
#[derive(Clone, Copy, Debug, PartialEq, Eq, Structural)]
pub enum StatusCode {
    Unset,
    Okay,
    Error,
}

/// One completed unit of work, as captured when it ended.
#[derive(Debug)]
pub struct SpanRecord {
    /// The wide identifier of the trace the span belongs to.
    pub trace_id: u128,
    pub span_id: u64,
    pub parent_span_id: u64,
    /// The operation name.
    pub name: String,
    /// When the span started, in nanoseconds since the Unix epoch.
    pub start_time_unix_nanos: u128,
    /// How long the span ran, in nanoseconds.
    pub duration_nanos: u128,
    pub status_code: StatusCode,
    /// The attributes in the order they were set; of a key set twice the
    /// later value counts.
    pub attributes: Vec<KeyValue>,
}

/// A span record as a mathematical value.
pub ghost struct SpanRecordView {
    pub trace_id: u128,
    pub span_id: u64,
    pub parent_span_id: u64,
    pub name: Seq<char>,
    pub start_time_unix_nanos: u128,
    pub duration_nanos: u128,
    pub status_code: StatusCode,
    pub attributes: Seq<(Seq<char>, Seq<char>)>,
}

impl View for SpanRecord {
    type V = SpanRecordView;

    open spec fn view(&self) -> SpanRecordView {
        SpanRecordView {
            trace_id: self.trace_id,
            span_id: self.span_id,
            parent_span_id: self.parent_span_id,
            name: self.name@,
            start_time_unix_nanos: self.start_time_unix_nanos,
            duration_nanos: self.duration_nanos,
            status_code: self.status_code,
            attributes: entries_view(self.attributes@),
        }
    }
}

/// The records of a batch, each as a mathematical value.
pub open spec fn records_view(records: Seq<SpanRecord>) -> Seq<SpanRecordView> {
    records.map_values(|r: SpanRecord| r@)
}

} // verus!
