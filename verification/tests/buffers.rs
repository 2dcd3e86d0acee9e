use opentelemetry_datadog_cloudflare::model::{SpanRecord, StatusCode};
use opentelemetry_datadog_cloudflare::{
    BufferPolicy, FlushAction, SignalGatedBuffer, SpanProcessExt, WASMWorkerSpanProcessor,
};

fn record(span_id: u64) -> SpanRecord {
    SpanRecord {
        trace_id: 1,
        span_id,
        parent_span_id: 0,
        name: "op".to_string(),
        start_time_unix_nanos: 10,
        duration_nanos: 1,
        status_code: StatusCode::Unset,
        attributes: Vec::new(),
    }
}

fn ids(batch: &[SpanRecord]) -> Vec<u64> {
    batch.iter().map(|s| s.span_id).collect()
}

#[test]
fn flush_exports_the_oldest_up_to_the_threshold() {
    let mut processor = WASMWorkerSpanProcessor::new(3);
    for id in 1..=5 {
        processor.on_end(record(id));
    }
    assert_eq!(processor.len(), 5);
    let first = processor.force_flush();
    assert_eq!(ids(&first), vec![1, 2, 3]);
    assert_eq!(processor.len(), 2);
    let second = processor.force_flush();
    assert_eq!(ids(&second), vec![4, 5]);
    assert_eq!(processor.len(), 0);
    assert!(processor.force_flush().is_empty());
}

#[test]
fn flush_below_the_threshold_exports_all() {
    let mut processor = WASMWorkerSpanProcessor::new(500);
    processor.on_start();
    processor.on_end(record(1));
    processor.on_end(record(2));
    assert_eq!(ids(&processor.force_flush()), vec![1, 2]);
    assert_eq!(processor.len(), 0);
}

#[test]
fn flush_at_the_threshold_exactly() {
    let mut processor = WASMWorkerSpanProcessor::new(2);
    processor.on_end(record(1));
    processor.on_end(record(2));
    assert_eq!(ids(&processor.force_flush()), vec![1, 2]);
    assert!(processor.force_flush().is_empty());
}

#[test]
fn flush_with_threshold_zero_exports_nothing() {
    let mut processor = WASMWorkerSpanProcessor::new(0);
    processor.on_end(record(1));
    assert!(processor.force_flush().is_empty());
    assert_eq!(processor.len(), 1);
}

#[test]
fn spans_accepted_after_a_flush_wait_for_the_next() {
    let mut processor = WASMWorkerSpanProcessor::new(2);
    processor.on_end(record(1));
    processor.on_end(record(2));
    processor.on_end(record(3));
    assert_eq!(ids(&processor.force_flush()), vec![1, 2]);
    processor.on_end(record(4));
    assert_eq!(ids(&processor.force_flush()), vec![3, 4]);
}

#[test]
fn sync_flush_is_refused() {
    let mut processor = WASMWorkerSpanProcessor::new(2);
    processor.on_end(record(1));
    assert!(processor.force_flush_sync().is_err());
    assert_eq!(processor.len(), 1);
    assert!(processor.shutdown().is_ok());
    assert_eq!(processor.len(), 1);
    assert!(SignalGatedBuffer::<SpanRecord>::new(1).force_flush_sync().is_err());
}

#[test]
fn signal_gated_buffer_exports_once() {
    let mut buffer = SignalGatedBuffer::new(8);
    assert!(buffer.accept(record(1)).is_ok());
    assert!(buffer.accept(record(2)).is_ok());
    assert!(buffer.drain().is_none());
    assert!(buffer.flush());
    assert!(buffer.accept(record(3)).is_ok());
    assert!(!buffer.flush());
    let batch = buffer.drain().expect("the signal has fired");
    assert_eq!(ids(&batch), vec![1, 2, 3]);
    assert!(buffer.drain().is_none());
    assert!(!buffer.flush());
    assert!(buffer.drain().is_none());
    match buffer.accept(record(4)) {
        Err(span) => assert_eq!(span.span_id, 4),
        Ok(()) => panic!("the buffer is finished"),
    }
    assert!(buffer.drain().is_none());
}

#[test]
fn signal_gated_buffer_is_bounded() {
    let mut buffer = SignalGatedBuffer::new(2);
    assert!(buffer.accept(record(1)).is_ok());
    assert!(buffer.accept(record(2)).is_ok());
    match buffer.accept(record(3)) {
        Err(span) => assert_eq!(span.span_id, 3),
        Ok(()) => panic!("the buffer is full"),
    }
    assert!(buffer.flush());
    assert_eq!(ids(&buffer.drain().expect("the signal has fired")), vec![1, 2]);
}

#[test]
fn signal_gated_buffer_with_nothing_queued() {
    let mut buffer = SignalGatedBuffer::<SpanRecord>::new(2);
    assert!(buffer.flush());
    assert_eq!(buffer.drain().map(|b| b.len()), Some(0));
    assert!(buffer.drain().is_none());
}

fn fill(buffer: &mut dyn BufferPolicy<SpanRecord>, from: u64, to: u64) -> usize {
    (from..=to).filter(|id| buffer.accept(record(*id)).is_ok()).count()
}

#[test]
fn both_disciplines_behind_one_interface() {
    let mut threshold = WASMWorkerSpanProcessor::new(2);
    assert_eq!(fill(&mut threshold, 1, 3), 3);
    match BufferPolicy::flush(&mut threshold) {
        FlushAction::Export(batch) => assert_eq!(ids(&batch), vec![1, 2]),
        _ => panic!("a threshold-gated flush exports"),
    }
    match BufferPolicy::flush(&mut threshold) {
        FlushAction::Export(batch) => assert_eq!(ids(&batch), vec![3]),
        _ => panic!("a threshold-gated flush exports"),
    }

    let mut gated = SignalGatedBuffer::new(2);
    assert_eq!(fill(&mut gated, 1, 3), 2);
    assert!(matches!(BufferPolicy::flush(&mut gated), FlushAction::Drain));
    assert!(matches!(BufferPolicy::flush(&mut gated), FlushAction::Nothing));
    assert_eq!(ids(&gated.drain().expect("the signal has fired")), vec![1, 2]);
    assert!(matches!(BufferPolicy::flush(&mut gated), FlushAction::Nothing));
    assert_eq!(fill(&mut gated, 4, 5), 0);
}
