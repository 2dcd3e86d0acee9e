use std::collections::HashMap;

use opentelemetry_datadog_cloudflare::entries::KeyValue;
use opentelemetry_datadog_cloudflare::propagator::{
    header_value, names_match, ExtractError, SamplingPriority, SpanContext,
    DATADOG_PARENT_ID_HEADER, DATADOG_SAMPLING_PRIORITY_HEADER, DATADOG_TRACE_ID_HEADER,
    INVALID_SPAN_ID, INVALID_TRACE_ID, TRACE_FLAG_DEFERRED, TRACE_FLAG_SAMPLED,
};
use opentelemetry_datadog_cloudflare::DatadogPropagator;

/// A wide trace identifier whose narrow form is `narrow_id`.
fn wide(narrow_id: u64) -> u128 {
    (narrow_id as u128) << 64
}

fn headers(list: &[(&'static str, &'static str)]) -> Vec<KeyValue> {
    list.iter().map(|(k, v)| KeyValue::new(k, v)).collect()
}

fn extract_test_data() -> Vec<(Vec<(&'static str, &'static str)>, SpanContext)> {
    vec![
        (vec![], SpanContext::empty_context()),
        (vec![(DATADOG_SAMPLING_PRIORITY_HEADER, "0")], SpanContext::empty_context()),
        (vec![(DATADOG_TRACE_ID_HEADER, "garbage")], SpanContext::empty_context()),
        (vec![(DATADOG_TRACE_ID_HEADER, "1234"), (DATADOG_PARENT_ID_HEADER, "garbage")], SpanContext::new(1234, INVALID_SPAN_ID, TRACE_FLAG_DEFERRED, true)),
        (vec![(DATADOG_TRACE_ID_HEADER, "1234"), (DATADOG_PARENT_ID_HEADER, "12")], SpanContext::new(1234, 12, TRACE_FLAG_DEFERRED, true)),
        (vec![(DATADOG_TRACE_ID_HEADER, "1234"), (DATADOG_PARENT_ID_HEADER, "12"), (DATADOG_SAMPLING_PRIORITY_HEADER, "0")], SpanContext::new(1234, 12, 0, true)),
        (vec![(DATADOG_TRACE_ID_HEADER, "1234"), (DATADOG_PARENT_ID_HEADER, "12"), (DATADOG_SAMPLING_PRIORITY_HEADER, "1")], SpanContext::new(1234, 12, TRACE_FLAG_SAMPLED, true)),
    ]
}

fn inject_test_data() -> Vec<(Vec<(&'static str, &'static str)>, SpanContext)> {
    vec![
        (vec![], SpanContext::empty_context()),
        (vec![], SpanContext::new(INVALID_TRACE_ID, INVALID_SPAN_ID, TRACE_FLAG_DEFERRED, true)),
        (vec![], SpanContext::new(0x1234, INVALID_SPAN_ID, TRACE_FLAG_DEFERRED, true)),
        (vec![], SpanContext::new(0x1234, INVALID_SPAN_ID, TRACE_FLAG_SAMPLED, true)),
        (vec![(DATADOG_TRACE_ID_HEADER, "1234"), (DATADOG_PARENT_ID_HEADER, "12")], SpanContext::new(wide(1234), 12, TRACE_FLAG_DEFERRED, true)),
        (vec![(DATADOG_TRACE_ID_HEADER, "1234"), (DATADOG_PARENT_ID_HEADER, "12"), (DATADOG_SAMPLING_PRIORITY_HEADER, "0")], SpanContext::new(wide(1234), 12, 0, true)),
        (vec![(DATADOG_TRACE_ID_HEADER, "1234"), (DATADOG_PARENT_ID_HEADER, "12"), (DATADOG_SAMPLING_PRIORITY_HEADER, "1")], SpanContext::new(wide(1234), 12, TRACE_FLAG_SAMPLED, true)),
    ]
}

#[test]
fn test_extract() {
    for (header_list, expected) in extract_test_data() {
        let map = headers(&header_list);

        let propagator = DatadogPropagator::default();
        let context = propagator.extract(&map);
        assert_eq!(context, expected);
    }
}

#[test]
fn test_extract_empty() {
    let map: Vec<KeyValue> = Vec::new();
    let propagator = DatadogPropagator::default();
    let context = propagator.extract(&map);
    assert_eq!(context, SpanContext::empty_context());
}

#[test]
fn test_inject() {
    let propagator = DatadogPropagator::default();
    for (header_values, span_context) in inject_test_data() {
        let mut injector: HashMap<String, String> = HashMap::new();
        for header in propagator.inject_context(&span_context) {
            injector.insert(header.key, header.value);
        }

        if !header_values.is_empty() {
            for (k, v) in header_values {
                let injected_value: Option<&String> = injector.get(k);
                assert_eq!(injected_value, Some(&v.to_string()));
                injector.remove(k);
            }
        }
        assert!(injector.is_empty());
    }
}

#[test]
fn inject_writes_headers_in_order() {
    let propagator = DatadogPropagator::new();
    let written = propagator.inject_context(&SpanContext::new(
        wide(1234),
        12,
        TRACE_FLAG_SAMPLED,
        false,
    ));
    let pairs: Vec<(&str, &str)> =
        written.iter().map(|h| (h.key.as_str(), h.value.as_str())).collect();
    assert_eq!(
        pairs,
        vec![
            ("x-datadog-trace-id", "1234"),
            ("x-datadog-parent-id", "12"),
            ("x-datadog-sampling-priority", "1"),
        ]
    );
}

#[test]
fn inject_then_extract_round_trip() {
    let propagator = DatadogPropagator::new();
    let written =
        propagator.inject_context(&SpanContext::new(wide(1234), 12, TRACE_FLAG_SAMPLED, false));
    let back = propagator.extract(&written);
    assert_eq!(back.trace_id, 1234);
    assert_eq!(back.span_id, 12);
    assert!(back.is_sampled());
    assert!(!back.is_deferred());
    assert!(back.is_remote);
    assert!(back.is_valid());
}

#[test]
fn inject_drops_the_low_half_of_the_trace_id() {
    let propagator = DatadogPropagator::new();
    let written = propagator.inject_context(&SpanContext::new(
        wide(7) + 99,
        u64::MAX,
        TRACE_FLAG_DEFERRED,
        true,
    ));
    assert_eq!(written.len(), 2);
    assert_eq!(written[0].value, "7");
    assert_eq!(written[1].value, "18446744073709551615");
    let low_only = propagator.inject_context(&SpanContext::new(1234, 12, 0, true));
    assert_eq!(low_only[0].value, "0");
    assert_eq!(low_only[2].value, "0");
}

#[test]
fn extract_garbage_parent_keeps_the_trace() {
    let propagator = DatadogPropagator::new();
    let context = propagator.extract(&headers(&[
        ("x-datadog-trace-id", "1234"),
        ("x-datadog-parent-id", "garbage"),
    ]));
    assert_eq!(context.trace_id, 1234);
    assert_eq!(context.span_id, INVALID_SPAN_ID);
    assert_eq!(context.trace_flags, TRACE_FLAG_DEFERRED);
    assert!(context.is_deferred());
    assert!(!context.is_sampled());
    assert!(context.is_remote);
}

#[test]
fn extract_without_trace_id_ignores_the_rest() {
    let propagator = DatadogPropagator::new();
    let context = propagator.extract(&headers(&[
        ("x-datadog-parent-id", "12"),
        ("x-datadog-sampling-priority", "2"),
    ]));
    assert_eq!(context, SpanContext::empty_context());
    assert!(!context.is_valid());
    assert!(propagator.inject_context(&context).is_empty());
}

#[test]
fn extract_priorities() {
    let propagator = DatadogPropagator::new();
    let flags = |priority: &'static str| {
        propagator
            .extract(&headers(&[
                ("x-datadog-trace-id", "1"),
                ("x-datadog-parent-id", "2"),
                ("x-datadog-sampling-priority", priority),
            ]))
            .trace_flags
    };
    assert_eq!(flags("-1"), 0);
    assert_eq!(flags("0"), 0);
    assert_eq!(flags("1"), TRACE_FLAG_SAMPLED);
    assert_eq!(flags("2"), TRACE_FLAG_SAMPLED);
    assert_eq!(flags("3"), TRACE_FLAG_DEFERRED);
    assert_eq!(flags("-2"), TRACE_FLAG_DEFERRED);
    assert_eq!(flags("keep"), TRACE_FLAG_DEFERRED);
    assert_eq!(flags(""), TRACE_FLAG_DEFERRED);
}

#[test]
fn extract_span_context_reports_the_missing_trace() {
    let none: Vec<KeyValue> = Vec::new();
    assert_eq!(DatadogPropagator::extract_span_context(&none), Err(ExtractError::TraceId));
    assert_eq!(
        DatadogPropagator::extract_span_context(&headers(&[("x-datadog-trace-id", "-4")])),
        Err(ExtractError::TraceId)
    );
    assert_eq!(
        DatadogPropagator::extract_span_context(&headers(&[("x-datadog-trace-id", "4")])),
        Ok(SpanContext::new(4, INVALID_SPAN_ID, TRACE_FLAG_DEFERRED, true))
    );
}

#[test]
fn extract_single_headers() {
    assert_eq!(DatadogPropagator::extract_trace_id("18446744073709551615"), Ok(u64::MAX as u128));
    assert_eq!(
        DatadogPropagator::extract_trace_id("18446744073709551616"),
        Err(ExtractError::TraceId)
    );
    assert_eq!(DatadogPropagator::extract_trace_id(""), Err(ExtractError::TraceId));
    assert_eq!(DatadogPropagator::extract_span_id("12"), Ok(12));
    assert_eq!(DatadogPropagator::extract_span_id("1x"), Err(ExtractError::SpanId));
    assert_eq!(
        DatadogPropagator::extract_sampling_priority("-1"),
        Ok(SamplingPriority::UserReject)
    );
    assert_eq!(
        DatadogPropagator::extract_sampling_priority("0"),
        Ok(SamplingPriority::AutoReject)
    );
    assert_eq!(DatadogPropagator::extract_sampling_priority("1"), Ok(SamplingPriority::AutoKeep));
    assert_eq!(DatadogPropagator::extract_sampling_priority("2"), Ok(SamplingPriority::UserKeep));
    assert_eq!(
        DatadogPropagator::extract_sampling_priority("5"),
        Err(ExtractError::SamplingPriority)
    );
    assert_eq!(
        DatadogPropagator::extract_sampling_priority("one"),
        Err(ExtractError::SamplingPriority)
    );
}

#[test]
fn sampling_priority_wire_numbers() {
    assert_eq!(SamplingPriority::UserReject.to_wire(), -1);
    assert_eq!(SamplingPriority::AutoReject.to_wire(), 0);
    assert_eq!(SamplingPriority::AutoKeep.to_wire(), 1);
    assert_eq!(SamplingPriority::UserKeep.to_wire(), 2);
    assert_eq!(SamplingPriority::from_wire(2), Some(SamplingPriority::UserKeep));
    assert_eq!(SamplingPriority::from_wire(-1), Some(SamplingPriority::UserReject));
    assert_eq!(SamplingPriority::from_wire(3), None);
    assert_eq!(SamplingPriority::from_wire(i32::MIN), None);
}

#[test]
fn header_names_ignore_case() {
    assert!(names_match("X-Datadog-Trace-Id", "x-datadog-trace-id"));
    assert!(!names_match("x-datadog-trace-id", "x-datadog-trace-ids"));
    assert!(!names_match("x-datadog-trace-id", "x_datadog_trace_id"));
    let list = headers(&[
        ("X-DATADOG-PARENT-ID", "5"),
        ("X-Datadog-Trace-Id", "77"),
        ("x-datadog-trace-id", "78"),
    ]);
    assert_eq!(header_value(&list, "x-datadog-trace-id"), "77");
    assert_eq!(header_value(&list, "x-datadog-sampling-priority"), "");
    let context = DatadogPropagator::new().extract(&list);
    assert_eq!(context, SpanContext::new(77, 5, TRACE_FLAG_DEFERRED, true));
}

#[test]
fn fields_are_the_three_headers() {
    assert_eq!(
        DatadogPropagator::new().fields(),
        ["x-datadog-trace-id", "x-datadog-parent-id", "x-datadog-sampling-priority"]
    );
}
