//! The header codec that carries a trace context from one service to the
//! next: three text headers for the trace, the parent span and the sampling
//! decision.

use vstd::prelude::*;
use vstd::string::*;
use crate::decimal::{
    decimal_digits, decimal_text, i32_to_decimal, lemma_parse_i32_of_decimal,
    lemma_parse_u64_of_decimal, parse_i32, parse_i32_spec, parse_u64, parse_u64_spec,
    u64_to_decimal,
};
use crate::entries::{entries_view, KeyValue};
use crate::ident::{narrow, u128_to_u64s};

verus! {

pub const DATADOG_TRACE_ID_HEADER: &'static str = "x-datadog-trace-id";

pub const DATADOG_PARENT_ID_HEADER: &'static str = "x-datadog-parent-id";

pub const DATADOG_SAMPLING_PRIORITY_HEADER: &'static str = "x-datadog-sampling-priority";

/// The flag bit of a trace that is sampled.
pub const TRACE_FLAG_SAMPLED: u8 = 0x01;

/// The flag bit of a trace whose sampling decision is still open. It is not
/// the same as not sampled.
pub const TRACE_FLAG_DEFERRED: u8 = 0x02;

/// The span identifier that stands for no span.
pub const INVALID_SPAN_ID: u64 = 0;

/// The trace identifier that stands for no trace.
pub const INVALID_TRACE_ID: u128 = 0;

/// The sampling decisions that a header can carry.
#[derive(Clone, Copy, Debug, PartialEq, Eq, Structural)]
pub enum SamplingPriority {
    UserReject,
    AutoReject,
    AutoKeep,
    UserKeep,
}

/// What was wrong with a header.
#[derive(Clone, Copy, Debug, PartialEq, Eq, Structural)]
pub enum ExtractError {
    TraceId,
    SpanId,
    SamplingPriority,
}

/// The identity of a span as it travels between services.
#[derive(Clone, Copy, Debug, PartialEq, Eq, Structural)]
pub struct SpanContext {
    pub trace_id: u128,
    pub span_id: u64,
    pub trace_flags: u8,
    pub is_remote: bool,
}

/// The number that stands for a sampling decision in a header.
pub open spec fn wire_of_priority(priority: SamplingPriority) -> i32 {
    match priority {
        SamplingPriority::UserReject => -1i32,
        SamplingPriority::AutoReject => 0i32,
        SamplingPriority::AutoKeep => 1i32,
        SamplingPriority::UserKeep => 2i32,
    }
}

/// The sampling decision that a number stands for, if it stands for one.
pub open spec fn priority_of_wire(wire: i32) -> Option<SamplingPriority> {
    if wire == -1 {
        Some(SamplingPriority::UserReject)
    } else if wire == 0 {
        Some(SamplingPriority::AutoReject)
    } else if wire == 1 {
        Some(SamplingPriority::AutoKeep)
    } else if wire == 2 {
        Some(SamplingPriority::UserKeep)
    } else {
        None
    }
}

impl SamplingPriority {
    pub fn to_wire(self) -> (wire: i32)
        ensures
            wire == wire_of_priority(self),
            priority_of_wire(wire) == Some(self),
    {
        match self {
            SamplingPriority::UserReject => -1,
            SamplingPriority::AutoReject => 0,
            SamplingPriority::AutoKeep => 1,
            SamplingPriority::UserKeep => 2,
        }
    }

    pub fn from_wire(wire: i32) -> (priority: Option<SamplingPriority>)
        ensures
            priority == priority_of_wire(wire),
    {
        if wire == -1 {
            Some(SamplingPriority::UserReject)
        } else if wire == 0 {
            Some(SamplingPriority::AutoReject)
        } else if wire == 1 {
            Some(SamplingPriority::AutoKeep)
        } else if wire == 2 {
            Some(SamplingPriority::UserKeep)
        } else {
            None
        }
    }
}

pub open spec fn flags_sampled(flags: u8) -> bool {
    flags & 0x01 == 0x01
}

pub open spec fn flags_deferred(flags: u8) -> bool {
    flags & 0x02 == 0x02
}

impl SpanContext {
    /// The context that stands for no span at all.
    pub open spec fn empty() -> SpanContext {
        SpanContext { trace_id: 0, span_id: 0, trace_flags: 0, is_remote: false }
    }

    /// A context is valid if both of its identifiers are.
    pub open spec fn valid(&self) -> bool {
        self.trace_id != 0 && self.span_id != 0
    }

    pub open spec fn sampled(&self) -> bool {
        flags_sampled(self.trace_flags)
    }

    pub open spec fn deferred(&self) -> bool {
        flags_deferred(self.trace_flags)
    }

    pub fn new(trace_id: u128, span_id: u64, trace_flags: u8, is_remote: bool) -> (cx: Self)
        ensures
            cx == (SpanContext { trace_id, span_id, trace_flags, is_remote }),
    {
        SpanContext { trace_id, span_id, trace_flags, is_remote }
    }

    pub fn empty_context() -> (cx: Self)
        ensures
            cx == SpanContext::empty(),
            !cx.valid(),
    {
        SpanContext { trace_id: 0, span_id: 0, trace_flags: 0, is_remote: false }
    }

    pub fn is_valid(&self) -> (valid: bool)
        ensures
            valid == self.valid(),
    {
        self.trace_id != 0 && self.span_id != 0
    }

    pub fn is_sampled(&self) -> (sampled: bool)
        ensures
            sampled == self.sampled(),
    {
        self.trace_flags & 0x01 == 0x01
    }

    pub fn is_deferred(&self) -> (deferred: bool)
        ensures
            deferred == self.deferred(),
    {
        self.trace_flags & 0x02 == 0x02
    }
}

/// The code of a character with the ASCII capitals mapped to their small
/// letters.
pub open spec fn fold(c: char) -> u32 {
    if 65 <= c as u32 <= 90 {
        (c as u32 + 32) as u32
    } else {
        c as u32
    }
}

pub open spec fn folded(s: Seq<char>) -> Seq<u32> {
    s.map_values(|c: char| fold(c))
}

/// Header names are the same if they differ at most in the case of ASCII
/// letters.
pub open spec fn same_header_name(a: Seq<char>, b: Seq<char>) -> bool {
    folded(a) == folded(b)
}

/// The value of the first header from position `from` on that has the name,
/// or the empty text if there is none.
pub open spec fn header_text_from(
    headers: Seq<(Seq<char>, Seq<char>)>,
    name: Seq<char>,
    from: int,
) -> Seq<char>
    decreases headers.len() - from,
{
    if from < 0 || from >= headers.len() {
        Seq::empty()
    } else if same_header_name(headers[from].0, name) {
        headers[from].1
    } else {
        header_text_from(headers, name, from + 1)
    }
}

/// The value of the first header with the name, or the empty text if there
/// is none.
pub open spec fn header_text(headers: Seq<(Seq<char>, Seq<char>)>, name: Seq<char>) -> Seq<char> {
    header_text_from(headers, name, 0)
}

/// The trace flags that a sampling header asks for: not sampled for the two
/// rejects, sampled for the two keeps, deferred for a header that is missing
/// or carries anything else.
pub open spec fn flags_of_priority_text(text: Seq<char>) -> u8 {
    match parse_i32_spec(text) {
        Some(wire) => match priority_of_wire(wire) {
            Some(SamplingPriority::UserReject) | Some(SamplingPriority::AutoReject) => 0,
            Some(SamplingPriority::UserKeep) | Some(SamplingPriority::AutoKeep) => 0x01,
            None => 0x02,
        },
        None => 0x02,
    }
}

/// What a set of headers yields: an error if the trace header is missing or
/// is no number, and otherwise a remote context with that trace, with the
/// parent header's span or the invalid one, and with the flags that the
/// sampling header asks for.
pub open spec fn span_context_of(headers: Seq<(Seq<char>, Seq<char>)>) -> Result<
    SpanContext,
    ExtractError,
> {
    match parse_u64_spec(header_text(headers, DATADOG_TRACE_ID_HEADER@)) {
        None => Err(ExtractError::TraceId),
        Some(trace) => Ok(
            SpanContext {
                trace_id: trace as u128,
                span_id: match parse_u64_spec(header_text(headers, DATADOG_PARENT_ID_HEADER@)) {
                    Some(span) => span,
                    None => 0,
                },
                trace_flags: flags_of_priority_text(
                    header_text(headers, DATADOG_SAMPLING_PRIORITY_HEADER@),
                ),
                is_remote: true,
            },
        ),
    }
}

/// The context that extraction hands on: the one the headers yield, or the
/// empty one where they yield none.
pub open spec fn extracted_context(headers: Seq<(Seq<char>, Seq<char>)>) -> SpanContext {
    match span_context_of(headers) {
        Ok(cx) => cx,
        Err(_) => SpanContext::empty(),
    }
}

/// The headers written for a context: none for an invalid one; otherwise the
/// narrow trace identifier and the span identifier in decimal, and, unless
/// the sampling decision is deferred, the priority 1 for a sampled trace and
/// 0 for any other.
pub open spec fn injected_headers(cx: SpanContext) -> Seq<(Seq<char>, Seq<char>)> {
    if !cx.valid() {
        Seq::empty()
    } else {
        let ids = seq![
            (DATADOG_TRACE_ID_HEADER@, decimal_digits(narrow(cx.trace_id) as nat)),
            (DATADOG_PARENT_ID_HEADER@, decimal_digits(cx.span_id as nat)),
        ];
        if cx.deferred() {
            ids
        } else {
            ids.push(
                (
                    DATADOG_SAMPLING_PRIORITY_HEADER@,
                    decimal_text(
                        if cx.sampled() {
                            1
                        } else {
                            0
                        },
                    ),
                ),
            )
        }
    }
}

/// Whether two header names are the same but for the case of ASCII letters.
pub fn names_match(a: &str, b: &str) -> (same: bool)
    ensures
        same == same_header_name(a@, b@),
{
    let n = a.unicode_len();
    if n != b.unicode_len() {
        assert(folded(a@).len() != folded(b@).len());
        return false;
    }
    let mut i: usize = 0;
    while i < n
        invariant
            i <= n,
            n == a@.len(),
            n == b@.len(),
            forall|j: int| 0 <= j < i ==> fold(#[trigger] a@[j]) == fold(b@[j]),
        decreases n - i,
    {
        let ca = a.get_char(i) as u32;
        let cb = b.get_char(i) as u32;
        let fa: u32 = if 65 <= ca && ca <= 90 {
            ca + 32
        } else {
            ca
        };
        let fb: u32 = if 65 <= cb && cb <= 90 {
            cb + 32
        } else {
            cb
        };
        if fa != fb {
            assert(folded(a@)[i as int] != folded(b@)[i as int]);
            return false;
        }
        i += 1;
    }
    assert(folded(a@) =~= folded(b@));
    true
}

/// The value of the first header with the given name, or the empty text.
pub fn header_value<'a>(headers: &'a Vec<KeyValue>, name: &str) -> (value: &'a str)
    ensures
        value@ == header_text(entries_view(headers@), name@),
{
    let ghost all = entries_view(headers@);
    let mut i: usize = 0;
    while i < headers.len()
        invariant
            i <= headers@.len(),
            all == entries_view(headers@),
            header_text(all, name@) == header_text_from(all, name@, i as int),
        decreases headers@.len() - i,
    {
        assert(all[i as int] == headers@[i as int]@);
        if names_match(headers[i].key.as_str(), name) {
            return headers[i].value.as_str();
        }
        i += 1;
    }
    proof {
        reveal_strlit("");
        assert(""@ =~= Seq::<char>::empty());
    }
    ""
}

/// Extracts and injects span contexts using Datadog's header format.
#[derive(Clone, Copy, Debug)]
pub struct DatadogPropagator {}

impl Default for DatadogPropagator {
    fn default() -> (propagator: Self) {
        DatadogPropagator {  }
    }
}

impl DatadogPropagator {
    /// Creates a new `DatadogPropagator`.
    #[must_use]
    pub fn new() -> (propagator: Self) {
        DatadogPropagator {  }
    }

    /// Reads a trace identifier: an unsigned 64-bit decimal number, which
    /// becomes the low half of the wide identifier.
    pub fn extract_trace_id(trace_id: &str) -> (id: Result<u128, ExtractError>)
        ensures
            id == (match parse_u64_spec(trace_id@) {
                Some(n) => Ok::<u128, ExtractError>(n as u128),
                None => Err(ExtractError::TraceId),
            }),
    {
        match parse_u64(trace_id) {
            Some(n) => Ok(n as u128),
            None => Err(ExtractError::TraceId),
        }
    }

    /// Reads a span identifier: an unsigned 64-bit decimal number.
    pub fn extract_span_id(span_id: &str) -> (id: Result<u64, ExtractError>)
        ensures
            id == (match parse_u64_spec(span_id@) {
                Some(n) => Ok::<u64, ExtractError>(n),
                None => Err(ExtractError::SpanId),
            }),
    {
        match parse_u64(span_id) {
            Some(n) => Ok(n),
            None => Err(ExtractError::SpanId),
        }
    }

    /// Reads a sampling priority: a signed 32-bit decimal number that is one
    /// of the four priorities.
    pub fn extract_sampling_priority(sampling_priority: &str) -> (priority: Result<
        SamplingPriority,
        ExtractError,
    >)
        ensures
            priority == (match parse_i32_spec(sampling_priority@) {
                Some(wire) => match priority_of_wire(wire) {
                    Some(p) => Ok::<SamplingPriority, ExtractError>(p),
                    None => Err(ExtractError::SamplingPriority),
                },
                None => Err(ExtractError::SamplingPriority),
            }),
    {
        match parse_i32(sampling_priority) {
            Some(wire) => match SamplingPriority::from_wire(wire) {
                Some(p) => Ok(p),
                None => Err(ExtractError::SamplingPriority),
            },
            None => Err(ExtractError::SamplingPriority),
        }
    }

    /// Reads a span context from headers. Without a trace identifier there
    /// is no context. A parent header that is missing or no number leaves
    /// the span invalid, and a sampling header that is missing or not one of
    /// the priorities leaves the decision deferred: neither is an error.
    pub fn extract_span_context(headers: &Vec<KeyValue>) -> (cx: Result<SpanContext, ExtractError>)
        ensures
            cx == span_context_of(entries_view(headers@)),
    {
        let trace_id = match Self::extract_trace_id(
            header_value(headers, DATADOG_TRACE_ID_HEADER),
        ) {
            Ok(id) => id,
            Err(e) => {
                return Err(e);
            },
        };
        let span_id = match Self::extract_span_id(header_value(headers, DATADOG_PARENT_ID_HEADER)) {
            Ok(id) => id,
            Err(_) => INVALID_SPAN_ID,
        };
        let sampling_priority = Self::extract_sampling_priority(
            header_value(headers, DATADOG_SAMPLING_PRIORITY_HEADER),
        );
        let sampled: u8 = match sampling_priority {
            Ok(SamplingPriority::UserReject) | Ok(SamplingPriority::AutoReject) => 0,
            Ok(SamplingPriority::UserKeep) | Ok(SamplingPriority::AutoKeep) => TRACE_FLAG_SAMPLED,
            Err(_) => TRACE_FLAG_DEFERRED,
        };
        Ok(SpanContext::new(trace_id, span_id, sampled, true))
    }

    /// The context that a request's headers carry, or the empty context
    /// where they carry none.
    pub fn extract(&self, headers: &Vec<KeyValue>) -> (cx: SpanContext)
        ensures
            cx == extracted_context(entries_view(headers@)),
    {
        match Self::extract_span_context(headers) {
            Ok(cx) => cx,
            Err(_) => SpanContext::empty_context(),
        }
    }

    /// The headers to set on an outgoing request for a context, in the order
    /// they are to be set. For an invalid context there are none.
    pub fn inject_context(&self, cx: &SpanContext) -> (headers: Vec<KeyValue>)
        ensures
            entries_view(headers@) == injected_headers(*cx),
            !cx.valid() ==> headers@.len() == 0,
    {
        let mut headers: Vec<KeyValue> = Vec::new();
        if cx.is_valid() {
            let halves = u128_to_u64s(cx.trace_id);
            headers.push(
                KeyValue {
                    key: String::from_str(DATADOG_TRACE_ID_HEADER),
                    value: u64_to_decimal(halves[0]),
                },
            );
            headers.push(
                KeyValue {
                    key: String::from_str(DATADOG_PARENT_ID_HEADER),
                    value: u64_to_decimal(cx.span_id),
                },
            );
            if !cx.is_deferred() {
                let sampling_priority = if cx.is_sampled() {
                    SamplingPriority::AutoKeep
                } else {
                    SamplingPriority::AutoReject
                };
                headers.push(
                    KeyValue {
                        key: String::from_str(DATADOG_SAMPLING_PRIORITY_HEADER),
                        value: i32_to_decimal(sampling_priority.to_wire()),
                    },
                );
            }
        }
        assert(entries_view(headers@) =~= injected_headers(*cx));
        headers
    }

    /// The names of the headers that this codec reads and writes.
    pub fn fields(&self) -> (names: [&'static str; 3])
        ensures
            names[0]@ == DATADOG_TRACE_ID_HEADER@,
            names[1]@ == DATADOG_PARENT_ID_HEADER@,
            names[2]@ == DATADOG_SAMPLING_PRIORITY_HEADER@,
    {
        [DATADOG_TRACE_ID_HEADER, DATADOG_PARENT_ID_HEADER, DATADOG_SAMPLING_PRIORITY_HEADER]
    }
}

/// The three header names differ even when case is ignored.
pub proof fn lemma_header_names_differ()
    ensures
        !same_header_name(DATADOG_TRACE_ID_HEADER@, DATADOG_PARENT_ID_HEADER@),
        !same_header_name(DATADOG_TRACE_ID_HEADER@, DATADOG_SAMPLING_PRIORITY_HEADER@),
        !same_header_name(DATADOG_PARENT_ID_HEADER@, DATADOG_SAMPLING_PRIORITY_HEADER@),
        !same_header_name(DATADOG_PARENT_ID_HEADER@, DATADOG_TRACE_ID_HEADER@),
        !same_header_name(DATADOG_SAMPLING_PRIORITY_HEADER@, DATADOG_TRACE_ID_HEADER@),
        !same_header_name(DATADOG_SAMPLING_PRIORITY_HEADER@, DATADOG_PARENT_ID_HEADER@),
{
    reveal_strlit("x-datadog-trace-id");
    reveal_strlit("x-datadog-parent-id");
    reveal_strlit("x-datadog-sampling-priority");
    assert(folded(DATADOG_TRACE_ID_HEADER@).len() == 18);
    assert(folded(DATADOG_PARENT_ID_HEADER@).len() == 19);
    assert(folded(DATADOG_SAMPLING_PRIORITY_HEADER@).len() == 27);
}

/// What comes back when the headers written for a valid context are read
/// again: a remote context with the narrow trace identifier as its trace,
/// the same span, and the same sampling decision, be it kept, rejected or
/// deferred.
pub proof fn lemma_extract_after_inject(cx: SpanContext)
    requires
        cx.valid(),
    ensures
        span_context_of(injected_headers(cx)) == Ok::<SpanContext, ExtractError>(
            SpanContext {
                trace_id: narrow(cx.trace_id) as u128,
                span_id: cx.span_id,
                trace_flags: if cx.deferred() {
                    0x02u8
                } else if cx.sampled() {
                    0x01u8
                } else {
                    0u8
                },
                is_remote: true,
            },
        ),
{
    let headers = injected_headers(cx);
    lemma_header_names_differ();
    lemma_parse_u64_of_decimal(narrow(cx.trace_id));
    lemma_parse_u64_of_decimal(cx.span_id);
    lemma_parse_i32_of_decimal(0);
    lemma_parse_i32_of_decimal(1);
    reveal_with_fuel(header_text_from, 4);
    assert(same_header_name(DATADOG_TRACE_ID_HEADER@, DATADOG_TRACE_ID_HEADER@));
    assert(same_header_name(DATADOG_PARENT_ID_HEADER@, DATADOG_PARENT_ID_HEADER@));
    assert(same_header_name(
        DATADOG_SAMPLING_PRIORITY_HEADER@,
        DATADOG_SAMPLING_PRIORITY_HEADER@,
    ));
    assert(header_text(headers, DATADOG_TRACE_ID_HEADER@) == headers[0].1);
    assert(header_text(headers, DATADOG_PARENT_ID_HEADER@) == headers[1].1);
    if cx.deferred() {
        assert(header_text(headers, DATADOG_SAMPLING_PRIORITY_HEADER@) == Seq::<char>::empty());
        assert(parse_i32_spec(Seq::<char>::empty()) == None::<i32>);
    } else {
        assert(header_text(headers, DATADOG_SAMPLING_PRIORITY_HEADER@) == headers[2].1);
    }
}

/// Without headers there is no context, and for the empty context no header
/// is written.
pub proof fn lemma_nothing_in_nothing_out()
    ensures
        extracted_context(Seq::empty()) == SpanContext::empty(),
        injected_headers(SpanContext::empty()) == Seq::<(Seq<char>, Seq<char>)>::empty(),
{
    assert(header_text(Seq::empty(), DATADOG_TRACE_ID_HEADER@) == Seq::<char>::empty());
}

} // verus!
