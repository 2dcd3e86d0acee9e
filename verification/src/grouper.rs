//! Grouping the spans of a batch by the trace they belong to.

use vstd::prelude::*;
use std::collections::HashMap;
use vstd::std_specs::iter::IteratorSpec;
use vstd::seq_lib::lemma_multiset_commutative;
use itertools::Itertools;
use crate::model::SpanRecord;

verus! {

/// The spans of `spans` that belong to trace `id`, in the order they have
/// there.
pub open spec fn spans_of_trace(spans: Seq<SpanRecord>, id: u128) -> Seq<SpanRecord>
    decreases spans.len(),
{
    if spans.len() == 0 {
        Seq::empty()
    } else {
        let front = spans_of_trace(spans.drop_last(), id);
        if spans.last().trace_id == id {
            front.push(spans.last())
        } else {
            front
        }
    }
}

/// All the spans of a sequence of groups, group after group.
pub open spec fn all_spans(groups: Seq<Seq<SpanRecord>>) -> Seq<SpanRecord>
    decreases groups.len(),
{
    if groups.len() == 0 {
        Seq::empty()
    } else {
        all_spans(groups.drop_last()) + groups.last()
    }
}

/// The groups as sequences of records.
pub open spec fn groups_view(groups: Seq<Vec<SpanRecord>>) -> Seq<Seq<SpanRecord>> {
    groups.map_values(|g: Vec<SpanRecord>| g@)
}

/// `groups` splits `spans` by trace: no group is empty, the spans of a group
/// share their trace identifier, no two groups share one, and the groups
/// together hold each span as often as `spans` does. Neither the order of the
/// groups nor the order inside a group is part of it.
pub open spec fn is_grouping_of(groups: Seq<Seq<SpanRecord>>, spans: Seq<SpanRecord>) -> bool {
    &&& forall|i: int| 0 <= i < groups.len() ==> (#[trigger] groups[i]).len() > 0
    &&& forall|i: int, a: int, b: int|
        0 <= i < groups.len() && 0 <= a < groups[i].len() && 0 <= b < groups[i].len()
            ==> #[trigger] groups[i][a].trace_id == #[trigger] groups[i][b].trace_id
    &&& forall|i: int, j: int|
        0 <= i < j < groups.len() ==> (#[trigger] groups[i])[0].trace_id != (
        #[trigger] groups[j])[0].trace_id
    &&& all_spans(groups).to_multiset() == spans.to_multiset()
}

/// Calls `Itertools::into_group_map_by` with the trace identifier as the
/// key. Of the map that comes back this states: an identifier is a key
/// exactly if a span of the input carries it, and under a key stand the spans
/// that carry it, in the order of the input.
#[verifier::external_body]
fn group_map_by_trace(spans: Vec<SpanRecord>) -> (groups: HashMap<u128, Vec<SpanRecord>>)
    ensures
        forall|id: u128| #[trigger]
            groups@.contains_key(id) <==> spans_of_trace(spans@, id).len() > 0,
        forall|id: u128|
            groups@.contains_key(id) ==> (#[trigger] groups@[id])@ == spans_of_trace(spans@, id),
{
    spans.into_iter().into_group_map_by(|span| span.trace_id)
}

/// A span of the batch is among the spans of its trace.
pub proof fn lemma_spans_of_trace_holds(spans: Seq<SpanRecord>, k: int)
    requires
        0 <= k < spans.len(),
    ensures
        spans_of_trace(spans, spans[k].trace_id).len() > 0,
    decreases spans.len(),
{
    if k < spans.len() - 1 {
        lemma_spans_of_trace_holds(spans.drop_last(), k);
    }
}

/// Every span of a trace's group carries that trace's identifier.
pub proof fn lemma_spans_of_trace_ids(spans: Seq<SpanRecord>, id: u128)
    ensures
        forall|a: int|
            0 <= a < spans_of_trace(spans, id).len() ==> (#[trigger] spans_of_trace(
                spans,
                id,
            )[a]).trace_id == id,
    decreases spans.len(),
{
    if spans.len() > 0 {
        lemma_spans_of_trace_ids(spans.drop_last(), id);
    }
}

/// A trace's group holds a span as often as the batch does if the span is of
/// that trace, and not at all if it is not.
pub proof fn lemma_spans_of_trace_count(spans: Seq<SpanRecord>, id: u128, span: SpanRecord)
    ensures
        spans_of_trace(spans, id).to_multiset().count(span) == if span.trace_id == id {
            spans.to_multiset().count(span)
        } else {
            0
        },
    decreases spans.len(),
{
    if spans.len() == 0 {
        spans.to_multiset_ensures();
        spans_of_trace(spans, id).to_multiset_ensures();
        assert(spans.to_multiset().len() == 0);
        assert(spans_of_trace(spans, id).to_multiset().len() == 0);
    } else {
        let front = spans.drop_last();
        lemma_spans_of_trace_count(front, id, span);
        front.to_multiset_ensures();
        spans_of_trace(front, id).to_multiset_ensures();
        assert(front.push(spans.last()) =~= spans);
    }
}

proof fn lemma_groups_count(
    keys: Seq<u128>,
    groups: Seq<Seq<SpanRecord>>,
    spans: Seq<SpanRecord>,
    span: SpanRecord,
)
    requires
        keys.len() == groups.len(),
        keys.no_duplicates(),
        forall|i: int| 0 <= i < groups.len() ==> #[trigger] groups[i] == spans_of_trace(spans, keys[i]),
    ensures
        all_spans(groups).to_multiset().count(span) == if keys.contains(span.trace_id) {
            spans.to_multiset().count(span)
        } else {
            0
        },
    decreases groups.len(),
{
    if groups.len() == 0 {
        all_spans(groups).to_multiset_ensures();
        assert(all_spans(groups).to_multiset().len() == 0);
    } else {
        let n = groups.len() - 1;
        let front_keys = keys.drop_last();
        let front = groups.drop_last();
        assert forall|i: int| 0 <= i < front.len() implies #[trigger] front[i] == spans_of_trace(
            spans,
            front_keys[i],
        ) by {
            assert(front[i] == groups[i]);
        }
        lemma_groups_count(front_keys, front, spans, span);
        lemma_multiset_commutative(all_spans(front), groups.last());
        lemma_spans_of_trace_count(spans, keys[n], span);
        assert(groups[n] == spans_of_trace(spans, keys[n]));
        if keys[n] == span.trace_id {
            assert(keys.contains(span.trace_id));
            if front_keys.contains(span.trace_id) {
                let i = choose|i: int| 0 <= i < front_keys.len() && front_keys[i] == span.trace_id;
                assert(keys[i] == keys[n]);
            }
        } else {
            if keys.contains(span.trace_id) {
                let i = choose|i: int| 0 <= i < keys.len() && keys[i] == span.trace_id;
                assert(front_keys[i] == span.trace_id);
            }
            if front_keys.contains(span.trace_id) {
                let i = choose|i: int| 0 <= i < front_keys.len() && front_keys[i] == span.trace_id;
                assert(keys[i] == span.trace_id);
            }
        }
    }
}

/// Groups that hold, one per trace identifier of the batch, the spans of that
/// trace split the batch by trace.
pub proof fn lemma_groups_by_key_partition(
    keys: Seq<u128>,
    groups: Seq<Seq<SpanRecord>>,
    spans: Seq<SpanRecord>,
)
    requires
        keys.len() == groups.len(),
        keys.no_duplicates(),
        forall|i: int|
            0 <= i < groups.len() ==> #[trigger] groups[i] == spans_of_trace(spans, keys[i])
                && groups[i].len() > 0,
        forall|k: int| 0 <= k < spans.len() ==> keys.contains((#[trigger] spans[k]).trace_id),
    ensures
        is_grouping_of(groups, spans),
{
    assert forall|i: int, a: int| 0 <= i < groups.len() && 0 <= a < groups[i].len() implies (
    #[trigger] groups[i][a]).trace_id == keys[i] by {
        lemma_spans_of_trace_ids(spans, keys[i]);
    }
    assert forall|span: SpanRecord|
        all_spans(groups).to_multiset().count(span) == spans.to_multiset().count(span) by {
        lemma_groups_count(keys, groups, spans, span);
        spans.to_multiset_ensures();
        if !keys.contains(span.trace_id) && spans.to_multiset().count(span) > 0 {
            assert(spans.contains(span));
            let k = choose|k: int| 0 <= k < spans.len() && spans[k] == span;
            assert(keys.contains(spans[k].trace_id));
        }
    }
    assert(all_spans(groups).to_multiset() =~= spans.to_multiset());
}

/// Splits a batch into its traces. Which trace comes first, and in which
/// order the spans of a trace stand, is not promised.
pub fn group_into_traces(spans: Vec<SpanRecord>) -> (traces: Vec<Vec<SpanRecord>>)
    ensures
        is_grouping_of(groups_view(traces@), spans@),
{
    broadcast use {
        vstd::std_specs::hash::group_hash_axioms,
        vstd::std_specs::hash::axiom_spec_keys_iter,
    };

    let mut by_trace = group_map_by_trace(spans);
    let ghost grouped = by_trace@;
    let mut ids: Vec<u128> = Vec::new();
    for id in it: by_trace.keys()
        invariant
            it.seq() == by_trace.keys().remaining(),
            ids@.len() == it.index(),
            forall|j: int| 0 <= j < ids@.len() ==> #[trigger] ids@[j] == *it.seq()[j],
    {
        ids.push(*id);
    }
    proof {
        let walked = by_trace.keys().remaining();
        assert(ids@ =~= walked.unref());
        assert(ids@.no_duplicates()) by {
            assert forall|i: int, j: int| 0 <= i < j < ids@.len() implies ids@[i] != ids@[j] by {
                assert(walked[i] != walked[j]);
            }
        }
        assert forall|k: int| 0 <= k < spans@.len() implies ids@.contains(
            (#[trigger] spans@[k]).trace_id,
        ) by {
            lemma_spans_of_trace_holds(spans@, k);
            assert(grouped.contains_key(spans@[k].trace_id));
            assert(ids@.to_set().contains(spans@[k].trace_id));
        }
        assert forall|i: int| 0 <= i < ids@.len() implies grouped.contains_key(
            #[trigger] ids@[i],
        ) by {
            assert(ids@.to_set().contains(ids@[i]));
        }
    }
    let mut traces: Vec<Vec<SpanRecord>> = Vec::new();
    let mut i: usize = 0;
    while i < ids.len()
        invariant
            i <= ids@.len(),
            ids@.no_duplicates(),
            traces@.len() == i,
            forall|j: int| i <= j < ids@.len() ==> by_trace@.contains_key(#[trigger] ids@[j])
                && by_trace@[ids@[j]] == grouped[ids@[j]],
            forall|j: int| 0 <= j < i ==> (#[trigger] traces@[j])@ == grouped[ids@[j]]@,
        decreases ids@.len() - i,
    {
        let id = ids[i];
        assert(by_trace@.contains_key(id));
        if let Some(trace) = by_trace.remove(&id) {
            traces.push(trace);
        }
        i += 1;
    }
    proof {
        let groups = groups_view(traces@);
        assert forall|j: int| 0 <= j < groups.len() implies #[trigger] groups[j] == spans_of_trace(
            spans@,
            ids@[j],
        ) && groups[j].len() > 0 by {
            assert(grouped.contains_key(ids@[j]));
            assert(groups[j] == traces@[j]@);
        }
        lemma_groups_by_key_partition(ids@, groups, spans@);
    }
    traces
}

} // verus!
