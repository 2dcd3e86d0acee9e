//! String-keyed maps as they go to the wire: lists of entries in strictly
//! ascending key order, so that equal maps are written as equal lists.

use vstd::prelude::*;
use vstd::string::*;
use crate::order::{key_order, lemma_lex_lt_irreflexive, lemma_lex_lt_transitive, lex_lt, KeyOrder};

verus! {

/// One attribute or tag: a key and its value, both text.
#[derive(Debug)]
pub struct KeyValue {
    pub key: String,
    pub value: String,
}

impl View for KeyValue {
    type V = (Seq<char>, Seq<char>);

    open spec fn view(&self) -> (Seq<char>, Seq<char>) {
        (self.key@, self.value@)
    }
}

impl Clone for KeyValue {
    fn clone(&self) -> (copy: Self)
        ensures
            copy@ == self@,
    {
        KeyValue { key: self.key.clone(), value: self.value.clone() }
    }
}

impl KeyValue {
    pub fn new(key: &str, value: &str) -> (entry: Self)
        ensures
            entry@ == (key@, value@),
    {
        KeyValue { key: String::from_str(key), value: String::from_str(value) }
    }
}

/// The entries of a list, each as a pair of texts.
pub open spec fn entries_view(entries: Seq<KeyValue>) -> Seq<(Seq<char>, Seq<char>)> {
    entries.map_values(|e: KeyValue| e@)
}

/// The map that a list of entries denotes. Where a key occurs more than once
/// the last occurrence decides.
pub open spec fn entries_map(entries: Seq<(Seq<char>, Seq<char>)>) -> Map<Seq<char>, Seq<char>>
    decreases entries.len(),
{
    if entries.len() == 0 {
        Map::empty()
    } else {
        entries_map(entries.drop_last()).insert(entries.last().0, entries.last().1)
    }
}

/// The keys ascend strictly, so no key occurs twice.
pub open spec fn strictly_sorted(entries: Seq<(Seq<char>, Seq<char>)>) -> bool {
    forall|i: int, j: int|
        0 <= i < j < entries.len() ==> lex_lt(#[trigger] entries[i].0, #[trigger] entries[j].0)
}

/// The value that a map gives a key, or the empty text where it has none.
pub open spec fn value_or_empty(m: Map<Seq<char>, Seq<char>>, key: Seq<char>) -> Seq<char> {
    if m.contains_key(key) {
        m[key]
    } else {
        Seq::empty()
    }
}

/// A key is in the map exactly if some entry carries it.
pub proof fn lemma_entries_map_keys(entries: Seq<(Seq<char>, Seq<char>)>, key: Seq<char>)
    ensures
        entries_map(entries).contains_key(key) <==> exists|i: int|
            0 <= i < entries.len() && #[trigger] entries[i].0 == key,
    decreases entries.len(),
{
    if entries.len() > 0 {
        let front = entries.drop_last();
        lemma_entries_map_keys(front, key);
        if entries_map(entries).contains_key(key) {
            if entries.last().0 == key {
                assert(entries[entries.len() - 1].0 == key);
            } else {
                let i = choose|i: int| 0 <= i < front.len() && #[trigger] front[i].0 == key;
                assert(entries[i].0 == key);
            }
        }
        if exists|i: int| 0 <= i < entries.len() && #[trigger] entries[i].0 == key {
            let i = choose|i: int| 0 <= i < entries.len() && #[trigger] entries[i].0 == key;
            if i < entries.len() - 1 {
                assert(front[i].0 == key);
            }
        }
    }
}

/// In a sorted list every entry's value is the one the map gives its key.
pub proof fn lemma_sorted_entries_values(entries: Seq<(Seq<char>, Seq<char>)>, i: int)
    requires
        strictly_sorted(entries),
        0 <= i < entries.len(),
    ensures
        entries_map(entries).contains_key(entries[i].0),
        entries_map(entries)[entries[i].0] == entries[i].1,
    decreases entries.len(),
{
    let front = entries.drop_last();
    if i < entries.len() - 1 {
        assert(strictly_sorted(front)) by {
            assert forall|a: int, b: int| 0 <= a < b < front.len() implies lex_lt(
                #[trigger] front[a].0,
                #[trigger] front[b].0,
            ) by {
                assert(lex_lt(entries[a].0, entries[b].0));
            }
        }
        lemma_sorted_entries_values(front, i);
        assert(front[i] == entries[i]);
        assert(lex_lt(entries[i].0, entries[entries.len() - 1].0));
        lemma_lex_lt_irreflexive(entries[i].0);
    }
}

/// What is left of a sorted list without its first entry is sorted, and
/// denotes the map without the first key.
proof fn lemma_sorted_tail(entries: Seq<(Seq<char>, Seq<char>)>)
    requires
        strictly_sorted(entries),
        entries.len() > 0,
    ensures
        strictly_sorted(entries.drop_first()),
        entries_map(entries.drop_first()) == entries_map(entries).remove(entries[0].0),
{
    let tail = entries.drop_first();
    assert forall|i: int, j: int| 0 <= i < j < tail.len() implies lex_lt(
        #[trigger] tail[i].0,
        #[trigger] tail[j].0,
    ) by {
        assert(lex_lt(entries[i + 1].0, entries[j + 1].0));
    }
    let whole = entries_map(entries);
    let rest = entries_map(tail);
    assert forall|key: Seq<char>| #[trigger]
        rest.contains_key(key) == whole.remove(entries[0].0).contains_key(key) && (
        rest.contains_key(key) ==> rest[key] == whole.remove(entries[0].0)[key]) by {
        lemma_entries_map_keys(entries, key);
        lemma_entries_map_keys(tail, key);
        if rest.contains_key(key) {
            let i = choose|i: int| 0 <= i < tail.len() && #[trigger] tail[i].0 == key;
            assert(entries[i + 1].0 == key);
            assert(lex_lt(entries[0].0, entries[i + 1].0));
            lemma_lex_lt_irreflexive(key);
            lemma_sorted_entries_values(tail, i);
            lemma_sorted_entries_values(entries, i + 1);
        }
        if whole.remove(entries[0].0).contains_key(key) {
            let i = choose|i: int| 0 <= i < entries.len() && #[trigger] entries[i].0 == key;
            assert(tail[i - 1].0 == key);
        }
    }
    assert(rest =~= whole.remove(entries[0].0));
}

/// A map has one sorted list only: two sorted lists that denote the same map
/// are the same list.
pub proof fn lemma_sorted_entries_unique(
    a: Seq<(Seq<char>, Seq<char>)>,
    b: Seq<(Seq<char>, Seq<char>)>,
)
    requires
        strictly_sorted(a),
        strictly_sorted(b),
        entries_map(a) == entries_map(b),
    ensures
        a == b,
    decreases a.len(),
{
    if a.len() == 0 || b.len() == 0 {
        if a.len() > 0 {
            lemma_entries_map_keys(a, a[0].0);
            lemma_entries_map_keys(b, a[0].0);
        }
        if b.len() > 0 {
            lemma_entries_map_keys(a, b[0].0);
            lemma_entries_map_keys(b, b[0].0);
        }
        assert(a =~= b);
    } else {
        lemma_entries_map_keys(a, a[0].0);
        lemma_entries_map_keys(b, a[0].0);
        lemma_entries_map_keys(a, b[0].0);
        lemma_entries_map_keys(b, b[0].0);
        let j = choose|j: int| 0 <= j < b.len() && #[trigger] b[j].0 == a[0].0;
        let i = choose|i: int| 0 <= i < a.len() && #[trigger] a[i].0 == b[0].0;
        if a[0].0 != b[0].0 {
            assert(lex_lt(b[0].0, b[j].0));
            assert(lex_lt(a[0].0, a[i].0));
            lemma_lex_lt_transitive(a[0].0, b[0].0, a[0].0);
            lemma_lex_lt_irreflexive(a[0].0);
        }
        lemma_sorted_entries_values(a, 0);
        lemma_sorted_entries_values(b, 0);
        lemma_sorted_tail(a);
        lemma_sorted_tail(b);
        lemma_sorted_entries_unique(a.drop_first(), b.drop_first());
        assert(a =~= seq![a[0]] + a.drop_first());
        assert(b =~= seq![b[0]] + b.drop_first());
    }
}

proof fn lemma_insert_new_entry(
    entries: Seq<(Seq<char>, Seq<char>)>,
    i: int,
    entry: (Seq<char>, Seq<char>),
)
    requires
        strictly_sorted(entries),
        0 <= i <= entries.len(),
        forall|j: int| 0 <= j < i ==> lex_lt(#[trigger] entries[j].0, entry.0),
        i < entries.len() ==> lex_lt(entry.0, entries[i].0),
    ensures
        strictly_sorted(entries.insert(i, entry)),
        entries_map(entries.insert(i, entry)) == entries_map(entries).insert(entry.0, entry.1),
{
    let grown = entries.insert(i, entry);
    assert forall|j: int| i <= j < entries.len() implies lex_lt(
        entry.0,
        #[trigger] entries[j].0,
    ) by {
        if i < j {
            assert(lex_lt(entries[i].0, entries[j].0));
            lemma_lex_lt_transitive(entry.0, entries[i].0, entries[j].0);
        }
    }
    assert forall|a: int, b: int| 0 <= a < b < grown.len() implies lex_lt(
        #[trigger] grown[a].0,
        #[trigger] grown[b].0,
    ) by {
        let a0 = if a < i { a } else { a - 1 };
        let b0 = if b < i { b } else { b - 1 };
        if a != i && b != i {
            assert(grown[a] == entries[a0]);
            assert(grown[b] == entries[b0]);
            assert(lex_lt(entries[a0].0, entries[b0].0));
        } else if a == i {
            assert(grown[b] == entries[b0]);
        } else {
            assert(grown[a] == entries[a0]);
        }
    }
    let before = entries_map(entries);
    let after = entries_map(grown);
    assert forall|key: Seq<char>| #[trigger]
        after.contains_key(key) == before.insert(entry.0, entry.1).contains_key(key) && (
        after.contains_key(key) ==> after[key] == before.insert(entry.0, entry.1)[key]) by {
        lemma_entries_map_keys(entries, key);
        lemma_entries_map_keys(grown, key);
        lemma_sorted_entries_values(grown, i);
        assert(grown[i] == entry);
        if key != entry.0 {
            if after.contains_key(key) {
                let a = choose|a: int| 0 <= a < grown.len() && #[trigger] grown[a].0 == key;
                let a0 = if a < i { a } else { a - 1 };
                assert(grown[a] == entries[a0]);
                assert(entries[a0].0 == key);
                lemma_sorted_entries_values(grown, a);
                lemma_sorted_entries_values(entries, a0);
            }
            if before.contains_key(key) {
                let a0 = choose|a: int| 0 <= a < entries.len() && #[trigger] entries[a].0 == key;
                let a = if a0 < i { a0 } else { a0 + 1 };
                assert(grown[a] == entries[a0]);
                assert(grown[a].0 == key);
            }
        }
    }
    assert(after =~= before.insert(entry.0, entry.1));
}

proof fn lemma_replace_entry(
    entries: Seq<(Seq<char>, Seq<char>)>,
    i: int,
    entry: (Seq<char>, Seq<char>),
)
    requires
        strictly_sorted(entries),
        0 <= i < entries.len(),
        entries[i].0 == entry.0,
    ensures
        strictly_sorted(entries.update(i, entry)),
        entries_map(entries.update(i, entry)) == entries_map(entries).insert(entry.0, entry.1),
{
    let changed = entries.update(i, entry);
    assert forall|a: int, b: int| 0 <= a < b < changed.len() implies lex_lt(
        #[trigger] changed[a].0,
        #[trigger] changed[b].0,
    ) by {
        assert(lex_lt(entries[a].0, entries[b].0));
    }
    let before = entries_map(entries);
    let after = entries_map(changed);
    assert forall|key: Seq<char>| #[trigger]
        after.contains_key(key) == before.insert(entry.0, entry.1).contains_key(key) && (
        after.contains_key(key) ==> after[key] == before.insert(entry.0, entry.1)[key]) by {
        lemma_entries_map_keys(entries, key);
        lemma_entries_map_keys(changed, key);
        lemma_sorted_entries_values(changed, i);
        if key != entry.0 {
            if after.contains_key(key) {
                let a = choose|a: int| 0 <= a < changed.len() && #[trigger] changed[a].0 == key;
                assert(changed[a] == entries[a]);
                assert(entries[a].0 == key);
                lemma_sorted_entries_values(changed, a);
                lemma_sorted_entries_values(entries, a);
            }
            if before.contains_key(key) {
                let a = choose|a: int| 0 <= a < entries.len() && #[trigger] entries[a].0 == key;
                assert(changed[a] == entries[a]);
                assert(changed[a].0 == key);
            }
        } else {
            assert(changed[i].0 == key);
        }
    }
    assert(after =~= before.insert(entry.0, entry.1));
}

/// Puts an entry into a sorted list at the place its key asks for. An entry
/// that has the key already is replaced.
pub fn insert_entry(entries: &mut Vec<KeyValue>, entry: KeyValue)
    requires
        strictly_sorted(entries_view(old(entries)@)),
    ensures
        strictly_sorted(entries_view(final(entries)@)),
        entries_map(entries_view(final(entries)@)) == entries_map(
            entries_view(old(entries)@),
        ).insert(entry.key@, entry.value@),
{
    let ghost before = entries_view(entries@);
    let n = entries.len();
    let mut i: usize = 0;
    let mut same = false;
    while i < n
        invariant_except_break
            !same,
        invariant
            i <= n,
            n == entries@.len(),
            entries_view(entries@) == before,
            forall|j: int| 0 <= j < i ==> lex_lt(#[trigger] before[j].0, entry.key@),
        ensures
            i <= n,
            same ==> i < n && before[i as int].0 == entry.key@,
            !same && i < n ==> lex_lt(entry.key@, before[i as int].0),
            forall|j: int| 0 <= j < i ==> lex_lt(#[trigger] before[j].0, entry.key@),
        decreases n - i,
    {
        assert(before[i as int] == entries@[i as int]@);
        match key_order(entries[i].key.as_str(), entry.key.as_str()) {
            KeyOrder::Before => {
                i += 1;
            },
            KeyOrder::Same => {
                same = true;
                break ;
            },
            KeyOrder::After => {
                break ;
            },
        }
    }
    if same {
        proof {
            lemma_replace_entry(before, i as int, entry@);
            assert(entries_view(entries@.update(i as int, entry)) =~= before.update(
                i as int,
                entry@,
            ));
        }
        entries.set(i, entry);
    } else {
        proof {
            lemma_insert_new_entry(before, i as int, entry@);
            assert(entries_view(entries@.insert(i as int, entry)) =~= before.insert(
                i as int,
                entry@,
            ));
        }
        entries.insert(i, entry);
    }
}

/// The sorted list that denotes the same map as `entries`.
pub fn sorted_entries(entries: &Vec<KeyValue>) -> (sorted: Vec<KeyValue>)
    ensures
        strictly_sorted(entries_view(sorted@)),
        entries_map(entries_view(sorted@)) == entries_map(entries_view(entries@)),
{
    let mut sorted: Vec<KeyValue> = Vec::new();
    let mut i: usize = 0;
    proof {
        assert(entries_view(entries@).take(0) =~= entries_view(sorted@));
    }
    while i < entries.len()
        invariant
            i <= entries@.len(),
            strictly_sorted(entries_view(sorted@)),
            entries_map(entries_view(sorted@)) == entries_map(
                entries_view(entries@).take(i as int),
            ),
        decreases entries@.len() - i,
    {
        proof {
            let all = entries_view(entries@);
            assert(all.take(i + 1).drop_last() =~= all.take(i as int));
            assert(all.take(i + 1).last() == entries@[i as int]@);
        }
        insert_entry(&mut sorted, entries[i].clone());
        i += 1;
    }
    proof {
        assert(entries_view(entries@).take(i as int) =~= entries_view(entries@));
    }
    sorted
}

/// The value that a sorted list gives a key, or the empty text where the key
/// is missing.
pub fn lookup_or_empty(entries: &Vec<KeyValue>, key: &str) -> (value: String)
    requires
        strictly_sorted(entries_view(entries@)),
    ensures
        value@ == value_or_empty(entries_map(entries_view(entries@)), key@),
{
    let ghost all = entries_view(entries@);
    let mut i: usize = 0;
    while i < entries.len()
        invariant
            i <= entries@.len(),
            all == entries_view(entries@),
            strictly_sorted(all),
            forall|j: int| 0 <= j < i ==> #[trigger] all[j].0 != key@,
        decreases entries@.len() - i,
    {
        assert(all[i as int] == entries@[i as int]@);
        if key_order(entries[i].key.as_str(), key) == KeyOrder::Same {
            proof {
                lemma_sorted_entries_values(all, i as int);
            }
            return entries[i].value.clone();
        }
        i += 1;
    }
    proof {
        lemma_entries_map_keys(all, key@);
    }
    String::new()
}

} // verus!
