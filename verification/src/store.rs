//! The field store: the key/value fields that every log record carries.

use crate::json::{clone_value, no_fields, object_fields, object_insert};
use serde_json::Value;
use vstd::prelude::*;

verus! {

/// A set of persistent fields. Each key occurs at most once.
pub struct FieldStore {
    entries: Vec<(String, Value)>,
}

/// Whether no key occurs twice among the entries.
spec fn distinct_keys(entries: Seq<(String, Value)>) -> bool {
    forall|i: int, j: int|
        0 <= i < j < entries.len() ==> (#[trigger] entries[i]).0@ != (#[trigger] entries[j]).0@
}

/// Whether some entry has the key.
spec fn has_key(entries: Seq<(String, Value)>, key: Seq<char>) -> bool {
    exists|i: int| 0 <= i < entries.len() && (#[trigger] entries[i]).0@ == key
}

/// The position of an entry with the key, where there is one.
spec fn position_of(entries: Seq<(String, Value)>, key: Seq<char>) -> int {
    choose|i: int| 0 <= i < entries.len() && (#[trigger] entries[i]).0@ == key
}

/// The mapping that the entries stand for.
spec fn fields_of(entries: Seq<(String, Value)>) -> Map<Seq<char>, Value> {
    Map::new(
        |key: Seq<char>| has_key(entries, key),
        |key: Seq<char>| entries[position_of(entries, key)].1,
    )
}

/// With distinct keys, each entry is what the mapping holds under its key.
proof fn lemma_entry_is_field(entries: Seq<(String, Value)>, i: int)
    requires
        distinct_keys(entries),
        0 <= i < entries.len(),
    ensures
        fields_of(entries).contains_key(entries[i].0@),
        fields_of(entries)[entries[i].0@] == entries[i].1,
        position_of(entries, entries[i].0@) == i,
{
    let key = entries[i].0@;
    assert(has_key(entries, key));
    let p = position_of(entries, key);
    assert(0 <= p < entries.len() && entries[p].0@ == key);
    if p < i {
        assert(entries[p].0@ != entries[i].0@);
    } else if i < p {
        assert(entries[i].0@ != entries[p].0@);
    }
}

/// The fields after the pairs have been set one by one, from the first to
/// the last.
pub open spec fn set_each(fields: Map<Seq<char>, Value>, pairs: Seq<(String, Value)>) -> Map<
    Seq<char>,
    Value,
>
    decreases pairs.len(),
{
    if pairs.len() == 0 {
        fields
    } else {
        set_each(fields, pairs.drop_last()).insert(pairs.last().0@, pairs.last().1)
    }
}

/// The value that the fields hold under the key, if any.
pub open spec fn lookup(fields: Map<Seq<char>, Value>, key: Seq<char>) -> Option<Value> {
    if fields.contains_key(key) {
        Some(fields[key])
    } else {
        None
    }
}

impl View for FieldStore {
    type V = Map<Seq<char>, Value>;

    closed spec fn view(&self) -> Map<Seq<char>, Value> {
        fields_of(self.entries@)
    }
}

impl FieldStore {
    /// The store's invariant: no key occurs twice.
    #[verifier::type_invariant]
    spec fn wf(&self) -> bool {
        distinct_keys(self.entries@)
    }

    /// A store without fields.
    pub fn new() -> (store: Self)
        ensures
            store@ == no_fields(),
    {
        let store = FieldStore { entries: Vec::new() };
        assert(store@ =~= no_fields());
        store
    }

    /// Whether the store has no fields.
    pub fn is_empty(&self) -> (empty: bool)
        ensures
            empty == (self@ == no_fields()),
    {
        let empty = self.entries.len() == 0;
        proof {
            use_type_invariant(self);
            if empty {
                assert(self@ =~= no_fields());
            } else {
                lemma_entry_is_field(self.entries@, 0);
            }
        }
        empty
    }

    /// The keys of the store's fields, each of them once.
    pub fn keys(&self) -> (keys: Vec<String>)
        ensures
            forall|i: int, j: int| 0 <= i < j < keys@.len() ==> keys@[i]@ != keys@[j]@,
            forall|i: int| 0 <= i < keys@.len() ==> self@.contains_key(#[trigger] keys@[i]@),
            forall|key: Seq<char>|
                self@.contains_key(key) ==> exists|i: int|
                    0 <= i < keys@.len() && #[trigger] keys@[i]@ == key,
    {
        let mut keys: Vec<String> = Vec::new();
        let mut i: usize = 0;
        while i < self.entries.len()
            invariant
                i <= self.entries@.len(),
                keys@.len() == i,
                forall|j: int| 0 <= j < i ==> (#[trigger] keys@[j])@ == self.entries@[j].0@,
            decreases self.entries@.len() - i,
        {
            keys.push(self.entries[i].0.clone());
            i += 1;
        }
        proof {
            use_type_invariant(self);
            assert forall|a: int, b: int| 0 <= a < b < keys@.len() implies keys@[a]@
                != keys@[b]@ by {
                assert(self.entries@[a].0@ != self.entries@[b].0@);
            }
            assert forall|a: int| 0 <= a < keys@.len() implies self@.contains_key(
                #[trigger] keys@[a]@,
            ) by {
                lemma_entry_is_field(self.entries@, a);
            }
            assert forall|key: Seq<char>| self@.contains_key(key) implies exists|a: int|
                0 <= a < keys@.len() && #[trigger] keys@[a]@ == key by {
                let p = position_of(self.entries@, key);
                assert(keys@[p]@ == key);
            }
        }
        keys
    }

    /// The position of the entry with the key, if there is one.
    fn find(&self, key: &String) -> (found: Option<usize>)
        ensures
            match found {
                Some(i) => i < self.entries@.len() && self.entries@[i as int].0@ == key@,
                None => !has_key(self.entries@, key@),
            },
    {
        let mut i: usize = 0;
        while i < self.entries.len()
            invariant
                i <= self.entries@.len(),
                forall|j: int| 0 <= j < i ==> (#[trigger] self.entries@[j]).0@ != key@,
            decreases self.entries@.len() - i,
        {
            if self.entries[i].0 == *key {
                return Some(i);
            }
            i += 1;
        }
        None
    }
}

/// Sets the field `key` to `value`, in place of any value it had.
pub fn add_persistent_log(store: &mut FieldStore, key: &str, value: Value)
    ensures
        final(store)@ == old(store)@.insert(key@, value),
{
    let owned = key.to_owned();
    let ghost before = store.entries@;
    proof {
        use_type_invariant(&*store);
    }
    let found = store.find(&owned);
    let mut taken = FieldStore { entries: Vec::new() };
    std::mem::swap(store, &mut taken);
    let mut entries = taken.entries;
    match found {
        Some(i) => {
            entries.set(i, (owned, value));
            proof {
                lemma_replaced(before, entries@, i as int);
            }
        },
        None => {
            entries.push((owned, value));
            proof {
                lemma_appended(before, entries@);
            }
        },
    }
    *store = FieldStore { entries };
}

/// Replacing the value of one entry sets that entry's field.
proof fn lemma_replaced(before: Seq<(String, Value)>, after: Seq<(String, Value)>, i: int)
    requires
        distinct_keys(before),
        0 <= i < before.len(),
        after.len() == before.len(),
        after[i].0@ == before[i].0@,
        forall|j: int| 0 <= j < before.len() && j != i ==> after[j] == before[j],
    ensures
        distinct_keys(after),
        fields_of(after) == fields_of(before).insert(after[i].0@, after[i].1),
{
    assert forall|a: int, b: int| 0 <= a < b < after.len() implies (#[trigger] after[a]).0@ != (
    #[trigger] after[b]).0@ by {
        assert(before[a].0@ != before[b].0@);
    }
    let expected = fields_of(before).insert(after[i].0@, after[i].1);
    assert forall|key: Seq<char>| fields_of(after).contains_key(key) implies expected.contains_key(
        key,
    ) && expected[key] == fields_of(after)[key] by {
        let p = position_of(after, key);
        lemma_entry_is_field(after, p);
        lemma_entry_is_field(before, p);
    }
    assert forall|key: Seq<char>| expected.contains_key(key) implies fields_of(after).contains_key(
        key,
    ) by {
        if key == after[i].0@ {
            lemma_entry_is_field(after, i);
        } else {
            let p = position_of(before, key);
            lemma_entry_is_field(before, p);
            lemma_entry_is_field(after, p);
        }
    }
    assert(fields_of(after) =~= expected);
}

/// Appending an entry with a new key sets that entry's field.
proof fn lemma_appended(before: Seq<(String, Value)>, after: Seq<(String, Value)>)
    requires
        distinct_keys(before),
        after.len() == before.len() + 1,
        forall|j: int| 0 <= j < before.len() ==> after[j] == before[j],
        !has_key(before, after.last().0@),
    ensures
        distinct_keys(after),
        fields_of(after) == fields_of(before).insert(after.last().0@, after.last().1),
{
    let n = before.len() as int;
    assert forall|a: int, b: int| 0 <= a < b < after.len() implies (#[trigger] after[a]).0@ != (
    #[trigger] after[b]).0@ by {
        if b < n {
            assert(before[a].0@ != before[b].0@);
        } else {
            assert(before[a].0@ == after[a].0@);
        }
    }
    let expected = fields_of(before).insert(after[n].0@, after[n].1);
    assert forall|key: Seq<char>| fields_of(after).contains_key(key) implies expected.contains_key(
        key,
    ) && expected[key] == fields_of(after)[key] by {
        let p = position_of(after, key);
        lemma_entry_is_field(after, p);
        if p < n {
            lemma_entry_is_field(before, p);
        }
    }
    assert forall|key: Seq<char>| expected.contains_key(key) implies fields_of(after).contains_key(
        key,
    ) by {
        if key == after[n].0@ {
            lemma_entry_is_field(after, n);
        } else {
            let p = position_of(before, key);
            lemma_entry_is_field(before, p);
            lemma_entry_is_field(after, p);
        }
    }
    assert(fields_of(after) =~= expected);
}

/// The value of the field `key`, or `None` where the store has no such field.
pub fn get_persistent_log(store: &FieldStore, key: &str) -> (value: Option<Value>)
    ensures
        value == lookup(store@, key@),
{
    let owned = key.to_owned();
    match store.find(&owned) {
        Some(i) => {
            proof {
                use_type_invariant(store);
                lemma_entry_is_field(store.entries@, i as int);
            }
            Some(clone_value(&store.entries[i].1))
        },
        None => None,
    }
}

/// A copy of the store as it is now. Later changes to the store do not reach
/// the copy.
pub fn get_all_persistent_logs(store: &FieldStore) -> (snapshot: FieldStore)
    ensures
        snapshot@ == store@,
{
    proof {
        use_type_invariant(store);
    }
    let mut entries: Vec<(String, Value)> = Vec::new();
    let mut i: usize = 0;
    while i < store.entries.len()
        invariant
            i <= store.entries@.len(),
            entries@ == store.entries@.subrange(0, i as int),
        decreases store.entries@.len() - i,
    {
        let key = store.entries[i].0.clone();
        let value = clone_value(&store.entries[i].1);
        entries.push((key, value));
        assert(entries@ =~= store.entries@.subrange(0, i + 1));
        i += 1;
    }
    assert(entries@ =~= store.entries@);
    FieldStore { entries }
}

/// Copies every field of the store into the object, each in place of a
/// member with the same key.
pub fn merge_into(store: &FieldStore, object: &mut serde_json::Map<String, Value>)
    ensures
        object_fields(*final(object)) == object_fields(*old(object)).union_prefer_right(store@),
{
    let ghost start = object_fields(*object);
    proof {
        use_type_invariant(store);
    }
    let mut i: usize = 0;
    assert(start.union_prefer_right(fields_of(store.entries@.subrange(0, 0))) =~= start);
    while i < store.entries.len()
        invariant
            i <= store.entries@.len(),
            distinct_keys(store.entries@),
            object_fields(*object) == start.union_prefer_right(
                fields_of(store.entries@.subrange(0, i as int)),
            ),
        decreases store.entries@.len() - i,
    {
        let key = store.entries[i].0.clone();
        let value = clone_value(&store.entries[i].1);
        proof {
            let before = store.entries@.subrange(0, i as int);
            let after = store.entries@.subrange(0, i + 1);
            assert(!has_key(before, after.last().0@)) by {
                if has_key(before, after.last().0@) {
                    let p = position_of(before, after.last().0@);
                    assert(store.entries@[p].0@ != store.entries@[i as int].0@);
                }
            }
            assert forall|a: int, b: int| 0 <= a < b < before.len() implies (
            #[trigger] before[a]).0@ != (#[trigger] before[b]).0@ by {
                assert(store.entries@[a].0@ != store.entries@[b].0@);
            }
            lemma_appended(before, after);
            assert(start.union_prefer_right(fields_of(before)).insert(key@, value)
                =~= start.union_prefer_right(fields_of(after)));
        }
        object_insert(object, key, value);
        i += 1;
    }
    assert(store.entries@.subrange(0, i as int) =~= store.entries@);
}

/// Removes every field.
pub fn clear_persistent_logs(store: &mut FieldStore)
    ensures
        final(store)@ == no_fields(),
{
    store.entries = Vec::new();
    assert(store@ =~= no_fields());
}

/// Sets each pair's field, from the first pair to the last, so that of two
/// pairs with one key the later one stays.
pub fn add_persistent_logs(store: &mut FieldStore, pairs: &Vec<(String, Value)>)
    ensures
        final(store)@ == set_each(old(store)@, pairs@),
{
    let mut i: usize = 0;
    while i < pairs.len()
        invariant
            i <= pairs@.len(),
            store@ == set_each(old(store)@, pairs@.subrange(0, i as int)),
        decreases pairs@.len() - i,
    {
        let value = clone_value(&pairs[i].1);
        add_persistent_log(store, pairs[i].0.as_str(), value);
        assert(pairs@.subrange(0, i + 1).drop_last() =~= pairs@.subrange(0, i as int));
        i += 1;
    }
    assert(pairs@.subrange(0, i as int) =~= pairs@);
}

/// Of two values set under one key the second stays: the first leaves no
/// trace.
pub proof fn lemma_last_set_wins(
    fields: Map<Seq<char>, Value>,
    key: Seq<char>,
    first: Value,
    second: Value,
)
    ensures
        lookup(fields.insert(key, first).insert(key, second), key) == Some(second),
        fields.insert(key, first).insert(key, second) == fields.insert(key, second),
{
    assert(fields.insert(key, first).insert(key, second) =~= fields.insert(key, second));
}

/// Setting one key changes what is found under no other key.
pub proof fn lemma_set_keeps_others(
    fields: Map<Seq<char>, Value>,
    key: Seq<char>,
    value: Value,
    other: Seq<char>,
)
    requires
        other != key,
    ensures
        lookup(fields.insert(key, value), other) == lookup(fields, other),
{
}

/// In a store without fields nothing is found under any key.
pub proof fn lemma_no_fields_holds_nothing(key: Seq<char>)
    ensures
        lookup(no_fields(), key).is_none(),
{
}

/// After the pairs have been set one by one, a pair's value is found under
/// its key, unless a later pair has the same key.
pub proof fn lemma_set_each_keeps_last(
    fields: Map<Seq<char>, Value>,
    pairs: Seq<(String, Value)>,
    i: int,
)
    requires
        0 <= i < pairs.len(),
        forall|j: int| i < j < pairs.len() ==> (#[trigger] pairs[j]).0@ != pairs[i].0@,
    ensures
        lookup(set_each(fields, pairs), pairs[i].0@) == Some(pairs[i].1),
    decreases pairs.len(),
{
    if i < pairs.len() - 1 {
        let shorter = pairs.drop_last();
        assert(shorter[i] == pairs[i]);
        assert forall|j: int| i < j < shorter.len() implies (#[trigger] shorter[j]).0@
            != shorter[i].0@ by {
            assert(shorter[j] == pairs[j]);
        }
        lemma_set_each_keeps_last(fields, shorter, i);
        assert(pairs.last() == pairs[pairs.len() - 1]);
    }
}

/// A key that no pair has is found after the pairs have been set as it was
/// found before.
pub proof fn lemma_set_each_keeps_others(
    fields: Map<Seq<char>, Value>,
    pairs: Seq<(String, Value)>,
    key: Seq<char>,
)
    requires
        forall|j: int| 0 <= j < pairs.len() ==> (#[trigger] pairs[j]).0@ != key,
    ensures
        lookup(set_each(fields, pairs), key) == lookup(fields, key),
    decreases pairs.len(),
{
    if pairs.len() > 0 {
        let shorter = pairs.drop_last();
        assert forall|j: int| 0 <= j < shorter.len() implies (#[trigger] shorter[j]).0@ != key by {
            assert(shorter[j] == pairs[j]);
        }
        lemma_set_each_keeps_others(fields, shorter, key);
        assert(pairs.last() == pairs[pairs.len() - 1]);
    }
}

} // verus!
