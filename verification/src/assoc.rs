//! Lists of keyed entries that stand for maps from strings: each key occurs
//! at most once, and the list is read through the map that it describes.

use vstd::prelude::*;

verus! {

/// The map that the first `n` entries describe, a later entry replacing an
/// earlier one under the same key.
pub open spec fn map_of<V>(entries: Seq<(String, V)>, n: nat) -> Map<Seq<char>, V>
    decreases n,
{
    if n == 0 || n > entries.len() {
        Map::empty()
    } else {
        map_of(entries, (n - 1) as nat).insert(entries[n - 1].0@, entries[n - 1].1)
    }
}

/// The map that all the entries describe.
pub open spec fn whole_map<V>(entries: Seq<(String, V)>) -> Map<Seq<char>, V> {
    map_of(entries, entries.len())
}

/// No two entries share a key.
pub open spec fn keys_distinct<V>(entries: Seq<(String, V)>) -> bool {
    forall|i: int, j: int|
        0 <= i < j < entries.len() ==> (#[trigger] entries[i]).0@ != (#[trigger] entries[j]).0@
}

/// Whether some entry has the key.
pub open spec fn has_key<V>(entries: Seq<(String, V)>, key: Seq<char>) -> bool {
    exists|i: int| 0 <= i < entries.len() && (#[trigger] entries[i]).0@ == key
}

/// The position of an entry that has the key, where there is one.
pub open spec fn index_of<V>(entries: Seq<(String, V)>, key: Seq<char>) -> int {
    choose|i: int| 0 <= i < entries.len() && (#[trigger] entries[i]).0@ == key
}

/// The entries with `value` under `key`: in place of the entry that has the
/// key, or else at the end.
pub open spec fn with_entry<V>(entries: Seq<(String, V)>, key: String, value: V) -> Seq<
    (String, V),
> {
    if has_key(entries, key@) {
        entries.update(index_of(entries, key@), (key, value))
    } else {
        entries.push((key, value))
    }
}

/// The keys of the map are those of the entries; where the keys are distinct,
/// each entry's value is the one that the map holds under its key.
pub proof fn lemma_map_of<V>(entries: Seq<(String, V)>, n: nat)
    requires
        n <= entries.len(),
    ensures
        map_of(entries, n).dom().finite(),
        forall|k: Seq<char>| #[trigger]
            map_of(entries, n).contains_key(k) <==> has_key(entries.take(n as int), k),
        keys_distinct(entries) ==> forall|i: int|
            0 <= i < n ==> map_of(entries, n)[(#[trigger] entries[i]).0@] == entries[i].1,
    decreases n,
{
    if n > 0 {
        let m: nat = (n - 1) as nat;
        lemma_map_of(entries, m);
        let last = entries[n - 1];
        assert forall|k: Seq<char>| #[trigger]
            map_of(entries, n).contains_key(k) <==> has_key(entries.take(n as int), k) by {
            if map_of(entries, n).contains_key(k) {
                if k == last.0@ {
                    assert(entries.take(n as int)[n - 1].0@ == k);
                } else {
                    assert(map_of(entries, m).contains_key(k));
                    let i = choose|i: int|
                        0 <= i < m && (#[trigger] entries.take(m as int)[i]).0@ == k;
                    assert(entries.take(n as int)[i].0@ == k);
                }
            }
            if has_key(entries.take(n as int), k) {
                let i = choose|i: int|
                    0 <= i < n && (#[trigger] entries.take(n as int)[i]).0@ == k;
                if i < m {
                    assert(entries.take(m as int)[i].0@ == k);
                }
            }
        }
    } else {
        assert forall|k: Seq<char>| #[trigger]
            map_of(entries, n).contains_key(k) <==> has_key(entries.take(n as int), k) by {}
    }
}

/// The position of the entry with the key, if there is one.
pub fn position<V>(entries: &Vec<(String, V)>, key: &String) -> (found: Option<usize>)
    ensures
        match found {
            Some(i) => i < entries@.len() && entries@[i as int].0@ == key@,
            None => !has_key(entries@, key@),
        },
{
    let mut i: usize = 0;
    while i < entries.len()
        invariant
            i <= entries@.len(),
            forall|j: int| 0 <= j < i ==> (#[trigger] entries@[j]).0@ != key@,
        decreases entries@.len() - i,
    {
        if entries[i].0 == *key {
            return Some(i);
        }
        i += 1;
    }
    None
}

/// Puts `value` under `key`: in place of the entry that has the key, or else
/// at the end.
pub fn upsert<V>(entries: &mut Vec<(String, V)>, key: String, value: V)
    requires
        keys_distinct(old(entries)@),
    ensures
        keys_distinct(final(entries)@),
        whole_map(final(entries)@) == whole_map(old(entries)@).insert(key@, value),
        final(entries)@ == with_entry(old(entries)@, key, value),
{
    let ghost before = entries@;
    let found = position(entries, &key);
    match found {
        Some(i) => {
            entries[i] = (key, value);
        },
        None => {
            entries.push((key, value));
        },
    }
    proof {
        let after = entries@;
        assert(keys_distinct(after)) by {
            assert forall|a: int, b: int| 0 <= a < b < after.len() implies (#[trigger] after[a]).0@
                != (#[trigger] after[b]).0@ by {
                match found {
                    Some(i) => {
                        assert(before[a].0@ != before[b].0@);
                    },
                    None => {
                        if b < before.len() {
                            assert(before[a].0@ != before[b].0@);
                        } else {
                            assert(before[a].0@ != key@);
                        }
                    },
                }
            }
        }
        lemma_map_of(before, before.len());
        lemma_map_of(after, after.len());
        assert(before.take(before.len() as int) == before);
        assert(after.take(after.len() as int) == after);
        let want = whole_map(before).insert(key@, value);
        assert forall|k: Seq<char>| whole_map(after).contains_key(k) <==> want.contains_key(
            k,
        ) by {
            if has_key(after, k) {
                let j = choose|j: int| 0 <= j < after.len() && (#[trigger] after[j]).0@ == k;
                if k != key@ {
                    assert(before[j].0@ == k);
                }
            }
            if has_key(before, k) {
                let j = choose|j: int| 0 <= j < before.len() && (#[trigger] before[j]).0@ == k;
                assert(after[j].0@ == k);
            }
            if k == key@ {
                match found {
                    Some(i) => {
                        assert(after[i as int].0@ == k);
                    },
                    None => {
                        assert(after[after.len() - 1].0@ == k);
                    },
                }
            }
        }
        assert forall|k: Seq<char>| whole_map(after).contains_key(k) implies whole_map(after)[k]
            == want[k] by {
            let j = choose|j: int| 0 <= j < after.len() && (#[trigger] after[j]).0@ == k;
            assert(whole_map(after)[after[j].0@] == after[j].1);
            if k != key@ {
                assert(before[j].0@ == k);
                assert(whole_map(before)[before[j].0@] == before[j].1);
            } else {
                match found {
                    Some(i) => {
                        assert(after[i as int].0@ == k);
                        assert(j == i);
                    },
                    None => {
                        assert(after[after.len() - 1].0@ == k);
                        assert(j == after.len() - 1);
                    },
                }
            }
        }
        assert(whole_map(after) =~= want);
        if let Some(i) = found {
            assert(before[i as int].0@ == key@);
            let j = index_of(before, key@);
            if j < i {
                assert(before[j].0@ != before[i as int].0@);
            }
            if i < j {
                assert(before[i as int].0@ != before[j].0@);
            }
        }
    }
}

} // verus!
