//! Association lists keyed by strings: the tables of a template's hooks and
//! of the configuration's defaults.
//!
//! A table is a vector of `(key, value)` pairs; a well-formed table holds
//! each key at most once. Lookups, insertions and removals behave as those of
//! a map from keys to values.
use vstd::prelude::*;

use crate::text::str_eq;

verus! {

/// The value stored under `key`: that of the first entry with this key.
pub open spec fn lookup<V>(entries: Seq<(String, V)>, key: Seq<char>) -> Option<V>
    decreases entries.len(),
{
    if entries.len() == 0 {
        None
    } else if entries[0].0@ == key {
        Some(entries[0].1)
    } else {
        lookup(entries.drop_first(), key)
    }
}

/// Each key occurs at most once.
pub open spec fn unique_keys<V>(entries: Seq<(String, V)>) -> bool {
    forall|i: int, j: int|
        0 <= i < entries.len() && 0 <= j < entries.len() && i != j ==> entries[i].0@
            != entries[j].0@
}

/// The keys of a table, in order.
pub open spec fn keys<V>(entries: Seq<(String, V)>) -> Seq<Seq<char>> {
    entries.map_values(|e: (String, V)| e.0@)
}

/// `lookup` finds the entry at a position holding the key, when it is the first.
pub proof fn lemma_lookup_at<V>(entries: Seq<(String, V)>, key: Seq<char>, i: int)
    requires
        0 <= i < entries.len(),
        entries[i].0@ == key,
        forall|j: int| 0 <= j < i ==> entries[j].0@ != key,
    ensures
        lookup(entries, key) == Some(entries[i].1),
    decreases i,
{
    if i > 0 {
        lemma_lookup_at(entries.drop_first(), key, i - 1);
    }
}

/// `lookup` finds nothing when no entry holds the key.
pub proof fn lemma_lookup_absent<V>(entries: Seq<(String, V)>, key: Seq<char>)
    requires
        forall|j: int| 0 <= j < entries.len() ==> entries[j].0@ != key,
    ensures
        lookup(entries, key) is None,
    decreases entries.len(),
{
    if entries.len() > 0 {
        lemma_lookup_absent(entries.drop_first(), key);
    }
}

/// In a table with unique keys, `lookup` finds the only entry with the key.
pub proof fn lemma_lookup_unique<V>(entries: Seq<(String, V)>, key: Seq<char>, i: int)
    requires
        unique_keys(entries),
        0 <= i < entries.len(),
        entries[i].0@ == key,
    ensures
        lookup(entries, key) == Some(entries[i].1),
{
    lemma_lookup_at(entries, key, i);
}

/// `lookup` is unchanged by appending an entry under a key that is absent.
pub proof fn lemma_lookup_push<V>(entries: Seq<(String, V)>, e: (String, V), key: Seq<char>)
    ensures
        lookup(entries.push(e), key) == (if lookup(entries, key) is Some {
            lookup(entries, key)
        } else if e.0@ == key {
            Some(e.1)
        } else {
            None
        }),
    decreases entries.len(),
{
    if entries.len() == 0 {
        assert(entries.push(e).drop_first() =~= Seq::<(String, V)>::empty());
        assert(lookup(Seq::<(String, V)>::empty(), key) is None);
        assert(entries.push(e)[0] == e);
    } else {
        assert(entries.push(e).drop_first() =~= entries.drop_first().push(e));
        assert(entries.push(e)[0] == entries[0]);
        lemma_lookup_push(entries.drop_first(), e, key);
    }
}

/// The position of the entry that holds `key`.
pub fn position_of<V>(entries: &Vec<(String, V)>, key: &str) -> (r: Option<usize>)
    ensures
        match r {
            Some(i) => i < entries@.len() && entries@[i as int].0@ == key@ && forall|j: int|
                0 <= j < i ==> entries@[j].0@ != key@,
            None => forall|j: int| 0 <= j < entries@.len() ==> entries@[j].0@ != key@,
        },
{
    let mut i: usize = 0;
    while i < entries.len()
        invariant
            i <= entries@.len(),
            forall|j: int| 0 <= j < i ==> entries@[j].0@ != key@,
        decreases entries@.len() - i,
    {
        if str_eq(entries[i].0.as_str(), key) {
            return Some(i);
        }
        i += 1;
    }
    None
}

/// Whether each key of the table occurs at most once.
pub fn keys_unique<V>(entries: &Vec<(String, V)>) -> (r: bool)
    ensures
        r == unique_keys(entries@),
{
    let n = entries.len();
    let mut i: usize = 0;
    while i < n
        invariant
            n == entries@.len(),
            i <= n,
            forall|a: int, b: int|
                0 <= a < i && 0 <= b < n && a != b ==> entries@[a].0@ != entries@[b].0@,
        decreases n - i,
    {
        let mut j: usize = 0;
        while j < n
            invariant
                n == entries@.len(),
                i < n,
                j <= n,
                forall|a: int, b: int|
                    0 <= a < i && 0 <= b < n && a != b ==> entries@[a].0@ != entries@[b].0@,
                forall|b: int| 0 <= b < j && b != i ==> entries@[i as int].0@ != entries@[b].0@,
            decreases n - j,
        {
            if j != i && str_eq(entries[i].0.as_str(), entries[j].0.as_str()) {
                assert(!unique_keys(entries@)) by {
                    assert(entries@[i as int].0@ == entries@[j as int].0@);
                }
                return false;
            }
            j += 1;
        }
        i += 1;
    }
    true
}

/// The value stored under `key`.
pub fn get_entry<'a, V>(entries: &'a Vec<(String, V)>, key: &str) -> (r: Option<&'a V>)
    ensures
        match lookup(entries@, key@) {
            Some(v) => r matches Some(x) && *x == v,
            None => r is None,
        },
{
    match position_of(entries, key) {
        Some(i) => {
            proof {
                lemma_lookup_at(entries@, key@, i as int);
            }
            Some(&entries[i].1)
        },
        None => {
            proof {
                lemma_lookup_absent(entries@, key@);
            }
            None
        },
    }
}

/// Stores `value` under `key`, replacing the value already stored there or
/// adding an entry at the end.
pub fn insert_entry<V>(entries: &mut Vec<(String, V)>, key: String, value: V)
    requires
        unique_keys(old(entries)@),
    ensures
        unique_keys(final(entries)@),
        lookup(final(entries)@, key@) == Some(value),
        forall|k: Seq<char>| k != key@ ==> lookup(final(entries)@, k) == lookup(old(entries)@, k),
{
    let ghost key_view = key@;
    let ghost new_entry = (key, value);
    match position_of(entries, key.as_str()) {
        Some(i) => {
            let ghost before = entries@;
            entries.set(i, (key, value));
            assert(entries@ == before.update(i as int, new_entry));
            proof {
                lemma_lookup_unique(entries@, key_view, i as int);
                assert forall|k: Seq<char>| k != key_view implies lookup(entries@, k) == lookup(
                    before,
                    k,
                ) by {
                    if exists|j: int| 0 <= j < before.len() && before[j].0@ == k {
                        let j = choose|j: int| 0 <= j < before.len() && before[j].0@ == k;
                        lemma_lookup_unique(before, k, j);
                        assert(entries@[j] == before[j]);
                        lemma_lookup_unique(entries@, k, j);
                    } else {
                        lemma_lookup_absent(before, k);
                        assert forall|j: int| 0 <= j < entries@.len() implies entries@[j].0@
                            != k by {
                            if j != i {
                                assert(entries@[j] == before[j]);
                            }
                        }
                        lemma_lookup_absent(entries@, k);
                    }
                }
            }
        },
        None => {
            let ghost before = entries@;
            let ghost e = new_entry;
            entries.push((key, value));
            proof {
                assert(entries@ == before.push(e));
                lemma_lookup_absent(before, key_view);
                lemma_lookup_push(before, e, key_view);
                assert forall|k: Seq<char>| k != key_view implies lookup(entries@, k) == lookup(
                    before,
                    k,
                ) by {
                    lemma_lookup_push(before, e, k);
                    if lookup(before, k) is None {
                    }
                }
            }
        },
    }
}

/// Removes the entry stored under `key` and hands its value back.
pub fn take_entry<V>(entries: &mut Vec<(String, V)>, key: &str) -> (r: Option<V>)
    requires
        unique_keys(old(entries)@),
    ensures
        r == lookup(old(entries)@, key@),
        r is None ==> final(entries)@ == old(entries)@,
        unique_keys(final(entries)@),
        lookup(final(entries)@, key@) is None,
        forall|k: Seq<char>| k != key@ ==> lookup(final(entries)@, k) == lookup(old(entries)@, k),
{
    match position_of(entries, key) {
        Some(i) => {
            let ghost before = entries@;
            proof {
                lemma_lookup_unique(before, key@, i as int);
            }
            let (_, v) = entries.remove(i);
            proof {
                lemma_remove_keeps_lookups(before, i as int);
            }
            Some(v)
        },
        None => {
            proof {
                lemma_lookup_absent(entries@, key@);
            }
            None
        },
    }
}

proof fn lemma_remove_keeps_lookups<V>(before: Seq<(String, V)>, i: int)
    requires
        unique_keys(before),
        0 <= i < before.len(),
    ensures
        unique_keys(before.remove(i)),
        lookup(before.remove(i), before[i].0@) is None,
        forall|k: Seq<char>|
            k != before[i].0@ ==> lookup(before.remove(i), k) == lookup(before, k),
{
    let after = before.remove(i);
    let key = before[i].0@;
    assert forall|j: int| 0 <= j < after.len() implies after[j].0@ != key by {
        if j < i {
        } else {
            assert(after[j] == before[j + 1]);
        }
    }
    lemma_lookup_absent(after, key);
    assert forall|k: Seq<char>| k != key implies lookup(after, k) == lookup(before, k) by {
        if exists|j: int| 0 <= j < before.len() && before[j].0@ == k {
            let j = choose|j: int| 0 <= j < before.len() && before[j].0@ == k;
            lemma_lookup_unique(before, k, j);
            if j < i {
                lemma_lookup_unique(after, k, j);
            } else {
                assert(j != i);
                assert(after[j - 1] == before[j]);
                lemma_lookup_unique(after, k, j - 1);
            }
        } else {
            lemma_lookup_absent(before, k);
            assert forall|j: int| 0 <= j < after.len() implies after[j].0@ != k by {
                if j < i {
                } else {
                    assert(after[j] == before[j + 1]);
                }
            }
            lemma_lookup_absent(after, k);
        }
    }
}

/// Removes the entry stored under `key`, if there is one.
pub fn remove_entry<V>(entries: &mut Vec<(String, V)>, key: &str)
    requires
        unique_keys(old(entries)@),
    ensures
        unique_keys(final(entries)@),
        lookup(final(entries)@, key@) is None,
        forall|k: Seq<char>| k != key@ ==> lookup(final(entries)@, k) == lookup(old(entries)@, k),
{
    let _ = take_entry(entries, key);
}

} // verus!
