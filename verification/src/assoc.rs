//! Association lists keyed by strings: the maps of the caches, held in
//! insertion order with no key twice.

use vstd::prelude::*;

verus! {

/// The entries of `v` with each key taken by its characters.
pub open spec fn keyed<V>(v: Seq<(String, V)>) -> Seq<(Seq<char>, V)> {
    v.map_values(|p: (String, V)| (p.0@, p.1))
}

/// No key occurs twice.
pub open spec fn keys_unique<V>(s: Seq<(Seq<char>, V)>) -> bool {
    forall|i: int, j: int| 0 <= i < j < s.len() ==> s[i].0 != s[j].0
}

/// Index of the entry with key `k`, searching from `i`.
pub open spec fn key_index_from<V>(s: Seq<(Seq<char>, V)>, k: Seq<char>, i: int) -> Option<int>
    decreases s.len() - i,
{
    if i < 0 || i >= s.len() {
        None
    } else if s[i].0 == k {
        Some(i)
    } else {
        key_index_from(s, k, i + 1)
    }
}

/// Index of the entry with key `k`.
pub open spec fn key_index<V>(s: Seq<(Seq<char>, V)>, k: Seq<char>) -> Option<int> {
    key_index_from(s, k, 0)
}

/// The value stored under `k`.
pub open spec fn lookup<V>(s: Seq<(Seq<char>, V)>, k: Seq<char>) -> Option<V> {
    match key_index(s, k) {
        Some(i) => Some(s[i].1),
        None => None,
    }
}

/// `s` with `v` stored under `k`: an existing entry is replaced in place,
/// a new key goes to the end.
pub open spec fn insert_pair<V>(s: Seq<(Seq<char>, V)>, k: Seq<char>, v: V) -> Seq<(Seq<char>, V)> {
    match key_index(s, k) {
        Some(i) => s.update(i, (k, v)),
        None => s.push((k, v)),
    }
}

pub proof fn lemma_key_index_from<V>(s: Seq<(Seq<char>, V)>, k: Seq<char>, i: int)
    requires
        0 <= i,
    ensures
        key_index_from(s, k, i) matches Some(j) ==> i <= j < s.len() && s[j].0 == k
            && forall|m: int| i <= m < j ==> s[m].0 != k,
        key_index_from(s, k, i) is None ==> forall|m: int| i <= m < s.len() ==> s[m].0 != k,
    decreases s.len() - i,
{
    if i < s.len() && s[i].0 != k {
        lemma_key_index_from(s, k, i + 1);
    }
}

/// A read after a write gives back what was written under that key, and
/// what was stored under any other key; no key comes to occur twice.
pub proof fn lemma_insert_pair<V>(s: Seq<(Seq<char>, V)>, k: Seq<char>, v: V, other: Seq<char>)
    requires
        keys_unique(s),
        other != k,
    ensures
        lookup(insert_pair(s, k, v), k) == Some(v),
        lookup(insert_pair(s, k, v), other) == lookup(s, other),
        keys_unique(insert_pair(s, k, v)),
{
    let t = insert_pair(s, k, v);
    lemma_key_index_from(s, k, 0);
    lemma_key_index_from(s, other, 0);
    lemma_key_index_from(t, k, 0);
    lemma_key_index_from(t, other, 0);
    match key_index(s, k) {
        Some(i) => {
            assert(t[i].0 == k);
        },
        None => {
            assert(t[s.len() as int].0 == k);
        },
    }
    match key_index(s, other) {
        Some(j) => {
            assert(t[j].0 == other);
        },
        None => {},
    }
}

/// Storing under a key makes no key occur twice.
pub proof fn lemma_insert_pair_unique<V>(s: Seq<(Seq<char>, V)>, k: Seq<char>, v: V)
    requires
        keys_unique(s),
    ensures
        keys_unique(insert_pair(s, k, v)),
{
    let t = insert_pair(s, k, v);
    lemma_key_index_from(s, k, 0);
    match key_index(s, k) {
        Some(i) => {
            assert(t[i].0 == k);
        },
        None => {
            assert(t[s.len() as int].0 == k);
        },
    }
}

/// Two lists with the same keys in the same places find a key at the same index.
pub proof fn lemma_key_index_same_keys<V, W>(
    s: Seq<(Seq<char>, V)>,
    t: Seq<(Seq<char>, W)>,
    k: Seq<char>,
    i: int,
)
    requires
        s.len() == t.len(),
        forall|j: int| 0 <= j < s.len() ==> s[j].0 == t[j].0,
    ensures
        key_index_from(s, k, i) == key_index_from(t, k, i),
    decreases s.len() - i,
{
    if 0 <= i < s.len() && s[i].0 != k {
        lemma_key_index_same_keys(s, t, k, i + 1);
    }
}

/// Index of the entry with key `key`.
pub fn key_position<V>(entries: &Vec<(String, V)>, key: &String) -> (r: Option<usize>)
    ensures
        r matches Some(i) ==> i < entries@.len() && key_index(keyed(entries@), key@) == Some(i as int),
        r is None ==> key_index(keyed(entries@), key@) is None,
{
    let ghost s = keyed(entries@);
    let mut i: usize = 0;
    while i < entries.len()
        invariant
            i <= entries.len(),
            s == keyed(entries@),
            key_index_from(s, key@, i as int) == key_index(s, key@),
        decreases entries.len() - i,
    {
        if entries[i].0 == *key {
            return Some(i);
        }
        i = i + 1;
    }
    None
}

/// Stores `value` under `key`, replacing an existing entry in place.
pub fn insert_keyed<V>(entries: &mut Vec<(String, V)>, key: String, value: V)
    ensures
        keyed(final(entries)@) == insert_pair(keyed(old(entries)@), key@, value),
        keys_unique(keyed(old(entries)@)) ==> keys_unique(keyed(final(entries)@)),
{
    proof {
        if keys_unique(keyed(entries@)) {
            lemma_insert_pair_unique(keyed(entries@), key@, value);
        }
    }
    let ghost s = keyed(entries@);
    match key_position(entries, &key) {
        Some(i) => {
            let ghost k = key@;
            let ghost val = value;
            entries.set(i, (key, value));
            assert(keyed(entries@) =~= s.update(i as int, (k, val)));
        },
        None => {
            let ghost k = key@;
            let ghost val = value;
            entries.push((key, value));
            assert(keyed(entries@) =~= s.push((k, val)));
        },
    }
}

} // verus!
