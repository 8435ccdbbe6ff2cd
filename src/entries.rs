use vstd::prelude::*;

use crate::text::text_eq;

verus! {

/// Whether no two entries of `m` share a key.
pub open spec fn keys_unique(m: Seq<(String, String)>) -> bool {
    forall|i: int, j: int| 0 <= i < j < m.len() ==> m[i].0@ != m[j].0@
}

/// The entries of `m` as pairs of texts.
pub open spec fn entries_view(m: Seq<(String, String)>) -> Seq<(Seq<char>, Seq<char>)> {
    m.map_values(|e: (String, String)| (e.0@, e.1@))
}

/// `m` with `key` mapped to `value`: the entry of that key is replaced
/// where it stands, or a new entry is appended.
pub open spec fn entries_insert(m: Seq<(String, String)>, key: Seq<char>, value: Seq<char>) -> Seq<
    (Seq<char>, Seq<char>),
> {
    if exists|i: int| 0 <= i < m.len() && m[i].0@ == key {
        let i = choose|i: int| 0 <= i < m.len() && m[i].0@ == key;
        entries_view(m).update(i, (key, value))
    } else {
        entries_view(m).push((key, value))
    }
}

/// The value that `m` maps `key` to.
pub open spec fn entries_lookup(m: Seq<(String, String)>, key: Seq<char>) -> Option<Seq<char>> {
    if exists|i: int| 0 <= i < m.len() && m[i].0@ == key {
        let i = choose|i: int| 0 <= i < m.len() && m[i].0@ == key;
        Some(m[i].1@)
    } else {
        None
    }
}

/// Maps `key` to `value` in `m`, keeping the keys unique.
pub fn insert_entry(m: &mut Vec<(String, String)>, key: String, value: String)
    requires
        keys_unique(old(m)@),
    ensures
        keys_unique(final(m)@),
        entries_view(final(m)@) == entries_insert(old(m)@, key@, value@),
{
    let ghost m0 = m@;
    let mut i: usize = 0;
    while i < m.len()
        invariant
            m@ == m0,
            old(m)@ == m0,
            keys_unique(m0),
            i <= m0.len(),
            forall|j: int| 0 <= j < i ==> m0[j].0@ != key@,
        decreases m0.len() - i,
    {
        if m[i].0 == key {
            assert(m0[i as int].0@ == key@);
            assert(exists|j: int| 0 <= j < m0.len() && m0[j].0@ == key@);
            let ghost c = choose|j: int| 0 <= j < m0.len() && m0[j].0@ == key@;
            assert(c == i) by {
                if c > i {
                    assert(m0[i as int].0@ != m0[c].0@);
                }
            }
            let ghost k = key@;
            let ghost v = value@;
            m.set(i, (key, value));
            assert forall|a: int, b: int| 0 <= a < b < m@.len() implies m@[a].0@ != m@[b].0@ by {
                assert(m0[a].0@ != m0[b].0@);
            }
            assert(entries_view(m@) =~= entries_insert(m0, k, v));
            return;
        }
        i = i + 1;
    }
    let ghost k = key@;
    let ghost v = value@;
    m.push((key, value));
    assert forall|a: int, b: int| 0 <= a < b < m@.len() implies m@[a].0@ != m@[b].0@ by {
        if b < m0.len() {
            assert(m0[a].0@ != m0[b].0@);
        } else {
            assert(m0[a].0@ != k);
        }
    }
    assert(!exists|j: int| 0 <= j < m0.len() && m0[j].0@ == k);
    assert(entries_view(m@) =~= entries_insert(m0, k, v));
}

/// The value that `m` maps `key` to, if any.
pub fn lookup_entry(m: &Vec<(String, String)>, key: &str) -> (r: Option<String>)
    requires
        keys_unique(m@),
    ensures
        r matches Some(v) ==> entries_lookup(m@, key@) == Some(v@),
        r is None ==> entries_lookup(m@, key@) is None,
{
    let mut i: usize = 0;
    while i < m.len()
        invariant
            keys_unique(m@),
            i <= m@.len(),
            forall|j: int| 0 <= j < i ==> m@[j].0@ != key@,
        decreases m@.len() - i,
    {
        if text_eq(m[i].0.as_str(), key) {
            assert(m@[i as int].0@ == key@);
            assert(exists|j: int| 0 <= j < m@.len() && m@[j].0@ == key@);
            let ghost c = choose|j: int| 0 <= j < m@.len() && m@[j].0@ == key@;
            assert(c == i) by {
                if c > i {
                    assert(m@[i as int].0@ != m@[c].0@);
                }
            }
            return Some(m[i].1.clone());
        }
        i = i + 1;
    }
    None
}

} // verus!
