use crate::key::Key;
use vstd::prelude::*;

verus! {

/// Whether some key occurs twice among the entries.
pub open spec fn has_duplicate_keys<V>(s: Seq<(Key, V)>) -> bool {
    exists|i: int, j: int| 0 <= i < j < s.len() && s[i].0 == s[j].0
}

/// Whether the key occurs among the entries.
pub open spec fn has_key<V>(s: Seq<(Key, V)>, k: Key) -> bool {
    exists|i: int| 0 <= i < s.len() && s[i].0 == k
}

/// The mapping that entries with distinct keys describe.
pub open spec fn entries_map<V>(s: Seq<(Key, V)>) -> Map<Key, V> {
    Map::new(|k: Key| has_key(s, k), |k: Key| s[choose|i: int| 0 <= i < s.len() && s[i].0 == k].1)
}

/// With distinct keys, each entry is what the mapping holds at its key.
pub proof fn lemma_entries_map_at<V>(s: Seq<(Key, V)>, i: int)
    requires
        !has_duplicate_keys(s),
        0 <= i < s.len(),
    ensures
        entries_map(s).contains_key(s[i].0),
        entries_map(s)[s[i].0] == s[i].1,
{
    let k = s[i].0;
    assert(has_key(s, k));
    let c = choose|c: int| 0 <= c < s.len() && s[c].0 == k;
    assert(c == i) by {
        if c < i {
            assert(s[c].0 == s[i].0);
        } else if c > i {
            assert(s[i].0 == s[c].0);
        }
    }
}

/// Appending an entry with a fresh key inserts it into the mapping.
pub proof fn lemma_entries_map_push<V>(s: Seq<(Key, V)>, k: Key, v: V)
    requires
        !has_duplicate_keys(s),
        !has_key(s, k),
    ensures
        !has_duplicate_keys(s.push((k, v))),
        entries_map(s.push((k, v))) == entries_map(s).insert(k, v),
{
    let t = s.push((k, v));
    assert(!has_duplicate_keys(t)) by {
        if exists|i: int, j: int| 0 <= i < j < t.len() && t[i].0 == t[j].0 {
            let (i, j) = choose|i: int, j: int| 0 <= i < j < t.len() && t[i].0 == t[j].0;
            if j == s.len() {
                assert(s[i].0 == k);
            } else {
                assert(s[i].0 == s[j].0);
            }
        }
    }
    assert forall|q: Key| #[trigger] has_key(t, q) == (has_key(s, q) || q == k) by {
        if has_key(t, q) {
            let i = choose|i: int| 0 <= i < t.len() && t[i].0 == q;
            if i < s.len() {
                assert(s[i].0 == q);
            }
        }
        if has_key(s, q) {
            let i = choose|i: int| 0 <= i < s.len() && s[i].0 == q;
            assert(t[i].0 == q);
        }
        if q == k {
            assert(t[s.len() as int].0 == q);
        }
    }
    assert forall|q: Key| #[trigger] entries_map(t).contains_key(q) implies entries_map(t)[q]
        == entries_map(s).insert(k, v)[q] by {
        let i = choose|i: int| 0 <= i < t.len() && t[i].0 == q;
        lemma_entries_map_at(t, i);
        if i < s.len() {
            assert(s[i] == t[i]);
            lemma_entries_map_at(s, i);
        }
    }
    assert(entries_map(t) =~= entries_map(s).insert(k, v));
}

/// Replacing the value of an entry updates the mapping at its key.
pub proof fn lemma_entries_map_update<V>(s: Seq<(Key, V)>, i: int, v: V)
    requires
        !has_duplicate_keys(s),
        0 <= i < s.len(),
    ensures
        !has_duplicate_keys(s.update(i, (s[i].0, v))),
        entries_map(s.update(i, (s[i].0, v))) == entries_map(s).insert(s[i].0, v),
{
    let k = s[i].0;
    let t = s.update(i, (k, v));
    assert forall|a: int| 0 <= a < s.len() implies #[trigger] t[a].0 == s[a].0 by {}
    assert(!has_duplicate_keys(t)) by {
        if exists|a: int, b: int| 0 <= a < b < t.len() && t[a].0 == t[b].0 {
            let (a, b) = choose|a: int, b: int| 0 <= a < b < t.len() && t[a].0 == t[b].0;
            assert(s[a].0 == s[b].0);
        }
    }
    assert forall|q: Key| #[trigger] has_key(t, q) == has_key(s, q) by {
        if has_key(t, q) {
            let a = choose|a: int| 0 <= a < t.len() && t[a].0 == q;
            assert(s[a].0 == q);
        }
        if has_key(s, q) {
            let a = choose|a: int| 0 <= a < s.len() && s[a].0 == q;
            assert(t[a].0 == q);
        }
    }
    assert forall|q: Key| #[trigger] entries_map(t).contains_key(q) implies entries_map(t)[q]
        == entries_map(s).insert(k, v)[q] by {
        let a = choose|a: int| 0 <= a < t.len() && t[a].0 == q;
        lemma_entries_map_at(t, a);
        if a != i {
            assert(s[a] == t[a]);
            lemma_entries_map_at(s, a);
        }
    }
    assert(entries_map(t) =~= entries_map(s).insert(k, v));
}

/// The position of the key among the entries, if it occurs.
pub fn position_of<V>(entries: &Vec<(Key, V)>, k: &Key) -> (r: Option<usize>)
    ensures
        r matches Some(i) ==> i < entries@.len() && entries@[i as int].0 == *k,
        r is None ==> !has_key(entries@, *k),
{
    let n = entries.len();
    let mut i: usize = 0;
    while i < n
        invariant
            n == entries@.len(),
            0 <= i <= n,
            forall|a: int| 0 <= a < i ==> entries@[a].0 != *k,
        decreases n - i,
    {
        if entries[i].0.same(k) {
            return Some(i);
        }
        i = i + 1;
    }
    None
}

/// Whether some key occurs twice among the entries.
pub fn find_duplicate_key<V>(entries: &Vec<(Key, V)>) -> (r: bool)
    ensures
        r == has_duplicate_keys(entries@),
{
    let n = entries.len();
    let mut i: usize = 0;
    while i < n
        invariant
            n == entries@.len(),
            0 <= i <= n,
            forall|a: int, b: int| 0 <= a < b < n && a < i ==> entries@[a].0 != entries@[b].0,
        decreases n - i,
    {
        let mut j: usize = i + 1;
        while j < n
            invariant
                n == entries@.len(),
                0 <= i < n,
                i + 1 <= j <= n,
                forall|a: int, b: int| 0 <= a < b < n && a < i ==> entries@[a].0 != entries@[b].0,
                forall|b: int| i < b < j ==> entries@[i as int].0 != entries@[b].0,
            decreases n - j,
        {
            if entries[i].0.same(&entries[j].0) {
                return true;
            }
            j = j + 1;
        }
        i = i + 1;
    }
    false
}

} // verus!
