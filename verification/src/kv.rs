//! Association lists over string keys, with unique keys and
//! last-write-wins insertion.  They are the executable maps of the crate.

use vstd::prelude::*;
use crate::text::str_eq;

verus! {

/// The first index at which key `k` occurs in `s`, or -1 if it does not.
pub open spec fn find_key<V>(s: Seq<(Seq<char>, V)>, k: Seq<char>) -> int
    decreases s.len(),
{
    if s.len() == 0 {
        -1
    } else if s[0].0 == k {
        0
    } else {
        let rest = find_key(s.drop_first(), k);
        if rest == -1 {
            -1
        } else {
            rest + 1
        }
    }
}

pub open spec fn has_key<V>(s: Seq<(Seq<char>, V)>, k: Seq<char>) -> bool {
    find_key(s, k) != -1
}

/// The value stored under `k`, if any.
pub open spec fn lookup<V>(s: Seq<(Seq<char>, V)>, k: Seq<char>) -> Option<V> {
    if has_key(s, k) {
        Some(s[find_key(s, k)].1)
    } else {
        None
    }
}

/// The last value written under `k`, if any.
pub open spec fn last_value<V>(s: Seq<(Seq<char>, V)>, k: Seq<char>) -> Option<V>
    decreases s.len(),
{
    if s.len() == 0 {
        None
    } else if s.last().0 == k {
        Some(s.last().1)
    } else {
        last_value(s.drop_last(), k)
    }
}

/// No key occurs twice.
pub open spec fn unique_keys<V>(s: Seq<(Seq<char>, V)>) -> bool {
    forall|i: int, j: int| 0 <= i < j < s.len() ==> s[i].0 != s[j].0
}

/// Overwrites the entry for `k` in place, or appends one.
pub open spec fn upsert<V>(s: Seq<(Seq<char>, V)>, k: Seq<char>, v: V) -> Seq<(Seq<char>, V)> {
    if has_key(s, k) {
        s.update(find_key(s, k), (k, v))
    } else {
        s.push((k, v))
    }
}

/// What `find_key` finds: the first occurrence, or proof there is none.
pub proof fn lemma_find_key<V>(s: Seq<(Seq<char>, V)>, k: Seq<char>)
    ensures
        find_key(s, k) == -1 ==> forall|i: int| 0 <= i < s.len() ==> s[i].0 != k,
        find_key(s, k) != -1 ==> 0 <= find_key(s, k) < s.len() && s[find_key(s, k)].0 == k
            && (forall|i: int| 0 <= i < find_key(s, k) ==> s[i].0 != k),
    decreases s.len(),
{
    if s.len() == 0 {
    } else if s[0].0 == k {
    } else {
        lemma_find_key(s.drop_first(), k);
        assert(forall|i: int| 1 <= i < s.len() ==> s[i] == s.drop_first()[i - 1]);
    }
}

/// A witness at `i`, with no earlier occurrence, is what `find_key` returns.
pub proof fn lemma_find_key_is<V>(s: Seq<(Seq<char>, V)>, k: Seq<char>, i: int)
    requires
        0 <= i < s.len(),
        s[i].0 == k,
        forall|j: int| 0 <= j < i ==> s[j].0 != k,
    ensures
        find_key(s, k) == i,
    decreases s.len(),
{
    if s[0].0 == k {
    } else {
        assert(forall|j: int| 0 <= j < s.len() - 1 ==> s.drop_first()[j] == s[j + 1]);
        lemma_find_key_is(s.drop_first(), k, i - 1);
    }
}

/// Two lists with the same keys in the same places agree on `find_key`.
pub proof fn lemma_find_key_same_keys<V1, V2>(
    s1: Seq<(Seq<char>, V1)>,
    s2: Seq<(Seq<char>, V2)>,
    k: Seq<char>,
)
    requires
        s1.len() == s2.len(),
        forall|i: int| 0 <= i < s1.len() ==> s1[i].0 == s2[i].0,
    ensures
        find_key(s1, k) == find_key(s2, k),
    decreases s1.len(),
{
    if s1.len() == 0 {
    } else {
        assert(forall|i: int| 0 <= i < s1.len() - 1 ==> s1.drop_first()[i] == s1[i + 1]);
        assert(forall|i: int| 0 <= i < s2.len() - 1 ==> s2.drop_first()[i] == s2[i + 1]);
        lemma_find_key_same_keys(s1.drop_first(), s2.drop_first(), k);
    }
}

/// `upsert` keeps keys unique.
pub proof fn lemma_upsert_unique<V>(s: Seq<(Seq<char>, V)>, k: Seq<char>, v: V)
    requires
        unique_keys(s),
    ensures
        unique_keys(upsert(s, k, v)),
{
    lemma_find_key(s, k);
    if has_key(s, k) {
        let n = find_key(s, k);
        assert forall|i: int, j: int|
            0 <= i < j < upsert(s, k, v).len() implies upsert(s, k, v)[i].0 != upsert(
            s,
            k,
            v,
        )[j].0 by {
            if i == n || j == n {
                assert(s[n].0 == k);
            }
        }
    } else {
        assert forall|i: int, j: int|
            0 <= i < j < upsert(s, k, v).len() implies upsert(s, k, v)[i].0 != upsert(
            s,
            k,
            v,
        )[j].0 by {}
    }
}

/// After `upsert`, `k` maps to `v` and every other key is untouched.
pub proof fn lemma_upsert_lookup<V>(s: Seq<(Seq<char>, V)>, k: Seq<char>, v: V, k2: Seq<char>)
    ensures
        lookup(upsert(s, k, v), k) == Some(v),
        k2 != k ==> lookup(upsert(s, k, v), k2) == lookup(s, k2),
{
    lemma_find_key(s, k);
    let t = upsert(s, k, v);
    if has_key(s, k) {
        let n = find_key(s, k);
        lemma_find_key_is(t, k, n);
        if k2 != k {
            lemma_find_key_same_keys(s, t, k2);
            lemma_find_key(s, k2);
        }
    } else {
        lemma_find_key_is(t, k, s.len() as int);
        if k2 != k {
            lemma_find_key(s, k2);
            lemma_find_key(t, k2);
            if has_key(s, k2) {
                lemma_find_key_is(t, k2, find_key(s, k2));
            } else {
                if has_key(t, k2) {
                    assert(t[find_key(t, k2)].0 == k2);
                    assert(find_key(t, k2) < s.len());
                }
            }
        }
    }
}

/// The spec view of an executable association list.
pub open spec fn kv_view<V>(s: Seq<(String, V)>) -> Seq<(Seq<char>, V)> {
    s.map_values(|p: (String, V)| (p.0@, p.1))
}

/// The index of `key` in `list`, scanning from the front.
pub fn kv_find<V>(list: &Vec<(String, V)>, key: &str) -> (r: Option<usize>)
    ensures
        match r {
            Some(i) => i == find_key(kv_view(list@), key@) && i < list@.len(),
            None => !has_key(kv_view(list@), key@),
        },
{
    let ghost s = kv_view(list@);
    let mut i: usize = 0;
    while i < list.len()
        invariant
            i <= list@.len(),
            s == kv_view(list@),
            forall|j: int| 0 <= j < i ==> s[j].0 != key@,
        decreases list@.len() - i,
    {
        if str_eq(list[i].0.as_str(), key) {
            proof {
                lemma_find_key_is(s, key@, i as int);
            }
            return Some(i);
        }
        i = i + 1;
    }
    proof {
        lemma_find_key(s, key@);
    }
    None
}

/// The fully textual view of an executable association list of strings.
pub open spec fn kv_text_view(s: Seq<(String, String)>) -> Seq<(Seq<char>, Seq<char>)> {
    s.map_values(|p: (String, String)| (p.0@, p.1@))
}

/// Inserts `value` under `key` in a textual list: overwrites in place, or
/// appends.
pub fn kv_upsert_text(list: &mut Vec<(String, String)>, key: String, value: String)
    ensures
        kv_text_view(final(list)@) == upsert(kv_text_view(old(list)@), key@, value@),
{
    let ghost s = kv_text_view(list@);
    let ghost shallow = kv_view(list@);
    proof {
        assert(forall|i: int| 0 <= i < s.len() ==> s[i].0 == shallow[i].0);
        lemma_find_key_same_keys(shallow, s, key@);
    }
    match kv_find(list, key.as_str()) {
        Some(i) => {
            list[i] = (key, value);
            proof {
                assert(kv_text_view(list@) =~= s.update(i as int, (key@, value@)));
            }
        },
        None => {
            list.push((key, value));
            proof {
                assert(kv_text_view(list@) =~= s.push((key@, value@)));
            }
        },
    }
}

/// Inserts `value` under `key`: overwrites in place, or appends.
pub fn kv_upsert<V>(list: &mut Vec<(String, V)>, key: String, value: V)
    ensures
        kv_view(final(list)@) == upsert(kv_view(old(list)@), key@, value),
{
    let ghost s = kv_view(list@);
    match kv_find(list, key.as_str()) {
        Some(i) => {
            list[i] = (key, value);
            proof {
                assert(kv_view(list@) =~= s.update(i as int, (key@, value)));
            }
        },
        None => {
            list.push((key, value));
            proof {
                assert(kv_view(list@) =~= s.push((key@, value)));
            }
        },
    }
}

} // verus!
