//! Association lists read as finite maps.

use vstd::prelude::*;

verus! {

/// The map that an association list denotes; a later pair overrides an
/// earlier one with the same key.
pub open spec fn assoc_map<K, V>(s: Seq<(K, V)>) -> Map<K, V>
    decreases s.len(),
{
    if s.len() == 0 {
        Map::empty()
    } else {
        assoc_map(s.drop_last()).insert(s.last().0, s.last().1)
    }
}

/// No key occurs twice.
pub open spec fn keys_distinct<K, V>(s: Seq<(K, V)>) -> bool {
    forall|i: int, j: int| 0 <= i < s.len() && 0 <= j < s.len() && i != j ==> s[i].0 != s[j].0
}

pub proof fn lemma_assoc_contains<K, V>(s: Seq<(K, V)>, k: K)
    ensures
        assoc_map(s).contains_key(k) <==> exists|i: int| 0 <= i < s.len() && s[i].0 == k,
    decreases s.len(),
{
    if s.len() > 0 {
        lemma_assoc_contains(s.drop_last(), k);
        if assoc_map(s.drop_last()).contains_key(k) {
            let i = choose|i: int| 0 <= i < s.drop_last().len() && s.drop_last()[i].0 == k;
            assert(s[i].0 == k);
        }
        if exists|i: int| 0 <= i < s.len() && s[i].0 == k {
            let i = choose|i: int| 0 <= i < s.len() && s[i].0 == k;
            if i < s.len() - 1 {
                assert(s.drop_last()[i].0 == k);
            }
        }
    }
}

pub proof fn lemma_assoc_index<K, V>(s: Seq<(K, V)>, i: int)
    requires
        keys_distinct(s),
        0 <= i < s.len(),
    ensures
        assoc_map(s).contains_key(s[i].0),
        assoc_map(s)[s[i].0] == s[i].1,
    decreases s.len(),
{
    if i < s.len() - 1 {
        assert(keys_distinct(s.drop_last()));
        lemma_assoc_index(s.drop_last(), i);
        assert(s.drop_last()[i] == s[i]);
        assert(s.last().0 != s[i].0);
    }
}

pub proof fn lemma_assoc_absent<K, V>(s: Seq<(K, V)>, k: K)
    requires
        forall|i: int| 0 <= i < s.len() ==> s[i].0 != k,
    ensures
        !assoc_map(s).contains_key(k),
{
    lemma_assoc_contains(s, k);
}

pub proof fn lemma_assoc_update<K, V>(s: Seq<(K, V)>, j: int, v: V)
    requires
        keys_distinct(s),
        0 <= j < s.len(),
    ensures
        assoc_map(s.update(j, (s[j].0, v))) == assoc_map(s).insert(s[j].0, v),
    decreases s.len(),
{
    let t = s.update(j, (s[j].0, v));
    if j == s.len() - 1 {
        assert(t.drop_last() =~= s.drop_last());
        assert(assoc_map(t) =~= assoc_map(s).insert(s[j].0, v));
    } else {
        assert(keys_distinct(s.drop_last()));
        lemma_assoc_update(s.drop_last(), j, v);
        assert(t.drop_last() =~= s.drop_last().update(j, (s[j].0, v)));
        assert(s.last().0 != s[j].0);
        assert(assoc_map(t) =~= assoc_map(s).insert(s[j].0, v));
    }
}

pub proof fn lemma_distinct_push<K, V>(s: Seq<(K, V)>, p: (K, V))
    requires
        keys_distinct(s),
        !assoc_map(s).contains_key(p.0),
    ensures
        keys_distinct(s.push(p)),
{
    lemma_assoc_contains(s, p.0);
    assert forall|i: int, j: int| 0 <= i < s.push(p).len() && 0 <= j < s.push(p).len() && i != j implies s.push(p)[i].0 != s.push(p)[j].0 by {
        if i < s.len() && j < s.len() {
            assert(s.push(p)[i] == s[i] && s.push(p)[j] == s[j]);
        } else if i < s.len() {
            assert(s.push(p)[i] == s[i]);
        } else {
            assert(s.push(p)[j] == s[j]);
        }
    }
}

pub proof fn lemma_distinct_update<K, V>(s: Seq<(K, V)>, j: int, v: V)
    requires
        keys_distinct(s),
        0 <= j < s.len(),
    ensures
        keys_distinct(s.update(j, (s[j].0, v))),
{
    let t = s.update(j, (s[j].0, v));
    assert forall|a: int, b: int| 0 <= a < t.len() && 0 <= b < t.len() && a != b implies t[a].0 != t[b].0 by {
        assert(t[a].0 == s[a].0 && t[b].0 == s[b].0);
    }
}

/// The keys of a distinct association list, counted.
pub proof fn lemma_assoc_len<K, V>(s: Seq<(K, V)>)
    requires
        keys_distinct(s),
    ensures
        assoc_map(s).dom().finite(),
        assoc_map(s).dom().len() == s.len(),
    decreases s.len(),
{
    if s.len() > 0 {
        assert(keys_distinct(s.drop_last()));
        lemma_assoc_len(s.drop_last());
        assert forall|i: int| 0 <= i < s.drop_last().len() implies s.drop_last()[i].0 != s.last().0 by {
            assert(s.drop_last()[i] == s[i]);
        }
        lemma_assoc_absent(s.drop_last(), s.last().0);
    }
}

} // verus!
