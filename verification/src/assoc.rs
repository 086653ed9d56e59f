//! Association sequences and the finite maps they denote.
//!
//! Several structures of this crate keep labeled values as a vector of
//! key/value pairs with pairwise-different keys; their contracts speak of the
//! finite map such a vector denotes. The spec functions and lemmas here are
//! shared by all of them.

use vstd::prelude::*;
use vstd::seq_lib::group_to_multiset_ensures;

verus! {

/// Finite map denoted by a sequence of key/value pairs; a later pair with
/// the same key shadows an earlier one.
pub open spec fn assoc_map<K, V>(s: Seq<(K, V)>) -> Map<K, V>
    decreases s.len(),
{
    if s.len() == 0 {
        Map::empty()
    } else {
        assoc_map(s.drop_last()).insert(s.last().0, s.last().1)
    }
}

/// The keys of the pair sequence are pairwise different.
pub open spec fn distinct_keys<K, V>(s: Seq<(K, V)>) -> bool {
    forall|i: int, j: int| 0 <= i < j < s.len() ==> s[i].0 != s[j].0
}

/// The denoted map contains exactly the keys that occur in the sequence.
pub proof fn lemma_assoc_map_dom<K, V>(s: Seq<(K, V)>)
    ensures
        forall|k: K|
            #[trigger] assoc_map(s).dom().contains(k) <==> exists|i: int|
                0 <= i < s.len() && s[i].0 == k,
    decreases s.len(),
{
    if s.len() != 0 {
        lemma_assoc_map_dom(s.drop_last());
        assert forall|k: K| #[trigger] assoc_map(s).dom().contains(k) implies exists|i: int|
            0 <= i < s.len() && s[i].0 == k by {
            if k == s.last().0 {
                assert(s[s.len() - 1].0 == k);
            } else {
                assert(assoc_map(s.drop_last()).dom().contains(k));
                let i = choose|i: int| 0 <= i < s.drop_last().len() && s.drop_last()[i].0 == k;
                assert(s[i].0 == k);
            }
        };
        assert forall|k: K| (exists|i: int| 0 <= i < s.len() && s[i].0 == k) implies #[trigger]
            assoc_map(s).dom().contains(k) by {
            let i = choose|i: int| 0 <= i < s.len() && s[i].0 == k;
            if i < s.len() - 1 {
                assert(s.drop_last()[i].0 == k);
                assert(assoc_map(s.drop_last()).dom().contains(k));
            }
        };
    }
}

/// With pairwise-different keys, the denoted map sends each key that occurs
/// to the value paired with it.
pub proof fn lemma_assoc_map_index<K, V>(s: Seq<(K, V)>, i: int)
    requires
        distinct_keys(s),
        0 <= i < s.len(),
    ensures
        assoc_map(s).dom().contains(s[i].0),
        assoc_map(s)[s[i].0] == s[i].1,
    decreases s.len(),
{
    if i < s.len() - 1 {
        assert(s.drop_last()[i] == s[i]);
        lemma_assoc_map_index(s.drop_last(), i);
        assert(s[i].0 != s.last().0);
    }
}

/// Appending a pair denotes inserting it into the map.
pub proof fn lemma_assoc_map_push<K, V>(s: Seq<(K, V)>, k: K, v: V)
    ensures
        assoc_map(s.push((k, v))) == assoc_map(s).insert(k, v),
{
    assert(s.push((k, v)).drop_last() =~= s);
}

/// Replacing the value at one position denotes inserting the new value for
/// that position's key, provided the keys are pairwise different.
pub proof fn lemma_assoc_map_update<K, V>(s: Seq<(K, V)>, i: int, v: V)
    requires
        distinct_keys(s),
        0 <= i < s.len(),
    ensures
        assoc_map(s.update(i, (s[i].0, v))) == assoc_map(s).insert(s[i].0, v),
    decreases s.len(),
{
    let t = s.update(i, (s[i].0, v));
    if i == s.len() - 1 {
        assert(t.drop_last() =~= s.drop_last());
        assert(assoc_map(t) =~= assoc_map(s).insert(s[i].0, v));
    } else {
        assert(t.drop_last() =~= s.drop_last().update(i, (s[i].0, v)));
        assert(s.drop_last()[i] == s[i]);
        lemma_assoc_map_update(s.drop_last(), i, v);
        assert(s[i].0 != s.last().0);
        assert(assoc_map(t) =~= assoc_map(s).insert(s[i].0, v));
    }
}

/// An element of a sequence is an element of every sequence with the same
/// multiset of elements.
pub proof fn lemma_contains_transfer<A>(s1: Seq<A>, s2: Seq<A>, x: A)
    requires
        s1.to_multiset() == s2.to_multiset(),
        s1.contains(x),
    ensures
        s2.contains(x),
{
    broadcast use group_to_multiset_ensures;

    assert(s1.to_multiset().count(x) > 0);
    assert(s2.to_multiset().count(x) > 0);
}

/// Two pair sequences that hold the same pairs, the first with
/// pairwise-different keys, denote the same map; and the second then has
/// pairwise-different keys as well.
pub proof fn lemma_assoc_map_permutation<K, V>(s1: Seq<(K, V)>, s2: Seq<(K, V)>)
    requires
        distinct_keys(s1),
        s1.to_multiset() == s2.to_multiset(),
    ensures
        distinct_keys(s2),
        assoc_map(s1) == assoc_map(s2),
{
    broadcast use group_to_multiset_ensures;

    assert(s1.no_duplicates());
    s1.lemma_multiset_has_no_duplicates();
    s2.lemma_multiset_has_no_duplicates_conv();
    assert forall|i: int, j: int| 0 <= i < j < s2.len() implies s2[i].0 != s2[j].0 by {
        if s2[i].0 == s2[j].0 {
            assert(s2.contains(s2[i]));
            assert(s2.contains(s2[j]));
            lemma_contains_transfer(s2, s1, s2[i]);
            lemma_contains_transfer(s2, s1, s2[j]);
            let k = choose|k: int| 0 <= k < s1.len() && s1[k] == s2[i];
            let l = choose|l: int| 0 <= l < s1.len() && s1[l] == s2[j];
            assert(s1[k].0 == s1[l].0);
            assert(k == l);
            assert(false);
        }
    };
    lemma_assoc_map_dom(s1);
    lemma_assoc_map_dom(s2);
    assert forall|k: K| #[trigger] assoc_map(s1).dom().contains(k) implies assoc_map(
        s2,
    ).dom().contains(k) && assoc_map(s2)[k] == assoc_map(s1)[k] by {
        let i = choose|i: int| 0 <= i < s1.len() && s1[i].0 == k;
        assert(s1.contains(s1[i]));
        lemma_contains_transfer(s1, s2, s1[i]);
        let j = choose|j: int| 0 <= j < s2.len() && s2[j] == s1[i];
        lemma_assoc_map_index(s1, i);
        lemma_assoc_map_index(s2, j);
    };
    assert forall|k: K| #[trigger] assoc_map(s2).dom().contains(k) implies assoc_map(
        s1,
    ).dom().contains(k) by {
        let j = choose|j: int| 0 <= j < s2.len() && s2[j].0 == k;
        assert(s2.contains(s2[j]));
        lemma_contains_transfer(s2, s1, s2[j]);
        let i = choose|i: int| 0 <= i < s1.len() && s1[i] == s2[j];
        assert(s1[i].0 == k);
    };
    assert(assoc_map(s1) =~= assoc_map(s2));
}

} // verus!
