//! Finite maps kept as sequences of key/value pairs, where a later pair for a
//! key overrides an earlier one.
use vstd::prelude::*;

verus! {

/// The map that a sequence of pairs denotes; the last pair for a key wins.
pub open spec fn assoc_view<V>(s: Seq<(Seq<char>, V)>) -> Map<Seq<char>, V>
    decreases s.len(),
{
    if s.len() == 0 {
        Map::empty()
    } else {
        assoc_view(s.drop_last()).insert(s.last().0, s.last().1)
    }
}

/// No key occurs twice in `s`.
pub open spec fn unique_keys<V>(s: Seq<(Seq<char>, V)>) -> bool {
    forall|i: int, j: int|
        0 <= i < s.len() && 0 <= j < s.len() && i != j ==> #[trigger] s[i].0 != #[trigger] s[j].0
}

/// A key is in the map exactly when some pair carries it.
pub proof fn lemma_assoc_contains<V>(s: Seq<(Seq<char>, V)>, k: Seq<char>)
    ensures
        assoc_view(s).contains_key(k) <==> exists|i: int| 0 <= i < s.len() && #[trigger] s[i].0 == k,
    decreases s.len(),
{
    if s.len() > 0 {
        lemma_assoc_contains(s.drop_last(), k);
        if exists|i: int| 0 <= i < s.len() && #[trigger] s[i].0 == k {
            let i = choose|i: int| 0 <= i < s.len() && #[trigger] s[i].0 == k;
            if i < s.len() - 1 {
                assert(s.drop_last()[i].0 == k);
            }
        }
        if exists|i: int| 0 <= i < s.len() - 1 && #[trigger] s.drop_last()[i].0 == k {
            let i = choose|i: int| 0 <= i < s.len() - 1 && #[trigger] s.drop_last()[i].0 == k;
            assert(s[i].0 == k);
        }
    }
}

/// The value of a key is that of its last pair.
pub proof fn lemma_assoc_last<V>(s: Seq<(Seq<char>, V)>, i: int)
    requires
        0 <= i < s.len(),
        forall|j: int| i < j < s.len() ==> #[trigger] s[j].0 != s[i].0,
    ensures
        assoc_view(s).contains_key(s[i].0),
        assoc_view(s)[s[i].0] == s[i].1,
    decreases s.len(),
{
    if i < s.len() - 1 {
        let t = s.drop_last();
        assert forall|j: int| i < j < t.len() implies #[trigger] t[j].0 != t[i].0 by {
            assert(s[j].0 != s[i].0);
        }
        lemma_assoc_last(t, i);
    }
}

/// With unique keys, the value of the key of pair `i` is the value of pair `i`.
pub proof fn lemma_assoc_unique<V>(s: Seq<(Seq<char>, V)>, i: int)
    requires
        0 <= i < s.len(),
        unique_keys(s),
    ensures
        assoc_view(s).contains_key(s[i].0),
        assoc_view(s)[s[i].0] == s[i].1,
{
    lemma_assoc_last(s, i);
}

/// The map of a one-longer prefix adds the pair at its end.
pub proof fn lemma_assoc_prefix<V>(s: Seq<(Seq<char>, V)>, n: int)
    requires
        0 <= n < s.len(),
    ensures
        assoc_view(s.subrange(0, n + 1)) == assoc_view(s.subrange(0, n)).insert(s[n].0, s[n].1),
{
    assert(s.subrange(0, n + 1).drop_last() =~= s.subrange(0, n));
}

} // verus!
