//! Integer model of download progress. A download of known size is a pair
//! (bytes done, bytes in total); a progress report is a pair (bytes of one
//! chunk, bytes in total). The drawn ratio is done over total, so deltas
//! summing to the total mean the gauge reaches one.

use vstd::prelude::*;

verus! {

/// Accumulated progress of one operation: how much is done, out of how
/// much in all.
#[derive(Debug, Clone, Copy, PartialEq, Eq, Structural)]
pub struct ProgressAmount {
    pub done: u64,
    pub total: u64,
}

/// One progress report: how many bytes one chunk carried, out of how many
/// bytes the whole operation moves.
#[derive(Debug, Clone, Copy, PartialEq, Eq, Structural)]
pub struct ProgressDelta {
    pub bytes: u64,
    pub total: u64,
}

/// The sum of a sequence of byte counts, as an unbounded number.
pub open spec fn sum_u64(s: Seq<u64>) -> nat
    decreases s.len(),
{
    if s.len() == 0 {
        0
    } else {
        (s.first() + sum_u64(s.drop_first())) as nat
    }
}

/// The sum of a sequence of chunk-size sequences.
pub open spec fn sum_nested(cs: Seq<Seq<u64>>) -> nat
    decreases cs.len(),
{
    if cs.len() == 0 {
        0
    } else {
        (sum_u64(cs.first()) + sum_nested(cs.drop_first())) as nat
    }
}

pub proof fn lemma_sum_append(a: Seq<u64>, b: Seq<u64>)
    ensures
        sum_u64(a + b) == sum_u64(a) + sum_u64(b),
    decreases a.len(),
{
    if a.len() == 0 {
        assert(a + b =~= b);
    } else {
        assert((a + b).drop_first() =~= a.drop_first() + b);
        lemma_sum_append(a.drop_first(), b);
    }
}

/// Extending a prefix by one element adds exactly that element.
pub proof fn lemma_sum_take_snoc(s: Seq<u64>, k: int)
    requires
        0 <= k < s.len(),
    ensures
        sum_u64(s.take(k + 1)) == sum_u64(s.take(k)) + s[k],
{
    assert(s.take(k + 1) =~= s.take(k) + seq![s[k]]);
    lemma_sum_append(s.take(k), seq![s[k]]);
    assert(seq![s[k]].drop_first() =~= Seq::<u64>::empty());
    assert(sum_u64(Seq::<u64>::empty()) == 0);
    assert(sum_u64(seq![s[k]]) == s[k]);
}

/// A prefix never sums to more than the whole.
pub proof fn lemma_sum_prefix_bound(s: Seq<u64>, k: int)
    requires
        0 <= k <= s.len(),
    ensures
        sum_u64(s.take(k)) <= sum_u64(s),
{
    assert(s =~= s.take(k) + s.skip(k));
    lemma_sum_append(s.take(k), s.skip(k));
}

/// Removing one element takes exactly its value out of the sum.
pub proof fn lemma_sum_remove(s: Seq<u64>, j: int)
    requires
        0 <= j < s.len(),
    ensures
        sum_u64(s.remove(j)) + s[j] == sum_u64(s),
    decreases s.len(),
{
    if j == 0 {
        assert(s.remove(0) =~= s.drop_first());
    } else {
        assert(s.remove(j).drop_first() =~= s.drop_first().remove(j - 1));
        lemma_sum_remove(s.drop_first(), j - 1);
    }
}

/// The sum of byte counts does not depend on the order they arrive in:
/// any two sequences holding the same counts sum alike.
pub proof fn lemma_sum_permutation(s1: Seq<u64>, s2: Seq<u64>)
    requires
        s1.to_multiset() == s2.to_multiset(),
    ensures
        sum_u64(s1) == sum_u64(s2),
    decreases s1.len(),
{
    broadcast use vstd::seq_lib::group_to_multiset_ensures;

    s1.to_multiset_ensures();
    s2.to_multiset_ensures();
    if s1.len() == 0 {
        assert(s2.to_multiset().len() == 0);
        assert(s2.len() == 0);
    } else {
        let x = s1.last();
        assert(s1.contains(x));
        assert(s1.to_multiset().count(x) > 0);
        assert(s2.to_multiset().count(x) > 0);
        assert(s2.contains(x));
        let j = choose|j: int| 0 <= j < s2.len() && s2[j] == x;
        assert(s1.remove(s1.len() - 1).to_multiset() =~= s1.to_multiset().remove(x));
        assert(s2.remove(j).to_multiset() =~= s2.to_multiset().remove(x));
        lemma_sum_permutation(s1.remove(s1.len() - 1), s2.remove(j));
        lemma_sum_remove(s1, s1.len() - 1);
        lemma_sum_remove(s2, j);
    }
}

/// When every asset's chunks sum to that asset's size, the chunks of all
/// assets together sum to the sum of the sizes.
pub proof fn lemma_chunks_cover_sizes(chunks: Seq<Seq<u64>>, sizes: Seq<u64>)
    requires
        chunks.len() == sizes.len(),
        forall|i: int| 0 <= i < chunks.len() ==> sum_u64(#[trigger] chunks[i]) == sizes[i],
    ensures
        sum_nested(chunks) == sum_u64(sizes),
    decreases chunks.len(),
{
    if chunks.len() > 0 {
        assert(forall|i: int|
            0 <= i < chunks.drop_first().len() ==> sum_u64(#[trigger] chunks.drop_first()[i])
                == sizes.drop_first()[i]) by {
            assert(forall|i: int|
                0 <= i < chunks.drop_first().len() ==> chunks.drop_first()[i] == chunks[i + 1]
                    && sizes.drop_first()[i] == sizes[i + 1]);
        }
        lemma_chunks_cover_sizes(chunks.drop_first(), sizes.drop_first());
        assert(sum_u64(chunks.first()) == sizes[0]);
    }
}

/// A flattened chunk list sums like the nested one.
pub proof fn lemma_sum_flatten(cs: Seq<Seq<u64>>)
    ensures
        sum_u64(cs.flatten()) == sum_nested(cs),
    decreases cs.len(),
{
    if cs.len() == 0 {
        assert(cs.flatten() =~= Seq::<u64>::empty());
    } else {
        lemma_sum_flatten(cs.drop_first());
        lemma_sum_append(cs.first(), cs.drop_first().flatten());
    }
}

} // verus!
