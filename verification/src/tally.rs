//! Count aggregation for the parallel fan-out.
//!
//! Workers hand back per-entry success flags and per-directory counts;
//! the engine reduces them by summation.  The reduction is proved
//! insensitive to the order the workers finish in: two count sequences
//! that are permutations of one another have the same sum.

use vstd::prelude::*;

verus! {

/// The sum of a sequence of counts.
pub open spec fn sum_counts(s: Seq<usize>) -> int
    decreases s.len(),
{
    if s.len() == 0 {
        0
    } else {
        s[0] + sum_counts(s.drop_first())
    }
}

/// The number of `true` flags in a sequence.
pub open spec fn count_true_seq(s: Seq<bool>) -> int
    decreases s.len(),
{
    if s.len() == 0 {
        0
    } else {
        (if s[0] { 1int } else { 0int }) + count_true_seq(s.drop_first())
    }
}

proof fn lemma_sum_push(s: Seq<usize>, x: usize)
    ensures
        sum_counts(s.push(x)) == sum_counts(s) + x,
    decreases s.len(),
{
    if s.len() == 0 {
        assert(s.push(x).drop_first() =~= s);
    } else {
        assert(s.push(x).drop_first() =~= s.drop_first().push(x));
        lemma_sum_push(s.drop_first(), x);
    }
}

proof fn lemma_count_true_push(s: Seq<bool>, x: bool)
    ensures
        count_true_seq(s.push(x)) == count_true_seq(s) + (if x { 1int } else { 0int }),
    decreases s.len(),
{
    if s.len() == 0 {
        assert(s.push(x).drop_first() =~= s);
    } else {
        assert(s.push(x).drop_first() =~= s.drop_first().push(x));
        lemma_count_true_push(s.drop_first(), x);
    }
}

/// Every count is non-negative, so no sum of counts is negative.
pub proof fn lemma_sum_counts_nonneg(s: Seq<usize>)
    ensures
        sum_counts(s) >= 0,
    decreases s.len(),
{
    if s.len() > 0 {
        lemma_sum_counts_nonneg(s.drop_first());
    }
}

proof fn lemma_sum_take_succ(s: Seq<usize>, i: int)
    requires
        0 <= i < s.len(),
    ensures
        sum_counts(s.take(i + 1)) == sum_counts(s.take(i)) + s[i],
{
    assert(s.take(i + 1) =~= s.take(i).push(s[i]));
    lemma_sum_push(s.take(i), s[i]);
}

proof fn lemma_sum_take_bound(s: Seq<usize>, i: int)
    requires
        0 <= i <= s.len(),
    ensures
        sum_counts(s.take(i)) <= sum_counts(s),
    decreases s.len() - i,
{
    if i == s.len() {
        assert(s.take(i) =~= s);
    } else {
        lemma_sum_take_succ(s, i);
        lemma_sum_take_bound(s, i + 1);
    }
}

/// Removing one element takes exactly its value out of the sum.
proof fn lemma_sum_remove(s: Seq<usize>, j: int)
    requires
        0 <= j < s.len(),
    ensures
        sum_counts(s.remove(j)) == sum_counts(s) - s[j],
    decreases s.len(),
{
    if j == 0 {
        assert(s.remove(0) =~= s.drop_first());
    } else {
        assert(s.remove(j).drop_first() =~= s.drop_first().remove(j - 1));
        assert(s.remove(j)[0] == s[0]);
        lemma_sum_remove(s.drop_first(), j - 1);
    }
}

/// Order-independence of the count reduction: any two count sequences with
/// the same multiset of values — in particular, the same counts delivered
/// in any scheduling order by the parallel workers — sum to the same total.
pub proof fn lemma_sum_permutation(s1: Seq<usize>, s2: Seq<usize>)
    requires
        s1.to_multiset() == s2.to_multiset(),
    ensures
        sum_counts(s1) == sum_counts(s2),
    decreases s1.len(),
{
    broadcast use vstd::seq_lib::group_to_multiset_ensures;

    if s1.len() == 0 {
        assert(s1.to_multiset().len() == 0);
        assert(s2.to_multiset().len() == 0);
        assert(s2.len() == 0);
    } else {
        let x = s1[0];
        assert(s1.contains(x));
        assert(s1.to_multiset().count(x) > 0);
        assert(s2.contains(x));
        let j = choose|j: int| 0 <= j < s2.len() && s2[j] == x;
        assert(s1.remove(0).to_multiset() =~= s1.to_multiset().remove(x));
        assert(s2.remove(j).to_multiset() =~= s2.to_multiset().remove(s2[j]));
        assert(s1.remove(0) =~= s1.drop_first());
        lemma_sum_permutation(s1.drop_first(), s2.remove(j));
        lemma_sum_remove(s2, j);
    }
}

/// Sums per-directory counts into a run total.  The bound in the
/// precondition is the machine limit on the total itself; counts of
/// removed entries cannot reach it in practice.
pub fn total_of(counts: &Vec<usize>) -> (t: usize)
    requires
        sum_counts(counts@) <= usize::MAX,
    ensures
        t == sum_counts(counts@),
{
    let n = counts.len();
    let mut acc: usize = 0;
    let mut i: usize = 0;
    proof {
        assert(counts@.take(0) =~= Seq::<usize>::empty());
    }
    while i < n
        invariant
            n == counts@.len(),
            0 <= i <= n,
            sum_counts(counts@) <= usize::MAX,
            acc == sum_counts(counts@.take(i as int)),
        decreases n - i,
    {
        proof {
            lemma_sum_take_succ(counts@, i as int);
            lemma_sum_take_bound(counts@, i as int + 1);
            lemma_sum_counts_nonneg(counts@.take(i as int));
        }
        acc = acc + counts[i];
        i += 1;
    }
    proof {
        assert(counts@.take(n as int) =~= counts@);
    }
    acc
}

/// Counts the `true` flags in a sequence of per-item outcomes — the
/// successful removals of one directory pass, or the processes whose
/// working set was successfully trimmed.
pub fn count_true(flags: &Vec<bool>) -> (c: usize)
    ensures
        c == count_true_seq(flags@),
        c <= flags@.len(),
{
    let n = flags.len();
    let mut acc: usize = 0;
    let mut i: usize = 0;
    proof {
        assert(flags@.take(0) =~= Seq::<bool>::empty());
    }
    while i < n
        invariant
            n == flags@.len(),
            0 <= i <= n,
            acc == count_true_seq(flags@.take(i as int)),
            acc <= i,
        decreases n - i,
    {
        proof {
            assert(flags@.take(i as int + 1) =~= flags@.take(i as int).push(flags@[i as int]));
            lemma_count_true_push(flags@.take(i as int), flags@[i as int]);
        }
        if flags[i] {
            acc = acc + 1;
        }
        i += 1;
    }
    proof {
        assert(flags@.take(n as int) =~= flags@);
    }
    acc
}

} // verus!
