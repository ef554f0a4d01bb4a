//! The median of a run of illuminance samples, and the sort it is read from.
use itertools::Itertools;
use vstd::prelude::*;
use vstd::relations::total_ordering;
use vstd::seq_lib::lemma_sorted_unique;

verus! {

/// The order samples are sorted by: the smaller illuminance first.
pub open spec fn sample_leq() -> spec_fn(u32, u32) -> bool {
    |a: u32, b: u32| a <= b
}

/// Whether no sample of `s` is followed by a smaller one.
pub open spec fn ascending(s: Seq<u32>) -> bool {
    forall|i: int, j: int| 0 <= i < j < s.len() ==> s[i] <= s[j]
}

/// The samples of `s` in ascending order.
pub open spec fn sorted_samples(s: Seq<u32>) -> Seq<u32> {
    s.sort_by(sample_leq())
}

/// Position of the median in a sorted run of `len` samples: the middle one, and the
/// lower of the two middle ones where `len` is even.
pub open spec fn median_index(len: nat) -> int {
    (len - 1) / 2
}

/// The median of `s`: the sample that stands in the middle once `s` is sorted.
/// Meaningful for a run that is not empty.
pub open spec fn median(s: Seq<u32>) -> u32
    recommends
        s.len() > 0,
{
    sorted_samples(s)[median_index(s.len())]
}

/// `Itertools::sorted`, collected with `Itertools::collect_vec`: the same samples,
/// each as often as before, in ascending order.
#[verifier::external_body]
pub(crate) fn sorted_copy(samples: &Vec<u32>) -> (sorted: Vec<u32>)
    ensures
        ascending(sorted@),
        sorted@.to_multiset() == samples@.to_multiset(),
{
    samples.iter().copied().sorted().collect_vec()
}

/// The order of the samples is a total one.
pub proof fn lemma_sample_leq_total()
    ensures
        total_ordering(sample_leq()),
{
}

/// Sorting keeps every sample, as often as it occurred, and leaves them ascending.
pub proof fn lemma_sorted_samples(s: Seq<u32>)
    ensures
        ascending(sorted_samples(s)),
        sorted_samples(s).to_multiset() == s.to_multiset(),
        sorted_samples(s).len() == s.len(),
{
    lemma_sample_leq_total();
    s.lemma_sort_by_ensures(sample_leq());
    let t = sorted_samples(s);
    assert forall|i: int, j: int| 0 <= i < j < t.len() implies t[i] <= t[j] by {
        assert(sample_leq()(t[i], t[j]));
    }
    t.to_multiset_ensures();
    s.to_multiset_ensures();
}

/// There is one ascending arrangement of a run of samples only: whatever is
/// ascending and holds the samples of `s` is `sorted_samples(s)`.
pub proof fn lemma_ascending_is_sorted_samples(s: Seq<u32>, t: Seq<u32>)
    requires
        ascending(t),
        t.to_multiset() == s.to_multiset(),
    ensures
        t == sorted_samples(s),
{
    lemma_sample_leq_total();
    s.lemma_sort_by_ensures(sample_leq());
    lemma_sorted_unique(t, sorted_samples(s), sample_leq());
}

/// The median of the samples in `samples`, which must not be empty.
pub fn median_of(samples: &Vec<u32>) -> (m: u32)
    requires
        samples@.len() > 0,
    ensures
        m == median(samples@),
{
    let sorted = sorted_copy(samples);
    proof {
        lemma_ascending_is_sorted_samples(samples@, sorted@);
        lemma_sorted_samples(samples@);
    }
    sorted[(sorted.len() - 1) / 2]
}

/// How many samples of `s` meet `wanted`.
pub open spec fn count(s: Seq<u32>, wanted: spec_fn(u32) -> bool) -> nat
    decreases s.len(),
{
    if s.len() == 0 {
        0
    } else {
        count(s.drop_last(), wanted) + if wanted(s.last()) {
            1nat
        } else {
            0nat
        }
    }
}

/// How many samples of `s` are smaller than `x`.
pub open spec fn count_below(s: Seq<u32>, x: u32) -> nat {
    count(s, |sample: u32| sample < x)
}

/// How many samples of `s` are not greater than `x`.
pub open spec fn count_up_to(s: Seq<u32>, x: u32) -> nat {
    count(s, |sample: u32| sample <= x)
}

/// Whether `x` has the rank of the median among the samples of `s`: so few samples
/// are smaller that the middle place is not theirs, and so many are not greater
/// that it is not beyond them either.
pub open spec fn has_median_rank(s: Seq<u32>, x: u32) -> bool {
    count_below(s, x) <= median_index(s.len()) < count_up_to(s, x)
}

/// Taking one sample out lowers the count by one if that sample was counted, and
/// not at all if it was not.
proof fn lemma_count_remove(s: Seq<u32>, at: int, wanted: spec_fn(u32) -> bool)
    requires
        0 <= at < s.len(),
    ensures
        count(s, wanted) == count(s.remove(at), wanted) + if wanted(s[at]) {
            1nat
        } else {
            0nat
        },
    decreases s.len(),
{
    if at == s.len() - 1 {
        assert(s.remove(at) == s.drop_last());
    } else {
        lemma_count_remove(s.drop_last(), at, wanted);
        assert(s.remove(at).drop_last() == s.drop_last().remove(at));
        assert(s.remove(at).last() == s.last());
    }
}

/// The count does not depend on the order of the samples.
proof fn lemma_count_of_rearranged(s: Seq<u32>, t: Seq<u32>, wanted: spec_fn(u32) -> bool)
    requires
        s.to_multiset() == t.to_multiset(),
    ensures
        count(s, wanted) == count(t, wanted),
    decreases s.len(),
{
    s.to_multiset_ensures();
    t.to_multiset_ensures();
    if s.len() > 0 {
        let x = s.last();
        assert(s.contains(x)) by {
            assert(s[s.len() - 1] == x);
        }
        assert(s.to_multiset().count(x) > 0);
        assert(t.to_multiset().count(x) > 0);
        assert(t.contains(x));
        let at = choose|at: int| 0 <= at < t.len() && t[at] == x;
        assert(s.drop_last() == s.remove(s.len() - 1));
        assert(s.drop_last().to_multiset() == t.remove(at).to_multiset());
        lemma_count_of_rearranged(s.drop_last(), t.remove(at), wanted);
        lemma_count_remove(t, at, wanted);
    }
}

/// Where no sample from place `from` on is counted, the count is at most `from`.
proof fn lemma_count_at_most(s: Seq<u32>, from: int, wanted: spec_fn(u32) -> bool)
    requires
        0 <= from,
        forall|i: int| from <= i < s.len() ==> !wanted(#[trigger] s[i]),
    ensures
        count(s, wanted) <= from,
        count(s, wanted) <= s.len(),
    decreases s.len(),
{
    if s.len() > 0 {
        let rest = s.drop_last();
        assert forall|i: int| from <= i < rest.len() implies !wanted(#[trigger] rest[i]) by {
            assert(rest[i] == s[i]);
        }
        lemma_count_at_most(rest, from, wanted);
        if from <= s.len() - 1 {
            assert(!wanted(s[s.len() - 1]));
        }
    }
}

/// Where every sample before place `until` is counted, the count is at least
/// `until`.
proof fn lemma_count_at_least(s: Seq<u32>, until: int, wanted: spec_fn(u32) -> bool)
    requires
        0 <= until <= s.len(),
        forall|i: int| 0 <= i < until ==> wanted(#[trigger] s[i]),
    ensures
        count(s, wanted) >= until,
    decreases s.len(),
{
    if s.len() > 0 {
        let rest = s.drop_last();
        if until == s.len() {
            assert forall|i: int| 0 <= i < until - 1 implies wanted(#[trigger] rest[i]) by {
                assert(rest[i] == s[i]);
            }
            lemma_count_at_least(rest, until - 1, wanted);
            assert(wanted(s[s.len() - 1]));
        } else {
            assert forall|i: int| 0 <= i < until implies wanted(#[trigger] rest[i]) by {
                assert(rest[i] == s[i]);
            }
            lemma_count_at_least(rest, until, wanted);
        }
    }
}

/// A count grows with what is counted: where `narrow` implies `wide`, `wide` counts
/// no fewer samples.
pub proof fn lemma_count_grows(
    s: Seq<u32>,
    narrow: spec_fn(u32) -> bool,
    wide: spec_fn(u32) -> bool,
)
    requires
        forall|sample: u32| #[trigger] narrow(sample) ==> wide(sample),
    ensures
        count(s, narrow) <= count(s, wide),
    decreases s.len(),
{
    if s.len() > 0 {
        lemma_count_grows(s.drop_last(), narrow, wide);
    }
}

/// The median is one of the samples, and it has the rank of the median: at most
/// `median_index` samples are smaller, and more than `median_index` samples are not
/// greater.
pub proof fn law_median_has_median_rank(s: Seq<u32>)
    requires
        s.len() > 0,
    ensures
        s.contains(median(s)),
        has_median_rank(s, median(s)),
{
    lemma_sorted_samples(s);
    let t = sorted_samples(s);
    let k = median_index(s.len());
    let m = median(s);
    assert(m == t[k]);
    s.to_multiset_ensures();
    t.to_multiset_ensures();
    assert(t.contains(m)) by {
        assert(t[k] == m);
    }
    assert(t.to_multiset().count(m) > 0);
    assert(s.to_multiset().count(m) > 0);
    let below = |sample: u32| sample < m;
    let up_to = |sample: u32| sample <= m;
    assert forall|i: int| k <= i < t.len() implies !below(#[trigger] t[i]) by {
        assert(t[k] <= t[i]);
    }
    lemma_count_at_most(t, k, below);
    assert forall|i: int| 0 <= i < k + 1 implies up_to(#[trigger] t[i]) by {
        assert(t[i] <= t[k]);
    }
    lemma_count_at_least(t, k + 1, up_to);
    lemma_count_of_rearranged(s, t, below);
    lemma_count_of_rearranged(s, t, up_to);
}

/// Only the median has the rank of the median: the rank alone says which sample
/// the median is.
pub proof fn law_median_rank_is_the_medians_alone(s: Seq<u32>, x: u32)
    requires
        s.len() > 0,
    ensures
        has_median_rank(s, x) <==> x == median(s),
{
    law_median_has_median_rank(s);
    let m = median(s);
    if x < m {
        lemma_count_grows(s, |sample: u32| sample <= x, |sample: u32| sample < m);
    }
    if m < x {
        lemma_count_grows(s, |sample: u32| sample <= m, |sample: u32| sample < x);
    }
}

} // verus!
