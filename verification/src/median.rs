//! The median of a list of submissions.

use vstd::prelude::*;
use vstd::relations::{sorted_by, total_ordering};
use vstd::seq_lib::{lemma_sorted_unique, to_multiset_update};

verus! {

/// The median of an empty list was asked for.
#[derive(Debug, Clone, PartialEq)]
pub struct EmptyArrayError;

/// A number that oracles can submit: an unsigned integer of some width.
pub trait Sample: Copy {
    /// The number as a mathematical integer.
    spec fn rank(self) -> int;

    /// Two samples that are the same number are the same sample.
    proof fn rank_is_faithful(a: Self, b: Self)
        requires
            a.rank() == b.rank(),
        ensures
            a == b,
    ;

    /// Whether this number is at most the other.
    fn at_most(self, other: Self) -> (yes: bool)
        ensures
            yes == (self.rank() <= other.rank()),
    ;

    /// The floor of the mean of this number and one that is not smaller.
    fn midpoint(self, other: Self) -> (mean: Self)
        requires
            self.rank() <= other.rank(),
        ensures
            mean.rank() == (self.rank() + other.rank()) / 2,
    ;
}

impl Sample for u8 {
    open spec fn rank(self) -> int {
        self as int
    }

    proof fn rank_is_faithful(a: Self, b: Self) {
    }

    fn at_most(self, other: Self) -> (yes: bool) {
        self <= other
    }

    fn midpoint(self, other: Self) -> (mean: Self) {
        self + (other - self) / 2
    }
}

impl Sample for u16 {
    open spec fn rank(self) -> int {
        self as int
    }

    proof fn rank_is_faithful(a: Self, b: Self) {
    }

    fn at_most(self, other: Self) -> (yes: bool) {
        self <= other
    }

    fn midpoint(self, other: Self) -> (mean: Self) {
        self + (other - self) / 2
    }
}

impl Sample for u32 {
    open spec fn rank(self) -> int {
        self as int
    }

    proof fn rank_is_faithful(a: Self, b: Self) {
    }

    fn at_most(self, other: Self) -> (yes: bool) {
        self <= other
    }

    fn midpoint(self, other: Self) -> (mean: Self) {
        self + (other - self) / 2
    }
}

impl Sample for u64 {
    open spec fn rank(self) -> int {
        self as int
    }

    proof fn rank_is_faithful(a: Self, b: Self) {
    }

    fn at_most(self, other: Self) -> (yes: bool) {
        self <= other
    }

    fn midpoint(self, other: Self) -> (mean: Self) {
        self + (other - self) / 2
    }
}

impl Sample for u128 {
    open spec fn rank(self) -> int {
        self as int
    }

    proof fn rank_is_faithful(a: Self, b: Self) {
    }

    fn at_most(self, other: Self) -> (yes: bool) {
        self <= other
    }

    fn midpoint(self, other: Self) -> (mean: Self) {
        self + (other - self) / 2
    }
}

impl Sample for usize {
    open spec fn rank(self) -> int {
        self as int
    }

    proof fn rank_is_faithful(a: Self, b: Self) {
    }

    fn at_most(self, other: Self) -> (yes: bool) {
        self <= other
    }

    fn midpoint(self, other: Self) -> (mean: Self) {
        self + (other - self) / 2
    }
}

/// The order in which submissions are ranked.
pub open spec fn ascending<T: Sample>() -> spec_fn(T, T) -> bool {
    |a: T, b: T| a.rank() <= b.rank()
}

/// The submissions in ascending order.
pub open spec fn ranked<T: Sample>(entries: Seq<T>) -> Seq<T> {
    entries.sort_by(ascending::<T>())
}

/// The median of a list that is already in ascending order: the middle
/// element of an odd number of entries, the floor of the mean of the two
/// middle elements of an even number.
pub open spec fn middle_of<T: Sample>(sorted: Seq<T>) -> int
    recommends
        sorted.len() > 0,
{
    let mid = sorted.len() as int / 2;
    if sorted.len() % 2 == 0 {
        (sorted[mid - 1].rank() + sorted[mid].rank()) / 2
    } else {
        sorted[mid].rank()
    }
}

/// The median of a non-empty list of submissions.
pub open spec fn median_of<T: Sample>(entries: Seq<T>) -> int
    recommends
        entries.len() > 0,
{
    middle_of(ranked(entries))
}

/// The order of the numbers is a total order of the samples.
pub proof fn ascending_is_total<T: Sample>()
    ensures
        total_ordering(ascending::<T>()),
{
    let leq = ascending::<T>();
    assert forall|a: T, b: T| #[trigger] leq(a, b) && #[trigger] leq(b, a) implies a == b by {
        T::rank_is_faithful(a, b);
    }
}

/// Ranking keeps every entry, as often as it occurs, and puts the entries in
/// ascending order.
pub proof fn ranked_is_sorted_permutation<T: Sample>(entries: Seq<T>)
    ensures
        ranked(entries).to_multiset() == entries.to_multiset(),
        ranked(entries).len() == entries.len(),
        forall|i: int, j: int|
            0 <= i < j < ranked(entries).len() ==> ranked(entries)[i].rank() <= ranked(
                entries,
            )[j].rank(),
{
    broadcast use vstd::seq_lib::group_to_multiset_ensures;

    ascending_is_total::<T>();
    entries.lemma_sort_by_ensures(ascending::<T>());
    let r = ranked(entries);
    assert(r.to_multiset() =~= entries.to_multiset());
    assert(r.to_multiset().len() == entries.to_multiset().len());
    assert forall|i: int, j: int| 0 <= i < j < r.len() implies r[i].rank() <= r[j].rank() by {
        assert(ascending::<T>()(r[i], r[j]));
    }
}

/// A list that is in ascending order and holds the same entries as another,
/// each as often, is the ranking of that other list.
pub proof fn sorted_permutation_is_ranked<T: Sample>(sorted: Seq<T>, entries: Seq<T>)
    requires
        sorted.to_multiset() == entries.to_multiset(),
        forall|i: int, j: int| 0 <= i < j < sorted.len() ==> sorted[i].rank() <= sorted[j].rank(),
    ensures
        sorted == ranked(entries),
{
    ascending_is_total::<T>();
    entries.lemma_sort_by_ensures(ascending::<T>());
    assert(sorted_by(sorted, ascending::<T>()));
    lemma_sorted_unique(sorted, ranked(entries), ascending::<T>());
}

/// The median does not depend on the order of the submissions: two lists
/// that hold the same values, each as often, have the same ranking and the
/// same median.
pub proof fn median_ignores_order<T: Sample>(a: Seq<T>, b: Seq<T>)
    requires
        a.to_multiset() == b.to_multiset(),
    ensures
        ranked(a) == ranked(b),
        median_of(a) == median_of(b),
{
    ranked_is_sorted_permutation(a);
    sorted_permutation_is_ranked(ranked(a), b);
}

/// The median is the entry at the middle position of the ranking where the
/// number of entries is odd, and the floor of the mean of the two entries at
/// the middle positions where it is even; it lies between the smallest and
/// the largest submission.
pub proof fn median_is_middle_rank<T: Sample>(entries: Seq<T>)
    requires
        entries.len() > 0,
    ensures
        entries.len() % 2 == 1 ==> median_of(entries) == ranked(entries)[entries.len() as int
            / 2].rank(),
        entries.len() % 2 == 0 ==> median_of(entries) == (ranked(entries)[entries.len() as int / 2
            - 1].rank() + ranked(entries)[entries.len() as int / 2].rank()) / 2,
        ranked(entries)[0].rank() <= median_of(entries) <= ranked(entries)[entries.len()
            - 1].rank(),
{
    ranked_is_sorted_permutation(entries);
}

/// Exchanging two entries of a list keeps every entry, as often as it occurs.
proof fn swap_keeps_entries<T>(s: Seq<T>, i: int, j: int)
    requires
        0 <= i < j < s.len(),
    ensures
        s.update(i, s[j]).update(j, s[i]).to_multiset() == s.to_multiset(),
{
    broadcast use vstd::multiset::group_multiset_axioms;
    broadcast use vstd::seq_lib::group_to_multiset_ensures;

    let mid = s.update(i, s[j]);
    let end = mid.update(j, s[i]);
    to_multiset_update(s, i, s[j]);
    to_multiset_update(mid, j, s[i]);
    assert(s.contains(s[i]));
    assert(s.contains(s[j]));
    assert(mid[j] == s[j]);
    assert forall|v: T| end.to_multiset().count(v) == s.to_multiset().count(v) by {
    }
    assert(end.to_multiset() =~= s.to_multiset());
}

/// Puts `entries` in ascending order, keeping every entry.
fn sort_ascending<T: Sample>(entries: &mut [T])
    ensures
        final(entries)@ == ranked(old(entries)@),
{
    let ghost before = entries@;
    let n = entries.len();
    let mut i: usize = 1;
    while i < n
        invariant
            n == entries@.len(),
            1 <= i,
            entries@.to_multiset() == before.to_multiset(),
            forall|a: int, b: int|
                0 <= a < b < i && b < n ==> entries@[a].rank() <= entries@[b].rank(),
        decreases n - i,
    {
        let mut j: usize = i;
        while j > 0 && !entries[j - 1].at_most(entries[j])
            invariant
                n == entries@.len(),
                0 <= j <= i < n,
                entries@.to_multiset() == before.to_multiset(),
                forall|a: int, b: int|
                    0 <= a < b <= i && a != j && b != j ==> entries@[a].rank()
                        <= entries@[b].rank(),
                forall|b: int| j < b <= i ==> entries@[j as int].rank() <= entries@[b].rank(),
            decreases j,
        {
            let ghost step = entries@;
            let low = entries[j - 1];
            let high = entries[j];
            entries[j - 1] = high;
            entries[j] = low;
            proof {
                swap_keeps_entries(step, j - 1, j as int);
                assert(entries@ == step.update(j - 1, high).update(j as int, low));
            }
            j -= 1;
        }
        i += 1;
    }
    proof {
        sorted_permutation_is_ranked(entries@, before);
    }
}

/// Sorts `entries` in place and returns their median: the middle element of
/// an odd number of entries, the floor of the mean of the two middle elements
/// of an even number. Fails on an empty list, and only there.
pub fn calculate_median<T: Sample>(entries: &mut [T]) -> (res: Result<T, EmptyArrayError>)
    ensures
        final(entries)@ == ranked(old(entries)@),
        old(entries)@.len() == 0 <==> res is Err,
        old(entries)@.len() > 0 ==> (res matches Ok(median) && median.rank() == median_of(
            old(entries)@,
        )),
{
    if entries.len() == 0 {
        proof {
            ranked_is_sorted_permutation(entries@);
            assert(ranked(entries@) =~= entries@);
        }
        return Err(EmptyArrayError);
    }
    proof {
        ranked_is_sorted_permutation(entries@);
    }
    sort_ascending(entries);
    let mid = entries.len() / 2;
    let median = if entries.len() % 2 == 0 {
        entries[mid - 1].midpoint(entries[mid])
    } else {
        entries[mid]
    };
    Ok(median)
}

} // verus!
