//! Sort keys, sort directions, three-way comparison helpers, and a verified
//! sorting routine shared by the connection, host and service views.

use core::cmp::Ordering;
use vstd::prelude::*;

verus! {

/// Dimension used to order connection records.
#[derive(Clone, Copy, Debug, PartialEq, Eq, Structural, Hash, Default)]
pub enum SortBy {
    #[default]
    Packets,
    Bytes,
    Latency,
}

/// Direction of an ordering. `Neutral` is the default "natural" view: it
/// ignores the requested sort key and orders by recency (connections) or by
/// total volume (aggregates).
#[derive(Clone, Copy, Debug, PartialEq, Eq, Structural, Hash, Default)]
pub enum SortType {
    Ascending,
    Descending,
    #[default]
    Neutral,
}

/// Everything a comparison may be parameterized by. The connection
/// comparator reads `sort_by` and `sort_type`; the aggregate comparators
/// read `sort_type` and `data_repr`.
#[derive(Clone, Copy, Debug, PartialEq, Eq, Structural, Hash, Default)]
pub struct SortParams {
    pub sort_by: SortBy,
    pub sort_type: SortType,
    pub data_repr: crate::types::DataRepr,
}

/// Three-way comparison of two mathematical integers.
pub open spec fn spec_cmp_int(a: int, b: int) -> Ordering {
    if a < b {
        Ordering::Less
    } else if a == b {
        Ordering::Equal
    } else {
        Ordering::Greater
    }
}

/// The mirror image of an ordering, as swapping the two operands of a
/// three-way comparison would produce it.
pub open spec fn reverse_ordering(o: Ordering) -> Ordering {
    match o {
        Ordering::Less => Ordering::Greater,
        Ordering::Equal => Ordering::Equal,
        Ordering::Greater => Ordering::Less,
    }
}

/// Three-way comparison of two unsigned 128-bit counters.
pub fn cmp_u128(a: u128, b: u128) -> (o: Ordering)
    ensures
        o == spec_cmp_int(a as int, b as int),
{
    if a < b {
        Ordering::Less
    } else if a == b {
        Ordering::Equal
    } else {
        Ordering::Greater
    }
}

/// Three-way comparison of optional values: an absent value sorts below any
/// present one, present values compare by their contents.
pub open spec fn spec_cmp_opt_i64(a: Option<i64>, b: Option<i64>) -> Ordering {
    match (a, b) {
        (Option::None, Option::None) => Ordering::Equal,
        (Option::None, Option::Some(_)) => Ordering::Less,
        (Option::Some(_), Option::None) => Ordering::Greater,
        (Option::Some(x), Option::Some(y)) => spec_cmp_int(x as int, y as int),
    }
}

/// Executable counterpart of [`spec_cmp_opt_i64`].
pub fn cmp_opt_i64(a: &Option<i64>, b: &Option<i64>) -> (o: Ordering)
    ensures
        o == spec_cmp_opt_i64(*a, *b),
{
    match (a, b) {
        (Option::None, Option::None) => Ordering::Equal,
        (Option::None, Option::Some(_)) => Ordering::Less,
        (Option::Some(_), Option::None) => Ordering::Greater,
        (Option::Some(x), Option::Some(y)) => {
            if *x < *y {
                Ordering::Less
            } else if *x == *y {
                Ordering::Equal
            } else {
                Ordering::Greater
            }
        },
    }
}

/// Three-way comparison of the sums `a1 + a2` and `b1 + b2`, computed
/// without ever forming a sum that could exceed the 128-bit range.
pub fn cmp_sums(a1: u128, a2: u128, b1: u128, b2: u128) -> (o: Ordering)
    ensures
        o == spec_cmp_int(a1 + a2, b1 + b2),
{
    if a1 >= b1 {
        let d = a1 - b1;
        if a2 >= b2 {
            if d == 0 && a2 == b2 {
                Ordering::Equal
            } else {
                Ordering::Greater
            }
        } else {
            let e = b2 - a2;
            if d < e {
                Ordering::Less
            } else if d == e {
                Ordering::Equal
            } else {
                Ordering::Greater
            }
        }
    } else {
        let d = b1 - a1;
        if b2 >= a2 {
            Ordering::Less
        } else {
            let e = a2 - b2;
            if e < d {
                Ordering::Less
            } else if e == d {
                Ordering::Equal
            } else {
                Ordering::Greater
            }
        }
    }
}

/// An entry of one of the three report views, sortable under [`SortParams`].
///
/// Every implementation must supply a comparator that is a total preorder:
/// antisymmetric as a three-way comparison and transitive in its
/// not-`Greater` relation. Those two laws are what make the sorted views
/// well defined, and each implementation proves them.
pub trait ReportSortable: Sized {
    /// Three-way comparison under the given sort parameters.
    spec fn cmp_spec(self, other: Self, p: SortParams) -> Ordering;

    /// Executable comparison, agreeing exactly with [`Self::cmp_spec`].
    fn cmp_entry(&self, other: &Self, p: SortParams) -> (o: Ordering)
        ensures
            o == self.cmp_spec(*other, p),
    ;

    /// An owned duplicate of the entry, equal to the original: the sorted
    /// views return copies, never aliases of the live tables.
    fn dup(&self) -> (r: Self)
        ensures
            r == *self,
    ;

    /// Comparing `b` with `a` mirrors comparing `a` with `b`.
    proof fn lemma_cmp_antisymmetric(a: Self, b: Self, p: SortParams)
        ensures
            a.cmp_spec(b, p) == reverse_ordering(b.cmp_spec(a, p)),
    ;

    /// The not-`Greater` relation induced by the comparator is transitive.
    proof fn lemma_cmp_le_transitive(a: Self, b: Self, c: Self, p: SortParams)
        requires
            a.cmp_spec(b, p) != Ordering::Greater,
            b.cmp_spec(c, p) != Ordering::Greater,
        ensures
            a.cmp_spec(c, p) != Ordering::Greater,
    ;
}

/// Insertion of `x` into `s` before the first element that compares
/// `Greater` than `x`; on a sorted sequence this is a stable sorted insert.
pub open spec fn spec_insert_sorted<T: ReportSortable>(s: Seq<T>, x: T, p: SortParams) -> Seq<T>
    decreases s.len(),
{
    if s.len() == 0 {
        seq![x]
    } else if s[0].cmp_spec(x, p) == Ordering::Greater {
        seq![x] + s
    } else {
        seq![s[0]] + spec_insert_sorted(s.drop_first(), x, p)
    }
}

/// Stable insertion sort of `s` under the comparator of `T`: the exact
/// sequence every sorted view of this crate returns.
pub open spec fn spec_sort_by<T: ReportSortable>(s: Seq<T>, p: SortParams) -> Seq<T>
    decreases s.len(),
{
    if s.len() == 0 {
        Seq::<T>::empty()
    } else {
        spec_insert_sorted(spec_sort_by(s.drop_last(), p), s.last(), p)
    }
}

/// `s` is sorted: no element compares `Greater` than a later one.
pub open spec fn spec_sorted_by<T: ReportSortable>(s: Seq<T>, p: SortParams) -> bool {
    forall|i: int, j: int|
        0 <= i < j < s.len() ==> (#[trigger] s[i].cmp_spec(s[j], p)) != Ordering::Greater
}

/// Inserting an element grows the multiset of the sequence by exactly that
/// element, and the length by one.
pub proof fn lemma_insert_sorted_multiset<T: ReportSortable>(s: Seq<T>, x: T, p: SortParams)
    ensures
        spec_insert_sorted(s, x, p).to_multiset() == s.to_multiset().insert(x),
        spec_insert_sorted(s, x, p).len() == s.len() + 1,
    decreases s.len(),
{
    broadcast use vstd::seq_lib::group_to_multiset_ensures;
    broadcast use vstd::seq_lib::lemma_multiset_commutative;
    broadcast use vstd::multiset::group_multiset_axioms;

    if s.len() == 0 {
        assert(seq![x] =~= Seq::<T>::empty().push(x));
        assert(spec_insert_sorted(s, x, p).to_multiset() =~= s.to_multiset().insert(x));
    } else if s[0].cmp_spec(x, p) == Ordering::Greater {
        assert(seq![x].to_multiset() =~= Seq::<T>::empty().to_multiset().insert(x)) by {
            assert(seq![x] =~= Seq::<T>::empty().push(x));
        }
        assert((seq![x] + s).to_multiset() =~= s.to_multiset().insert(x));
    } else {
        let rest = spec_insert_sorted(s.drop_first(), x, p);
        lemma_insert_sorted_multiset(s.drop_first(), x, p);
        assert(seq![s[0]].to_multiset() =~= Seq::<T>::empty().to_multiset().insert(s[0])) by {
            assert(seq![s[0]] =~= Seq::<T>::empty().push(s[0]));
        }
        assert(s =~= seq![s[0]] + s.drop_first());
        assert((seq![s[0]] + rest).to_multiset() =~= s.to_multiset().insert(x));
    }
}

/// Sorted insertion keeps a sorted sequence sorted.
pub proof fn lemma_insert_sorted_preserves_sorted<T: ReportSortable>(
    s: Seq<T>,
    x: T,
    p: SortParams,
)
    requires
        spec_sorted_by(s, p),
    ensures
        spec_sorted_by(spec_insert_sorted(s, x, p), p),
    decreases s.len(),
{
    broadcast use vstd::seq_lib::group_to_multiset_ensures;
    broadcast use vstd::multiset::group_multiset_axioms;

    if s.len() == 0 {
    } else if s[0].cmp_spec(x, p) == Ordering::Greater {
        let r = seq![x] + s;
        T::lemma_cmp_antisymmetric(s[0], x, p);
        assert forall|i: int, j: int| 0 <= i < j < r.len() implies (#[trigger] r[i].cmp_spec(
            r[j],
            p,
        )) != Ordering::Greater by {
            if i == 0 && j > 1 {
                T::lemma_cmp_le_transitive(x, s[0], s[j - 1], p);
            }
        }
    } else {
        let rest = spec_insert_sorted(s.drop_first(), x, p);
        let r = seq![s[0]] + rest;
        lemma_insert_sorted_preserves_sorted(s.drop_first(), x, p);
        lemma_insert_sorted_multiset(s.drop_first(), x, p);
        assert forall|j: int| 0 <= j < rest.len() implies s[0].cmp_spec(rest[j], p)
            != Ordering::Greater by {
            assert(rest.contains(rest[j]));
            assert(rest.to_multiset().count(rest[j]) > 0);
            if rest[j] == x {
            } else {
                assert(s.drop_first().to_multiset().count(rest[j]) > 0);
                assert(s.drop_first().contains(rest[j]));
                let k = choose|k: int|
                    0 <= k < s.drop_first().len() && s.drop_first()[k] == rest[j];
                assert(s[0].cmp_spec(s[k + 1], p) != Ordering::Greater);
            }
        }
        assert(spec_sorted_by(r, p));
    }
}

/// The stable sort is a permutation: it returns a sequence with exactly the
/// elements of its input, as a multiset and in count.
pub proof fn lemma_sort_by_multiset<T: ReportSortable>(s: Seq<T>, p: SortParams)
    ensures
        spec_sort_by(s, p).to_multiset() == s.to_multiset(),
        spec_sort_by(s, p).len() == s.len(),
    decreases s.len(),
{
    broadcast use vstd::seq_lib::group_to_multiset_ensures;

    if s.len() == 0 {
    } else {
        lemma_sort_by_multiset(s.drop_last(), p);
        lemma_insert_sorted_multiset(spec_sort_by(s.drop_last(), p), s.last(), p);
        assert(s =~= s.drop_last().push(s.last()));
    }
}

/// The stable sort returns a sorted sequence.
pub proof fn lemma_sort_by_sorted<T: ReportSortable>(s: Seq<T>, p: SortParams)
    ensures
        spec_sorted_by(spec_sort_by(s, p), p),
    decreases s.len(),
{
    if s.len() == 0 {
    } else {
        lemma_sort_by_sorted(s.drop_last(), p);
        lemma_insert_sorted_preserves_sorted(spec_sort_by(s.drop_last(), p), s.last(), p);
    }
}

/// An element occurs in the sorted sequence exactly when it occurs in the
/// input.
pub proof fn lemma_sort_by_contains<T: ReportSortable>(s: Seq<T>, p: SortParams, x: T)
    ensures
        spec_sort_by(s, p).contains(x) <==> s.contains(x),
{
    broadcast use vstd::seq_lib::group_to_multiset_ensures;

    lemma_sort_by_multiset(s, p);
    assert(spec_sort_by(s, p).contains(x) <==> spec_sort_by(s, p).to_multiset().count(x) > 0);
    assert(s.contains(x) <==> s.to_multiset().count(x) > 0);
}

/// When every element before position `j` is not `Greater` than `x` and the
/// element at `j` (if any) is, sorted insertion is exactly insertion at `j`.
pub proof fn lemma_insert_sorted_splice<T: ReportSortable>(s: Seq<T>, x: T, j: int, p: SortParams)
    requires
        0 <= j <= s.len(),
        forall|k: int| 0 <= k < j ==> (#[trigger] s[k].cmp_spec(x, p)) != Ordering::Greater,
        j < s.len() ==> s[j].cmp_spec(x, p) == Ordering::Greater,
    ensures
        spec_insert_sorted(s, x, p) == s.insert(j, x),
    decreases j,
{
    if s.len() == 0 {
        assert(seq![x] =~= s.insert(0, x));
    } else if j == 0 {
        assert(seq![x] + s =~= s.insert(0, x));
    } else {
        assert(s[0].cmp_spec(x, p) != Ordering::Greater);
        lemma_insert_sorted_splice(s.drop_first(), x, j - 1, p);
        assert(seq![s[0]] + s.drop_first().insert(j - 1, x) =~= s.insert(j, x));
    }
}

/// True exactly when the comparison came out `Greater`.
fn is_greater(o: Ordering) -> (b: bool)
    ensures
        b == (o == Ordering::Greater),
{
    match o {
        Ordering::Greater => true,
        _ => false,
    }
}

/// Stable insertion sort of a vector of view entries; returns a fresh vector
/// holding exactly [`spec_sort_by`] of the input.
pub fn sort_entries<T: ReportSortable>(v: &Vec<T>, p: SortParams) -> (r: Vec<T>)
    ensures
        r@ == spec_sort_by(v@, p),
        r@.len() == v@.len(),
        spec_sorted_by(r@, p),
        r@.to_multiset() == v@.to_multiset(),
{
    let mut out: Vec<T> = Vec::new();
    let mut i: usize = 0;
    proof {
        assert(v@.subrange(0, 0) =~= Seq::<T>::empty());
    }
    while i < v.len()
        invariant
            i <= v@.len(),
            out@ == spec_sort_by(v@.subrange(0, i as int), p),
            out@.len() == i,
        decreases v@.len() - i,
    {
        proof {
            lemma_sort_by_multiset(v@.subrange(0, i as int), p);
        }
        let x: T = v[i].dup();
        let mut j: usize = 0;
        while j < out.len() && !is_greater(out[j].cmp_entry(&x, p))
            invariant
                j <= out@.len(),
                forall|k: int| 0 <= k < j ==> (#[trigger] out@[k].cmp_spec(x, p))
                    != Ordering::Greater,
            decreases out@.len() - j,
        {
            j = j + 1;
        }
        proof {
            lemma_insert_sorted_splice(out@, x, j as int, p);
            assert(v@.subrange(0, i + 1).drop_last() =~= v@.subrange(0, i as int));
            assert(v@.subrange(0, i + 1).last() == v@[i as int]);
        }
        out.insert(j, x);
        i = i + 1;
    }
    proof {
        assert(v@.subrange(0, v@.len() as int) =~= v@);
        lemma_sort_by_sorted(v@, p);
        lemma_sort_by_multiset(v@, p);
    }
    out
}

} // verus!
