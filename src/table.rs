//! Facts about keyed rows and column sums, shared by the datastore's tables.

use vstd::prelude::*;

verus! {

/// The index of the last row of `s` that satisfies `p`, or -1.
pub open spec fn index_where<T>(s: Seq<T>, p: spec_fn(T) -> bool) -> int
    decreases s.len(),
{
    if s.len() == 0 {
        -1
    } else if p(s.last()) {
        s.len() - 1
    } else {
        index_where(s.drop_last(), p)
    }
}

/// `s` with the row that satisfies `p` replaced by `r`, or with `r` added at
/// the end when no row does.
pub open spec fn upsert<T>(s: Seq<T>, p: spec_fn(T) -> bool, r: T) -> Seq<T> {
    let i = index_where(s, p);
    if i >= 0 {
        s.update(i, r)
    } else {
        s.push(r)
    }
}

/// The row of `s` that satisfies `p`, if any.
pub open spec fn find_where<T>(s: Seq<T>, p: spec_fn(T) -> bool) -> Option<T> {
    let i = index_where(s, p);
    if i >= 0 {
        Some(s[i])
    } else {
        None
    }
}

/// The sum of `f` over the rows of `s`.
pub open spec fn sum_of<T>(s: Seq<T>, f: spec_fn(T) -> int) -> int
    decreases s.len(),
{
    if s.len() == 0 {
        0
    } else {
        sum_of(s.drop_last(), f) + f(s.last())
    }
}

/// The rows of `s` that satisfy `p`, in order.
pub open spec fn rows_where<T>(s: Seq<T>, p: spec_fn(T) -> bool) -> Seq<T>
    decreases s.len(),
{
    if s.len() == 0 {
        s
    } else if p(s.last()) {
        rows_where(s.drop_last(), p).push(s.last())
    } else {
        rows_where(s.drop_last(), p)
    }
}

/// The index found is in range and its row matches; no later row matches.
pub proof fn lemma_index_where_bounds<T>(s: Seq<T>, p: spec_fn(T) -> bool)
    ensures
        -1 <= index_where(s, p) < s.len(),
        index_where(s, p) >= 0 ==> p(s[index_where(s, p)]),
        index_where(s, p) == -1 ==> forall|j: int| 0 <= j < s.len() ==> !p(#[trigger] s[j]),
        forall|j: int| index_where(s, p) < j < s.len() ==> !p(#[trigger] s[j]),
    decreases s.len(),
{
    if s.len() > 0 {
        lemma_index_where_bounds(s.drop_last(), p);
        assert forall|j: int| 0 <= j < s.len() - 1 implies s.drop_last()[j] == #[trigger] s[j] by {}
    }
}

/// The last row that satisfies `p` is at `i` when no row after `i` does.
pub proof fn lemma_index_where_at<T>(s: Seq<T>, p: spec_fn(T) -> bool, i: int)
    requires
        -1 <= i < s.len(),
        i >= 0 ==> p(s[i]),
        forall|j: int| i < j < s.len() ==> !p(#[trigger] s[j]),
    ensures
        index_where(s, p) == i,
    decreases s.len(),
{
    if s.len() > 0 && i < s.len() - 1 {
        let t = s.drop_last();
        assert(!p(s[s.len() - 1]));
        assert forall|j: int| i < j < t.len() implies !p(#[trigger] t[j]) by {
            assert(t[j] == s[j]);
        }
        lemma_index_where_at(t, p, i);
    }
}

/// Sums over longer prefixes are no smaller, when `f` is never negative.
pub proof fn lemma_sum_of_prefix<T>(s: Seq<T>, f: spec_fn(T) -> int, i: int, j: int)
    requires
        0 <= i <= j <= s.len(),
        forall|x: T| #[trigger] f(x) >= 0,
    ensures
        sum_of(s.subrange(0, i), f) <= sum_of(s.subrange(0, j), f),
    decreases j - i,
{
    if i < j {
        lemma_sum_of_prefix(s, f, i, j - 1);
        assert(s.subrange(0, j).drop_last() =~= s.subrange(0, j - 1));
    }
}

/// The last `k` rows of `s` (fewer when `s` is shorter), newest first.
pub open spec fn newest_first<T>(s: Seq<T>, k: nat) -> Seq<T> {
    let n = if s.len() < k { s.len() } else { k };
    Seq::new(n, |j: int| s[s.len() - 1 - j])
}

} // verus!
