//! The subsequence of a sequence that a list of flags keeps.
use vstd::prelude::*;

verus! {

/// The elements of `s` from position `i` on whose flag in `keep` is set, in
/// their order.
pub open spec fn kept_from<T>(s: Seq<T>, keep: Seq<bool>, i: int) -> Seq<T>
    decreases s.len() - i,
{
    if i < 0 || i >= s.len() {
        Seq::empty()
    } else if i < keep.len() && keep[i] {
        seq![s[i]] + kept_from(s, keep, i + 1)
    } else {
        kept_from(s, keep, i + 1)
    }
}

/// The elements of `s` whose flag in `keep` is set, in their order.
pub open spec fn kept<T>(s: Seq<T>, keep: Seq<bool>) -> Seq<T> {
    kept_from(s, keep, 0)
}

/// The position in the whole sequence of the `j`-th element that is kept
/// from position `i` on; `-1` where fewer are kept.
pub open spec fn kept_index(keep: Seq<bool>, i: int, j: int) -> int
    decreases keep.len() - i,
{
    if i < 0 || i >= keep.len() {
        -1
    } else if keep[i] {
        if j == 0 {
            i
        } else {
            kept_index(keep, i + 1, j - 1)
        }
    } else {
        kept_index(keep, i + 1, j)
    }
}

/// How many elements are kept depends on the flags alone.
pub proof fn lemma_kept_len<A, B>(a: Seq<A>, b: Seq<B>, keep: Seq<bool>, i: int)
    requires
        a.len() == b.len(),
        0 <= i <= a.len(),
    ensures
        kept_from(a, keep, i).len() == kept_from(b, keep, i).len(),
        kept_from(a, keep, i).len() <= a.len() - i,
    decreases a.len() - i,
{
    if i < a.len() {
        lemma_kept_len(a, b, keep, i + 1);
    }
}

/// The `j`-th kept element is the element at `kept_index`, whose flag is set.
pub proof fn lemma_kept_index<T>(s: Seq<T>, keep: Seq<bool>, i: int, j: int)
    requires
        keep.len() == s.len(),
        0 <= i <= s.len(),
        0 <= j < kept_from(s, keep, i).len(),
    ensures
        i <= kept_index(keep, i, j) < s.len(),
        keep[kept_index(keep, i, j)],
        kept_from(s, keep, i)[j] == s[kept_index(keep, i, j)],
    decreases s.len() - i,
{
    if i < s.len() {
        if keep[i] {
            if j > 0 {
                lemma_kept_index(s, keep, i + 1, j - 1);
            }
        } else {
            lemma_kept_index(s, keep, i + 1, j);
        }
    }
}

/// Kept elements stay in their order.
pub proof fn lemma_kept_order<T>(s: Seq<T>, keep: Seq<bool>, i: int, j1: int, j2: int)
    requires
        keep.len() == s.len(),
        0 <= i <= s.len(),
        0 <= j1 < j2 < kept_from(s, keep, i).len(),
    ensures
        kept_index(keep, i, j1) < kept_index(keep, i, j2),
    decreases s.len() - i,
{
    if i < s.len() {
        if keep[i] {
            if j1 > 0 {
                lemma_kept_order(s, keep, i + 1, j1 - 1, j2 - 1);
            } else {
                lemma_kept_index(s, keep, i + 1, j2 - 1);
            }
        } else {
            lemma_kept_order(s, keep, i + 1, j1, j2);
        }
    }
}

/// Every element whose flag is set is among the kept ones.
pub proof fn lemma_kept_all<T>(s: Seq<T>, keep: Seq<bool>, i: int, x: int) -> (j: int)
    requires
        keep.len() == s.len(),
        0 <= i <= x < s.len(),
        keep[x],
    ensures
        0 <= j < kept_from(s, keep, i).len(),
        kept_index(keep, i, j) == x,
        kept_from(s, keep, i)[j] == s[x],
    decreases s.len() - i,
{
    if i == x {
        0
    } else if keep[i] {
        lemma_kept_all(s, keep, i + 1, x) + 1
    } else {
        lemma_kept_all(s, keep, i + 1, x)
    }
}

/// Keeping some elements of a sequence without duplicates leaves none.
pub proof fn lemma_kept_no_duplicates<T>(s: Seq<T>, keep: Seq<bool>)
    requires
        keep.len() == s.len(),
        s.no_duplicates(),
    ensures
        kept(s, keep).no_duplicates(),
{
    let k = kept(s, keep);
    assert forall|j1: int, j2: int| 0 <= j1 < k.len() && 0 <= j2 < k.len() && j1 != j2 implies k[j1]
        != k[j2] by {
        lemma_kept_index(s, keep, 0, j1);
        lemma_kept_index(s, keep, 0, j2);
        if j1 < j2 {
            lemma_kept_order(s, keep, 0, j1, j2);
        } else {
            lemma_kept_order(s, keep, 0, j2, j1);
        }
    }
}

} // verus!
