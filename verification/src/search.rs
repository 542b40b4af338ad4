//! The elements of a sequence that meet a predicate: the first, and the
//! positions of all.

use vstd::prelude::*;

verus! {

/// Whether `i` is the position of the first element of `s` that meets `p`.
pub open spec fn is_first<T>(s: Seq<T>, p: spec_fn(T) -> bool, i: int) -> bool {
    &&& 0 <= i < s.len()
    &&& p(s[i])
    &&& forall|j: int| 0 <= j < i ==> !p(#[trigger] s[j])
}

/// The position of the first element of `s` that meets `p`, if there is one.
pub open spec fn first_where<T>(s: Seq<T>, p: spec_fn(T) -> bool) -> Option<int> {
    if exists|i: int| is_first(s, p, i) {
        Some(choose|i: int| is_first(s, p, i))
    } else {
        None
    }
}

/// A position that is first is the one that `first_where` gives.
pub proof fn lemma_first_where_found<T>(s: Seq<T>, p: spec_fn(T) -> bool, i: int)
    requires
        is_first(s, p, i),
    ensures
        first_where(s, p) == Some(i),
{
    let c = choose|k: int| is_first(s, p, k);
    assert(is_first(s, p, c));
    if c < i {
        assert(!p(s[c]));
    }
    if i < c {
        assert(!p(s[i]));
    }
}

/// Where no element meets `p`, `first_where` gives nothing.
pub proof fn lemma_first_where_missing<T>(s: Seq<T>, p: spec_fn(T) -> bool)
    requires
        forall|j: int| 0 <= j < s.len() ==> !p(#[trigger] s[j]),
    ensures
        first_where(s, p) is None,
{
}

/// `first_where` finds a position exactly when some element meets `p`, and
/// the position it gives is the first.
pub proof fn lemma_first_where_is_first<T>(s: Seq<T>, p: spec_fn(T) -> bool)
    ensures
        first_where(s, p) is Some <==> exists|j: int| 0 <= j < s.len() && p(#[trigger] s[j]),
        first_where(s, p) matches Some(i) ==> is_first(s, p, i),
{
    if exists|j: int| 0 <= j < s.len() && p(#[trigger] s[j]) {
        let j = choose|j: int| 0 <= j < s.len() && p(#[trigger] s[j]);
        lemma_least_exists(s, p, j);
    }
}

proof fn lemma_least_exists<T>(s: Seq<T>, p: spec_fn(T) -> bool, j: int)
    requires
        0 <= j < s.len(),
        p(s[j]),
    ensures
        exists|i: int| is_first(s, p, i),
    decreases j,
{
    if forall|k: int| 0 <= k < j ==> !p(#[trigger] s[k]) {
        assert(is_first(s, p, j));
    } else {
        let k = choose|k: int| 0 <= k < j && p(#[trigger] s[k]);
        lemma_least_exists(s, p, k);
    }
}

/// The positions of the elements of `s` that meet `p`, in ascending order.
pub open spec fn positions<T>(s: Seq<T>, p: spec_fn(T) -> bool) -> Seq<int>
    decreases s.len(),
{
    if s.len() == 0 {
        Seq::empty()
    } else {
        let before = positions(s.drop_last(), p);
        if p(s.last()) {
            before.push(s.len() - 1)
        } else {
            before
        }
    }
}

/// `positions` holds the position of each element that meets `p` and of no
/// other, each once and in ascending order.
pub proof fn lemma_positions<T>(s: Seq<T>, p: spec_fn(T) -> bool)
    ensures
        forall|k: int|
            0 <= k < positions(s, p).len() ==> 0 <= (#[trigger] positions(s, p)[k]) < s.len() && p(
                s[positions(s, p)[k]],
            ),
        forall|j: int, k: int|
            0 <= j < k < positions(s, p).len() ==> (#[trigger] positions(s, p)[j]) < (
            #[trigger] positions(s, p)[k]),
        forall|i: int| 0 <= i < s.len() && p(#[trigger] s[i]) ==> positions(s, p).contains(i),
    decreases s.len(),
{
    if s.len() > 0 {
        let front = s.drop_last();
        lemma_positions(front, p);
        let before = positions(front, p);
        let all = positions(s, p);
        assert forall|i: int| 0 <= i < s.len() && p(#[trigger] s[i]) implies all.contains(i) by {
            if i < s.len() - 1 {
                assert(front[i] == s[i]);
                let k = choose|k: int| 0 <= k < before.len() && before[k] == i;
                assert(all[k] == i);
            } else {
                assert(all[all.len() - 1] == i);
            }
        }
    }
}

} // verus!
