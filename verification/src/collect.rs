//! Selecting and converting, in order, the items of a sequence.

use vstd::prelude::*;

verus! {

/// The values that `f` gives for the items of `s`, in the order of `s`,
/// leaving out the items for which it gives none.
pub open spec fn collect<A, B>(s: Seq<A>, f: spec_fn(A) -> Option<B>) -> Seq<B>
    decreases s.len(),
{
    if s.len() == 0 {
        Seq::empty()
    } else {
        let front = collect(s.drop_last(), f);
        match f(s.last()) {
            Some(b) => front.push(b),
            None => front,
        }
    }
}

/// Appending one item appends its value, where it has one.
pub proof fn lemma_collect_push<A, B>(s: Seq<A>, a: A, f: spec_fn(A) -> Option<B>)
    ensures
        collect(s.push(a), f) == match f(a) {
            Some(b) => collect(s, f).push(b),
            None => collect(s, f),
        },
{
    assert(s.push(a).drop_last() =~= s);
}

/// Nothing is collected that is not there.
pub proof fn lemma_collect_len<A, B>(s: Seq<A>, f: spec_fn(A) -> Option<B>)
    ensures
        collect(s, f).len() <= s.len(),
    decreases s.len(),
{
    if s.len() > 0 {
        lemma_collect_len(s.drop_last(), f);
    }
}

/// Every item with a value contributes that value.
pub proof fn lemma_collect_complete<A, B>(s: Seq<A>, f: spec_fn(A) -> Option<B>, i: int)
    requires
        0 <= i < s.len(),
        f(s[i]).is_some(),
    ensures
        collect(s, f).contains(f(s[i]).unwrap()),
    decreases s.len(),
{
    let front = collect(s.drop_last(), f);
    if i == s.len() - 1 {
        let b = f(s.last()).unwrap();
        assert(front.push(b)[front.len() as int] == b);
    } else {
        lemma_collect_complete(s.drop_last(), f, i);
        let b = f(s[i]).unwrap();
        let j = choose|j: int| 0 <= j < front.len() && front[j] == b;
        assert(collect(s, f)[j] == b);
    }
}

/// Every collected value is the value of some item.
pub proof fn lemma_collect_sound<A, B>(s: Seq<A>, f: spec_fn(A) -> Option<B>, j: int) -> (i: int)
    requires
        0 <= j < collect(s, f).len(),
    ensures
        0 <= i < s.len(),
        f(s[i]) == Some(collect(s, f)[j]),
    decreases s.len(),
{
    let front = collect(s.drop_last(), f);
    if j < front.len() {
        lemma_collect_sound(s.drop_last(), f, j)
    } else {
        s.len() - 1
    }
}

/// Collected values keep the order of the items that they come from.
pub proof fn lemma_collect_ordered<A, B>(
    s: Seq<A>,
    f: spec_fn(A) -> Option<B>,
    j1: int,
    j2: int,
) -> (r: (int, int))
    requires
        0 <= j1 < j2 < collect(s, f).len(),
    ensures
        0 <= r.0 < r.1 < s.len(),
        f(s[r.0]) == Some(collect(s, f)[j1]),
        f(s[r.1]) == Some(collect(s, f)[j2]),
    decreases s.len(),
{
    let front = collect(s.drop_last(), f);
    if j2 < front.len() {
        lemma_collect_ordered(s.drop_last(), f, j1, j2)
    } else {
        let i1 = lemma_collect_sound(s.drop_last(), f, j1);
        (i1, s.len() - 1)
    }
}

/// An item without a value contributes nothing: without it the same values
/// are collected.
pub proof fn lemma_collect_skip<A, B>(s: Seq<A>, f: spec_fn(A) -> Option<B>, i: int)
    requires
        0 <= i < s.len(),
        f(s[i]).is_none(),
    ensures
        collect(s.remove(i), f) == collect(s, f),
    decreases s.len(),
{
    if i == s.len() - 1 {
        assert(s.remove(i) =~= s.drop_last());
    } else {
        let rest = s.remove(i);
        assert(rest.drop_last() =~= s.drop_last().remove(i));
        assert(rest.last() == s.last());
        lemma_collect_skip(s.drop_last(), f, i);
    }
}

/// Where no item has a value, nothing is collected.
pub proof fn lemma_collect_none<A, B>(s: Seq<A>, f: spec_fn(A) -> Option<B>)
    requires
        forall|i: int| 0 <= i < s.len() ==> f(#[trigger] s[i]).is_none(),
    ensures
        collect(s, f).len() == 0,
{
    if collect(s, f).len() > 0 {
        let i = lemma_collect_sound(s, f, 0);
        assert(f(s[i]).is_none());
    }
}

} // verus!
