//! Counting the items of a sequence that have a property, and finding the
//! first of them.

use vstd::prelude::*;

verus! {

/// 1 if `b` holds, else 0.
pub open spec fn one_if(b: bool) -> nat {
    if b {
        1
    } else {
        0
    }
}

/// The number of items of `s` of which `p` holds.
pub open spec fn count<A>(s: Seq<A>, p: spec_fn(A) -> bool) -> nat
    decreases s.len(),
{
    if s.len() == 0 {
        0
    } else {
        count(s.drop_last(), p) + one_if(p(s.last()))
    }
}

/// No more items have a property than there are items.
pub proof fn lemma_count_bound<A>(s: Seq<A>, p: spec_fn(A) -> bool)
    ensures
        count(s, p) <= s.len(),
    decreases s.len(),
{
    if s.len() > 0 {
        lemma_count_bound(s.drop_last(), p);
    }
}

/// An item added at the end counts if it has the property.
pub proof fn lemma_count_push<A>(s: Seq<A>, a: A, p: spec_fn(A) -> bool)
    ensures
        count(s.push(a), p) == count(s, p) + one_if(p(a)),
{
    assert(s.push(a).drop_last() =~= s);
}

/// Replacing one item takes the old one out of the count and puts the new one
/// in.
pub proof fn lemma_count_update<A>(s: Seq<A>, i: int, a: A, p: spec_fn(A) -> bool)
    requires
        0 <= i < s.len(),
    ensures
        count(s.update(i, a), p) + one_if(p(s[i])) == count(s, p) + one_if(p(a)),
    decreases s.len(),
{
    let t = s.update(i, a);
    if i == s.len() - 1 {
        assert(t.drop_last() =~= s.drop_last());
    } else {
        assert(t.drop_last() =~= s.drop_last().update(i, a));
        lemma_count_update(s.drop_last(), i, a, p);
    }
}

/// Two sequences of one length whose items agree, place by place, on having
/// a property, have as many items with it.
pub proof fn lemma_count_pointwise<A, B>(
    s: Seq<A>,
    p: spec_fn(A) -> bool,
    t: Seq<B>,
    q: spec_fn(B) -> bool,
)
    requires
        s.len() == t.len(),
        forall|i: int| 0 <= i < s.len() ==> p(#[trigger] s[i]) == q(t[i]),
    ensures
        count(s, p) == count(t, q),
    decreases s.len(),
{
    if s.len() > 0 {
        lemma_count_pointwise(s.drop_last(), p, t.drop_last(), q);
    }
}

/// The count is zero exactly when no item has the property.
pub proof fn lemma_count_zero<A>(s: Seq<A>, p: spec_fn(A) -> bool)
    ensures
        count(s, p) == 0 <==> forall|i: int| 0 <= i < s.len() ==> !p(#[trigger] s[i]),
    decreases s.len(),
{
    if s.len() > 0 {
        let r = s.drop_last();
        lemma_count_zero(r, p);
        if count(s, p) == 0 {
            assert forall|i: int| 0 <= i < s.len() implies !p(#[trigger] s[i]) by {
                if i < s.len() - 1 {
                    assert(s[i] == r[i]);
                }
            }
        }
        if forall|i: int| 0 <= i < s.len() ==> !p(#[trigger] s[i]) {
            assert forall|i: int| 0 <= i < r.len() implies !p(#[trigger] r[i]) by {}
        }
    }
}

/// Two properties that exclude each other count separately.
pub proof fn lemma_count_disjoint<A>(
    s: Seq<A>,
    p: spec_fn(A) -> bool,
    q: spec_fn(A) -> bool,
    either: spec_fn(A) -> bool,
)
    requires
        forall|a: A| #[trigger] either(a) == (p(a) || q(a)),
        forall|a: A| !(#[trigger] p(a) && q(a)),
    ensures
        count(s, either) == count(s, p) + count(s, q),
    decreases s.len(),
{
    if s.len() > 0 {
        lemma_count_disjoint(s.drop_last(), p, q, either);
    }
}

/// The place of the first item of `s`, from place `from` on, of which `p`
/// holds; the length of `s` if there is none.
pub open spec fn first_from<A>(s: Seq<A>, p: spec_fn(A) -> bool, from: int) -> int
    decreases s.len() - from,
{
    if from >= s.len() {
        s.len() as int
    } else if p(s[from]) {
        from
    } else {
        first_from(s, p, from + 1)
    }
}

/// The place of the first item of `s` of which `p` holds; the length of `s` if
/// there is none.
pub open spec fn first<A>(s: Seq<A>, p: spec_fn(A) -> bool) -> int {
    first_from(s, p, 0)
}

/// A place with the property before which, from `from` on, no item has it, is
/// the first such place; so is the length of the sequence, if no item from
/// `from` on has the property.
pub proof fn lemma_first_from_at<A>(s: Seq<A>, p: spec_fn(A) -> bool, from: int, k: int)
    requires
        0 <= from <= k <= s.len(),
        forall|j: int| from <= j < k ==> !p(#[trigger] s[j]),
        k < s.len() ==> p(s[k]),
    ensures
        first_from(s, p, from) == k,
    decreases k - from,
{
    if from < k {
        lemma_first_from_at(s, p, from + 1, k);
    }
}

/// What the first place with a property is: a place with the property, if it
/// is below the length, and no place before it has the property.
pub proof fn lemma_first_from<A>(s: Seq<A>, p: spec_fn(A) -> bool, from: int)
    requires
        0 <= from <= s.len(),
    ensures
        from <= first_from(s, p, from) <= s.len(),
        first_from(s, p, from) < s.len() ==> p(s[first_from(s, p, from)]),
        forall|j: int| from <= j < first_from(s, p, from) ==> !p(#[trigger] s[j]),
    decreases s.len() - from,
{
    if from < s.len() && !p(s[from]) {
        lemma_first_from(s, p, from + 1);
    }
}

/// The first place with a property is below the length exactly when some item
/// has the property.
pub proof fn lemma_first<A>(s: Seq<A>, p: spec_fn(A) -> bool)
    ensures
        0 <= first(s, p) <= s.len(),
        first(s, p) < s.len() ==> p(s[first(s, p)]),
        forall|j: int| 0 <= j < first(s, p) ==> !p(#[trigger] s[j]),
        first(s, p) < s.len() <==> count(s, p) > 0,
{
    lemma_first_from(s, p, 0);
    lemma_count_zero(s, p);
}

} // verus!
