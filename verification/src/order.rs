//! Stable sorting.

use crate::text::chars_of;
use vstd::prelude::*;

verus! {

/// Items with an order of their own.
pub trait Ranked: Sized {
    /// Stands before `other`.
    spec fn before(&self, other: &Self) -> bool;

    fn is_before(&self, other: &Self) -> (r: bool)
        ensures
            r == self.before(other),
    ;

    /// The order goes one way only and carries over.
    proof fn order_is_strict(a: &Self, b: &Self, c: &Self)
        ensures
            !(a.before(b) && b.before(a)),
            a.before(b) && !c.before(b) ==> a.before(c),
            !b.before(a) && !c.before(b) ==> !c.before(a),
    ;
}

/// `s` with `x` put behind everything that it does not stand before.
pub open spec fn inserted<T: Ranked>(s: Seq<T>, x: T) -> Seq<T>
    decreases s.len(),
{
    if s.len() > 0 && x.before(&s.last()) {
        inserted(s.drop_last(), x).push(s.last())
    } else {
        s.push(x)
    }
}

/// `s` in order; what is equal in rank keeps its order.
pub open spec fn stably_sorted<T: Ranked>(s: Seq<T>) -> Seq<T>
    decreases s.len(),
{
    if s.len() == 0 {
        s
    } else {
        inserted(stably_sorted(s.drop_last()), s.last())
    }
}

/// No item stands before an earlier one.
pub open spec fn in_order<T: Ranked>(s: Seq<T>) -> bool {
    forall|i: int, j: int| 0 <= i < j < s.len() ==> !(#[trigger] s[j].before(#[trigger] &s[i]))
}

proof fn lemma_inserted_at<T: Ranked>(s: Seq<T>, x: T, p: int)
    requires
        0 <= p <= s.len(),
        forall|k: int| p <= k < s.len() ==> x.before(&#[trigger] s[k]),
        p == 0 || !x.before(&s[p - 1]),
    ensures
        inserted(s, x) == s.insert(p, x),
    decreases s.len(),
{
    if p < s.len() {
        let shorter = s.drop_last();
        assert(x.before(&s[s.len() - 1]));
        assert forall|k: int| p <= k < shorter.len() implies x.before(&#[trigger] shorter[k]) by {
            assert(shorter[k] == s[k]);
        }
        lemma_inserted_at(shorter, x, p);
        assert(shorter.insert(p, x).push(s.last()) =~= s.insert(p, x));
    } else {
        assert(s.push(x) =~= s.insert(p, x));
    }
}

proof fn lemma_inserted<T: Ranked>(s: Seq<T>, x: T)
    requires
        in_order(s),
    ensures
        in_order(inserted(s, x)),
        inserted(s, x).to_multiset() == s.to_multiset().insert(x),
        inserted(s, x).len() == s.len() + 1,
        forall|i: int|
            0 <= i < inserted(s, x).len() ==> inserted(s, x)[i] == x || s.contains(
                #[trigger] inserted(s, x)[i],
            ),
    decreases s.len(),
{
    broadcast use vstd::seq_lib::group_to_multiset_ensures;

    if s.len() > 0 && x.before(&s.last()) {
        let shorter = s.drop_last();
        let front = inserted(shorter, x);
        let last = s.last();
        lemma_inserted(shorter, x);
        let whole = front.push(last);
        assert(whole == inserted(s, x));
        assert(shorter.push(last) =~= s);
        assert(whole.to_multiset() =~= s.to_multiset().insert(x));
        assert forall|i: int, j: int| 0 <= i < j < whole.len() implies !(
        #[trigger] whole[j].before(#[trigger] &whole[i])) by {
            if j < front.len() {
                assert(front[j] == whole[j] && front[i] == whole[i]);
            } else {
                assert(whole[i] == front[i]);
                if front[i] == x {
                    T::order_is_strict(&x, &last, &x);
                } else {
                    let k = choose|k: int| 0 <= k < shorter.len() && shorter[k] == front[i];
                    assert(s[k] == front[i]);
                    assert(!s[s.len() - 1].before(&s[k]));
                }
            }
        }
        assert forall|i: int| 0 <= i < whole.len() implies whole[i] == x || s.contains(
            #[trigger] whole[i],
        ) by {
            if i < front.len() {
                assert(whole[i] == front[i]);
                if front[i] != x {
                    let k = choose|k: int| 0 <= k < shorter.len() && shorter[k] == front[i];
                    assert(s[k] == front[i]);
                }
            } else {
                assert(s[s.len() - 1] == whole[i]);
            }
        }
    } else {
        let whole = s.push(x);
        assert(whole == inserted(s, x));
        assert forall|i: int, j: int| 0 <= i < j < whole.len() implies !(
        #[trigger] whole[j].before(#[trigger] &whole[i])) by {
            if j == s.len() {
                assert(!whole[j].before(&s.last()));
                if i < s.len() - 1 {
                    assert(!s[s.len() - 1].before(&s[i]));
                    T::order_is_strict(&s[i], &s.last(), &x);
                }
            }
        }
        assert forall|i: int| 0 <= i < whole.len() implies whole[i] == x || s.contains(
            #[trigger] whole[i],
        ) by {
            if i < s.len() {
                assert(s[i] == whole[i]);
            }
        }
    }
}

/// Sorting brings items into order and neither adds nor loses any.
pub proof fn sorting_is_ordered_permutation<T: Ranked>(s: Seq<T>)
    ensures
        in_order(stably_sorted(s)),
        stably_sorted(s).to_multiset() == s.to_multiset(),
        stably_sorted(s).len() == s.len(),
    decreases s.len(),
{
    broadcast use vstd::seq_lib::group_to_multiset_ensures;

    if s.len() > 0 {
        sorting_is_ordered_permutation(s.drop_last());
        lemma_inserted(stably_sorted(s.drop_last()), s.last());
        assert(s.drop_last().push(s.last()) =~= s);
        assert(stably_sorted(s).to_multiset() =~= s.to_multiset());
    }
}

/// Sorts items, keeping the order of equal ones.
pub fn stable_sort<T: Ranked>(items: Vec<T>) -> (out: Vec<T>)
    ensures
        out@ == stably_sorted(items@),
{
    let ghost all = items@;
    let mut rest = items;
    let mut reversed: Vec<T> = Vec::new();
    // Turn the vector over, so that its items can be taken from the front.
    while rest.len() > 0
        invariant
            all == rest@ + reversed@.reverse(),
        decreases rest@.len(),
    {
        let ghost before = rest@;
        let ghost done = reversed@;
        let x = rest.pop().unwrap();
        reversed.push(x);
        assert(reversed@.reverse() =~= seq![x] + done.reverse());
        assert(rest@ + reversed@.reverse() =~= before + done.reverse());
    }
    assert(all =~= reversed@.reverse());
    let mut out: Vec<T> = Vec::new();
    let mut taken: usize = 0;
    let total: usize = reversed.len();
    assert(all.take(0) =~= out@);
    while reversed.len() > 0
        invariant
            total == all.len(),
            taken + reversed@.len() == total,
            reversed@.reverse() == all.skip(taken as int),
            out@ == stably_sorted(all.take(taken as int)),
        decreases reversed@.len(),
    {
        let ghost before = reversed@;
        let x = reversed.pop().unwrap();
        assert(before.reverse()[0] == x);
        assert(all.skip(taken as int)[0] == all[taken as int]);
        assert(x == all[taken as int]);
        assert(reversed@.reverse() =~= before.reverse().skip(1));
        assert(all.skip(taken as int).skip(1) =~= all.skip(taken + 1));
        assert(all.take(taken + 1).drop_last() =~= all.take(taken as int));
        assert(all.take(taken + 1).last() == x);
        let mut p: usize = out.len();
        while p > 0 && x.is_before(&out[p - 1])
            invariant
                p <= out@.len(),
                forall|k: int| p <= k < out@.len() ==> x.before(&#[trigger] out@[k]),
            decreases p,
        {
            p = p - 1;
        }
        proof {
            lemma_inserted_at(out@, x, p as int);
        }
        out.insert(p, x);
        taken = taken + 1;
    }
    assert(all.take(total as int) =~= all);
    out
}

// ---------------------------------------------------------------------------
// Order of texts
// ---------------------------------------------------------------------------

/// Dictionary order by code point.
pub open spec fn text_less(a: Seq<char>, b: Seq<char>) -> bool
    decreases a.len(),
{
    if b.len() == 0 {
        false
    } else if a.len() == 0 {
        true
    } else if a[0] == b[0] {
        text_less(a.drop_first(), b.drop_first())
    } else {
        a[0] < b[0]
    }
}

pub proof fn text_order_is_strict(a: Seq<char>, b: Seq<char>, c: Seq<char>)
    ensures
        !(text_less(a, b) && text_less(b, a)),
        text_less(a, b) && !text_less(c, b) ==> text_less(a, c),
        !text_less(b, a) && !text_less(c, b) ==> !text_less(c, a),
    decreases a.len() + b.len() + c.len(),
{
    if a.len() > 0 && b.len() > 0 && c.len() > 0 {
        text_order_is_strict(a.drop_first(), b.drop_first(), c.drop_first());
    } else if a.len() > 0 && b.len() > 0 {
        text_order_is_strict(a.drop_first(), b.drop_first(), c);
    }
}

/// Compares two texts in dictionary order.
pub fn text_before(a: &str, b: &str) -> (r: bool)
    ensures
        r == text_less(a@, b@),
{
    let x = chars_of(a);
    let y = chars_of(b);
    let mut i: usize = 0;
    assert(a@.skip(0) =~= a@);
    assert(b@.skip(0) =~= b@);
    while i < x.len() && i < y.len()
        invariant
            x@ == a@,
            y@ == b@,
            i <= x@.len(),
            i <= y@.len(),
            text_less(a@, b@) == text_less(a@.skip(i as int), b@.skip(i as int)),
        decreases x@.len() - i,
    {
        assert(a@.skip(i as int)[0] == x@[i as int]);
        assert(b@.skip(i as int)[0] == y@[i as int]);
        if x[i] != y[i] {
            return x[i] < y[i];
        }
        assert(a@.skip(i as int).drop_first() =~= a@.skip(i + 1));
        assert(b@.skip(i as int).drop_first() =~= b@.skip(i + 1));
        i = i + 1;
    }
    i == x.len() && i < y.len()
}

} // verus!
