//! Moving the items of a vector that a selector accepts into a new vector.

use vstd::prelude::*;

verus! {

/// A test on items with its meaning.
pub trait Selector<T> {
    /// Whether the selector accepts `x`.
    spec fn accepts(&self, x: T) -> bool;

    fn test(&self, x: &T) -> (b: bool)
        ensures
            b == self.accepts(*x),
    ;
}

/// The items of `items`, in order, that `selector` accepts.
pub fn keep_matching<T, S: Selector<T>>(items: Vec<T>, selector: &S) -> (r: Vec<T>)
    ensures
        r@ == items@.filter(|x: T| selector.accepts(x)),
{
    let ghost all = items@;
    let ghost pred = |x: T| selector.accepts(x);
    let mut r: Vec<T> = Vec::new();
    proof {
        assert(all.take(0) =~= Seq::<T>::empty());
        reveal(Seq::filter);
    }
    for x in it: items.into_iter()
        invariant
            it.seq() == all,
            pred == (|x: T| selector.accepts(x)),
            r@ == all.take(it.index() as int).filter(pred),
    {
        let ghost i = it.index() as int;
        proof {
            assert(all.take(i + 1) =~= all.take(i).push(all[i]));
            all.take(i).lemma_filter_push(all[i], pred);
        }
        let k = selector.test(&x);
        if k {
            r.push(x);
        }
    }
    proof {
        assert(all.take(all.len() as int) =~= all);
    }
    r
}

/// Keeping the items that satisfy `f` keeps none when none does.
pub proof fn lemma_filter_none<A>(s: Seq<A>, f: spec_fn(A) -> bool)
    requires
        forall|j: int| 0 <= j < s.len() ==> !f(#[trigger] s[j]),
    ensures
        s.filter(f) =~= Seq::<A>::empty(),
    decreases s.len(),
{
    reveal(Seq::filter);
    if s.len() > 0 {
        let t = s.drop_last();
        assert forall|j: int| 0 <= j < t.len() implies !f(#[trigger] t[j]) by {
            assert(t[j] == s[j]);
        }
        lemma_filter_none(t, f);
        assert(!f(s[s.len() - 1]));
    }
}

/// Keeping the items that satisfy `f` keeps exactly `s[i]` when it is the only
/// one that does.
pub proof fn lemma_filter_only<A>(s: Seq<A>, f: spec_fn(A) -> bool, i: int)
    requires
        0 <= i < s.len(),
        f(s[i]),
        forall|j: int| 0 <= j < s.len() && j != i ==> !f(#[trigger] s[j]),
    ensures
        s.filter(f) =~= seq![s[i]],
    decreases s.len(),
{
    reveal(Seq::filter);
    let t = s.drop_last();
    if i == s.len() - 1 {
        assert forall|j: int| 0 <= j < t.len() implies !f(#[trigger] t[j]) by {
            assert(t[j] == s[j]);
        }
        lemma_filter_none(t, f);
    } else {
        assert(t[i] == s[i]);
        assert forall|j: int| 0 <= j < t.len() && j != i implies !f(#[trigger] t[j]) by {
            assert(t[j] == s[j]);
        }
        lemma_filter_only(t, f, i);
        assert(!f(s[s.len() - 1]));
    }
}

/// Filtering by `f` and then by `g` is filtering by both.
pub proof fn lemma_filter_filter<A>(s: Seq<A>, f: spec_fn(A) -> bool, g: spec_fn(A) -> bool)
    ensures
        s.filter(f).filter(g) =~= s.filter(|x: A| f(x) && g(x)),
    decreases s.len(),
{
    reveal(Seq::filter);
    if s.len() > 0 {
        let t = s.drop_last();
        lemma_filter_filter(t, f, g);
        let tf = t.filter(f);
        if f(s.last()) {
            assert(tf.push(s.last()).drop_last() =~= tf);
        }
    }
}

} // verus!
