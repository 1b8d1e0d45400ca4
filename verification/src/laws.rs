//! General properties of the container, stated over its sequence model
//! and proved once and for all.
//!
//! The exec functions of [`crate::myvec`] describe each step they take as
//! an operation on the array's sequence view: `push` takes `s` to
//! `s.push(v)`, `pop` returns `s.last()` and leaves `s.drop_last()`,
//! `insert` takes `s` to `s.insert(i, v)`, `remove` returns `s[i]` and
//! leaves `s.remove(i)`, and each iterator step returns `s.first()` or
//! `s.last()` and leaves `s.drop_first()` or `s.drop_last()`. The lemmas
//! here relate those operations, so that each holds of the functions for
//! every array and every input their contracts admit.

use vstd::multiset::Multiset;
use vstd::prelude::*;

verus! {

/// The contents after a sequence of pushes, applied to an empty array:
/// each push takes the view `s` to `s.push(v)`, so the views compose to
/// this fold.
pub open spec fn pushed_in_order<T>(vs: Seq<T>) -> Seq<T>
    decreases vs.len(),
{
    if vs.len() == 0 {
        Seq::empty()
    } else {
        pushed_in_order(vs.drop_last()).push(vs.last())
    }
}

/// For every sequence of pushes: starting from the empty array that
/// `MyVec::new` returns and pushing each value of `vs` in turn leaves
/// exactly the values of `vs`, in push order — so the length equals the
/// number of pushes and the indexed view reads the values back in order.
pub proof fn lemma_pushes_build_contents<T>(vs: Seq<T>)
    ensures
        pushed_in_order(vs) == vs,
    decreases vs.len(),
{
    if vs.len() == 0 {
        assert(pushed_in_order(vs) =~= vs);
    } else {
        lemma_pushes_build_contents(vs.drop_last());
        assert(pushed_in_order(vs) =~= vs);
    }
}

/// Push then pop is identity: popping immediately after pushing returns
/// the just-pushed value, and the contents — hence also the length —
/// return to their prior state.
pub proof fn lemma_push_then_pop<T>(s: Seq<T>, v: T)
    ensures
        s.push(v).len() == s.len() + 1,
        s.push(v).last() == v,
        s.push(v).drop_last() == s,
{
    assert(s.push(v).drop_last() =~= s);
}

/// Insert then remove at the same position is identity: removing position
/// `i` immediately after inserting `v` there returns `v`, and the
/// contents return to their pre-insert state.
pub proof fn lemma_insert_then_remove<T>(s: Seq<T>, i: int, v: T)
    requires
        0 <= i <= s.len(),
    ensures
        s.insert(i, v)[i] == v,
        s.insert(i, v).remove(i) == s,
{
    assert(s.insert(i, v).remove(i) =~= s);
}

/// One front step of a traversal yields exactly one occurrence of the
/// first remaining element and shortens the remainder by one: the
/// remainder's multiset is the old one with that single occurrence taken
/// out. By induction over the steps, any interleaving of front and back
/// steps on an owning iterator or a drain yields the original contents
/// exactly once each — no duplicates, no omissions — and the total number
/// of yields equals the original length.
pub proof fn lemma_yield_front<T>(s: Seq<T>)
    requires
        s.len() > 0,
    ensures
        s.drop_first().len() == s.len() - 1,
        s.to_multiset().count(s.first()) > 0,
        s.drop_first().to_multiset() == s.to_multiset().remove(s.first()),
        s.drop_first().to_multiset().insert(s.first()) == s.to_multiset(),
{
    broadcast use vstd::seq_lib::group_to_multiset_ensures;
    broadcast use vstd::multiset::group_multiset_axioms;

    assert(s.drop_first() =~= s.remove(0));
    assert(s[0] == s.first());
    assert(s.contains(s.first()));
    assert(s.remove(0).to_multiset() =~= s.to_multiset().remove(s[0]));
    assert(s.to_multiset().remove(s.first()).insert(s.first()) =~= s.to_multiset());
}

/// One back step of a traversal yields exactly one occurrence of the last
/// remaining element and shortens the remainder by one: the remainder's
/// multiset is the old one with that single occurrence taken out. The
/// symmetric counterpart of [`lemma_yield_front`].
pub proof fn lemma_yield_back<T>(s: Seq<T>)
    requires
        s.len() > 0,
    ensures
        s.drop_last().len() == s.len() - 1,
        s.to_multiset().count(s.last()) > 0,
        s.drop_last().to_multiset() == s.to_multiset().remove(s.last()),
        s.drop_last().to_multiset().insert(s.last()) == s.to_multiset(),
{
    broadcast use vstd::seq_lib::group_to_multiset_ensures;
    broadcast use vstd::multiset::group_multiset_axioms;

    let n = s.len() - 1;
    assert(s.drop_last() =~= s.remove(n));
    assert(s[n] == s.last());
    assert(s.contains(s.last()));
    assert(s.remove(n).to_multiset() =~= s.to_multiset().remove(s[n]));
    assert(s.to_multiset().remove(s.last()).insert(s.last()) =~= s.to_multiset());
}

/// Everything yielded by consuming the remaining contents `s` with the
/// interleaving `picks` of traversal steps — `true` for a front step,
/// `false` for a back step, each yielding and removing one end of the
/// remainder, as the contracts of `next` and `next_back` state.
pub open spec fn interleaved_yield<T>(s: Seq<T>, picks: Seq<bool>) -> Multiset<T>
    decreases picks.len(),
{
    if picks.len() == 0 || s.len() == 0 {
        Multiset::empty()
    } else if picks.first() {
        interleaved_yield(s.drop_first(), picks.drop_first()).insert(s.first())
    } else {
        interleaved_yield(s.drop_last(), picks.drop_first()).insert(s.last())
    }
}

/// Consuming an array of length `n` by `n` steps of the owning iterator —
/// front to back, back to front, or any interleaving of the two — yields
/// every element exactly once, with no duplicates and no omissions: the
/// yields form exactly the multiset of the original contents, so their
/// total count equals the original length. The same holds of a drain.
pub proof fn lemma_interleaving_yields_each_once<T>(s: Seq<T>, picks: Seq<bool>)
    requires
        picks.len() == s.len(),
    ensures
        interleaved_yield(s, picks) == s.to_multiset(),
        interleaved_yield(s, picks).len() == s.len(),
    decreases s.len(),
{
    broadcast use vstd::seq_lib::group_to_multiset_ensures;
    broadcast use vstd::multiset::group_multiset_axioms;

    if s.len() == 0 {
        assert(interleaved_yield(s, picks) =~= s.to_multiset());
    } else if picks.first() {
        lemma_interleaving_yields_each_once(s.drop_first(), picks.drop_first());
        lemma_yield_front(s);
    } else {
        lemma_interleaving_yields_each_once(s.drop_last(), picks.drop_first());
        lemma_yield_back(s);
    }
}

} // verus!
