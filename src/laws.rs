//! Properties that relate several operations, proved from their contracts.
use vstd::prelude::*;
use crate::const_vec::ConstVec;
use crate::into_iter::IntoIter;

verus! {

/// Pushing values one by one onto a fresh array: after `i` pushes the array
/// holds exactly the first `i` values, in push order, and at no point more
/// values than the capacity.
///
/// `states[i + 1]` is `states[i]` after `push(vals[i])`, each push made while
/// there was room.
pub proof fn lemma_pushes_in_order<T>(states: Seq<ConstVec<T>>, vals: Seq<T>)
    requires
        states.len() == vals.len() + 1,
        states[0]@ == Seq::<T>::empty(),
        forall|i: int|
            0 <= i < vals.len() ==> {
                &&& (#[trigger] states[i])@.len() < states[i].spec_capacity()
                &&& states[i + 1]@ == states[i]@.push(vals[i])
                &&& states[i + 1].spec_capacity() == states[i].spec_capacity()
            },
    ensures
        forall|i: int| 0 <= i <= vals.len() ==> (#[trigger] states[i])@ == vals.take(i),
        forall|i: int| 0 <= i <= vals.len() ==> (#[trigger] states[i])@.len() == i,
        forall|i: int|
            0 <= i <= vals.len() ==> (#[trigger] states[i]).spec_capacity()
                == states[0].spec_capacity(),
        vals.len() <= states[0].spec_capacity(),
    decreases vals.len(),
{
    if vals.len() > 0 {
        let n = vals.len() - 1;
        let fewer_states = states.take(n + 1);
        let fewer_vals = vals.take(n);
        assert forall|i: int| 0 <= i < fewer_vals.len() implies {
            &&& (#[trigger] fewer_states[i])@.len() < fewer_states[i].spec_capacity()
            &&& fewer_states[i + 1]@ == fewer_states[i]@.push(fewer_vals[i])
            &&& fewer_states[i + 1].spec_capacity() == fewer_states[i].spec_capacity()
        } by {
            assert(states[i]@.len() < states[i].spec_capacity());
        }
        lemma_pushes_in_order(fewer_states, fewer_vals);
        assert(fewer_states[n] == states[n]);
        assert(states[n]@.len() < states[n].spec_capacity());
        assert forall|i: int| 0 <= i <= vals.len() implies (#[trigger] states[i])@ == vals.take(i) by {
            if i <= n {
                assert(fewer_states[i] == states[i]);
                assert(fewer_vals.take(i) =~= vals.take(i));
            } else {
                assert(fewer_states[n] == states[n]);
                assert(fewer_vals.take(n) =~= vals.take(n));
                assert(vals.take(n).push(vals[n]) =~= vals.take(i));
            }
        }
        assert forall|i: int|
            0 <= i <= vals.len() implies (#[trigger] states[i]).spec_capacity()
                == states[0].spec_capacity() by {
            if i <= n {
                assert(fewer_states[i] == states[i]);
            } else {
                assert(fewer_states[n] == states[n]);
            }
        }
        assert forall|i: int| 0 <= i <= vals.len() implies (#[trigger] states[i])@.len() == i by {
            assert(states[i]@ == vals.take(i));
        }
    } else {
        assert(states[0]@ =~= vals.take(0));
    }
}

/// Pushing `v` and then popping gives back `Some(v)` and leaves the array as
/// it was before the push: the same elements, hence the same length.
///
/// `pushed` is `before` after `push(v)`; `after` is `pushed` after a `pop`
/// that returned `popped`.
pub proof fn lemma_push_then_pop<T>(
    before: ConstVec<T>,
    v: T,
    pushed: ConstVec<T>,
    popped: Option<T>,
    after: ConstVec<T>,
)
    requires
        pushed@ == before@.push(v),
        pushed.spec_capacity() == before.spec_capacity(),
        pushed@.len() == 0 ==> popped == None::<T> && after@ == pushed@,
        pushed@.len() > 0 ==> popped == Some(pushed@.last()) && after@ == pushed@.drop_last(),
        after.spec_capacity() == pushed.spec_capacity(),
    ensures
        popped == Some(v),
        after@ == before@,
        after@.len() == before@.len(),
        after.spec_capacity() == before.spec_capacity(),
{
    assert(before@.push(v).drop_last() =~= before@);
}

/// Handing an array to a `Vec` and adopting that `Vec` again gives back the
/// same live elements.
///
/// `v` is `Vec::from(c)`; `back` is `ConstVec::from(v)`.
pub proof fn lemma_vec_round_trip<T>(c: ConstVec<T>, v: Vec<T>, back: ConstVec<T>)
    requires
        v@ == c@,
        back@ == v@,
    ensures
        back@ == c@,
{
}

/// Adopting a `Vec` and handing the array back to a `Vec` gives back the
/// same elements.
///
/// `c` is `ConstVec::from(v)`; `back` is `Vec::from(c)`.
pub proof fn lemma_array_round_trip<T>(v: Vec<T>, c: ConstVec<T>, back: Vec<T>)
    requires
        c@ == v@,
        back@ == c@,
    ensures
        back@ == v@,
{
}

/// Decomposing an array into raw parts and rebuilding it from them gives an
/// array with the same live elements and the same capacity.
///
/// `parts` is `c.into_raw_parts()`; `back` is
/// `ConstVec::from_raw_parts(parts.0, parts.1, parts.2)`.
pub proof fn lemma_raw_parts_round_trip<T>(c: ConstVec<T>, parts: (Vec<T>, usize, usize), back: ConstVec<T>)
    requires
        c.wf(),
        parts.0@ == c@,
        parts.1 == c@.len(),
        parts.2 == c.spec_capacity(),
        back@ == parts.0@,
        back.spec_capacity() == parts.2,
    ensures
        parts.0@.len() == parts.1,
        parts.1 <= parts.2,
        back@ == c@,
        back.spec_capacity() == c.spec_capacity(),
{
}

/// How many of the first `i` pulls were taken from the front.
pub open spec fn fronts_before(fronts: Seq<bool>, i: int) -> int
    decreases i,
{
    if i <= 0 {
        0
    } else {
        fronts_before(fronts, i - 1) + if fronts[i - 1] { 1int } else { 0int }
    }
}

/// Where, in the original order, the element yielded by pull `i` stood.
pub open spec fn pulled_index(fronts: Seq<bool>, len: int, i: int) -> int {
    if fronts[i] {
        fronts_before(fronts, i)
    } else {
        len - 1 - (i - fronts_before(fronts, i))
    }
}

/// `after` is `before` after one pull that returned `r`: `next` when
/// `front`, `next_back` otherwise.
pub open spec fn pulls_to<T>(before: IntoIter<T>, front: bool, r: Option<T>, after: IntoIter<T>) -> bool {
    &&& before@.len() == 0 ==> r == None::<T> && after@ == before@
    &&& before@.len() > 0 && front ==> r == Some(before@.first()) && after@ == before@.drop_first()
    &&& before@.len() > 0 && !front ==> r == Some(before@.last()) && after@ == before@.drop_last()
}

proof fn lemma_fronts_before_bounds(fronts: Seq<bool>, i: int, j: int)
    requires
        0 <= i <= j <= fronts.len(),
    ensures
        0 <= fronts_before(fronts, i) <= i,
        fronts_before(fronts, i) <= fronts_before(fronts, j),
        i - fronts_before(fronts, i) <= j - fronts_before(fronts, j),
    decreases j,
{
    if j > i {
        lemma_fronts_before_bounds(fronts, i, j - 1);
    } else if i > 0 {
        lemma_fronts_before_bounds(fronts, i - 1, i - 1);
    }
}

/// Draining an iterator over `orig` with `orig.len()` pulls, each from
/// the front or from the back as `fronts` says: every pull yields an element,
/// front pulls yield `orig` from the start onwards, back pulls from the end
/// backwards, no position of `orig` is yielded twice, and the iterator ends
/// empty.
///
/// `its[i + 1]` is `its[i]` after pull `i`, which returned `outs[i]`.
pub proof fn lemma_drain_from_both_ends<T>(
    orig: Seq<T>,
    its: Seq<IntoIter<T>>,
    fronts: Seq<bool>,
    outs: Seq<Option<T>>,
)
    requires
        fronts.len() == orig.len(),
        its.len() == orig.len() + 1,
        outs.len() == orig.len(),
        its[0]@ == orig,
        forall|i: int|
            0 <= i < orig.len() ==> #[trigger] pulls_to(its[i], fronts[i], outs[i], its[i + 1]),
    ensures
        forall|i: int|
            0 <= i < orig.len() ==> 0 <= #[trigger] pulled_index(fronts, orig.len() as int, i)
                < orig.len(),
        forall|i: int|
            0 <= i < orig.len() ==> #[trigger] outs[i] == Some(
                orig[pulled_index(fronts, orig.len() as int, i)],
            ),
        forall|i: int, j: int|
            0 <= i < j < orig.len() ==> #[trigger] pulled_index(fronts, orig.len() as int, i)
                != #[trigger] pulled_index(fronts, orig.len() as int, j),
        its[orig.len() as int]@.len() == 0,
{
    let len = orig.len() as int;
    assert forall|k: int| 0 <= k <= len implies (#[trigger] its[k])@ == orig.subrange(
        fronts_before(fronts, k),
        len - (k - fronts_before(fronts, k)),
    ) && fronts_before(fronts, k) <= len - (k - fronts_before(fronts, k)) by {
        lemma_remaining(orig, its, fronts, outs, k);
    }
    assert forall|i: int| 0 <= i < len implies 0 <= #[trigger] pulled_index(fronts, len, i) < len
        && outs[i] == Some(orig[pulled_index(fronts, len, i)])
        && fronts_before(fronts, i) <= pulled_index(fronts, len, i)
        && pulled_index(fronts, len, i) < len - (i - fronts_before(fronts, i)) by {
        lemma_fronts_before_bounds(fronts, i, i);
        let f = fronts_before(fronts, i);
        assert(its[i]@ == orig.subrange(f, len - (i - f)));
        assert(pulls_to(its[i], fronts[i], outs[i], its[i + 1]));
    }
    assert forall|i: int, j: int| 0 <= i < j < len implies #[trigger] pulled_index(fronts, len, i)
        != #[trigger] pulled_index(fronts, len, j) by {
        lemma_fronts_before_bounds(fronts, i + 1, j);
        assert(0 <= pulled_index(fronts, len, j) < len);
        assert(0 <= pulled_index(fronts, len, i) < len);
    }
    lemma_fronts_before_bounds(fronts, len, len);
    assert(its[len]@ == orig.subrange(fronts_before(fronts, len), len - (len - fronts_before(fronts, len))));
}

proof fn lemma_remaining<T>(
    orig: Seq<T>,
    its: Seq<IntoIter<T>>,
    fronts: Seq<bool>,
    outs: Seq<Option<T>>,
    k: int,
)
    requires
        fronts.len() == orig.len(),
        its.len() == orig.len() + 1,
        outs.len() == orig.len(),
        its[0]@ == orig,
        forall|i: int|
            0 <= i < orig.len() ==> #[trigger] pulls_to(its[i], fronts[i], outs[i], its[i + 1]),
        0 <= k <= orig.len(),
    ensures
        its[k]@ == orig.subrange(
            fronts_before(fronts, k),
            orig.len() - (k - fronts_before(fronts, k)),
        ),
        fronts_before(fronts, k) <= orig.len() - (k - fronts_before(fronts, k)),
    decreases k,
{
    let len = orig.len() as int;
    if k == 0 {
        assert(orig.subrange(0, len) =~= orig);
    } else {
        lemma_remaining(orig, its, fronts, outs, k - 1);
        lemma_fronts_before_bounds(fronts, k - 1, k - 1);
        let f = fronts_before(fronts, k - 1);
        let b = k - 1 - f;
        let prev = its[k - 1]@;
        assert(prev == orig.subrange(f, len - b));
        assert(prev.len() == len - b - f);
        assert(prev.len() > 0);
        let j = k - 1;
        assert(pulls_to(its[j], fronts[j], outs[j], its[j + 1]));
        if fronts[k - 1] {
            assert(fronts_before(fronts, k) == f + 1);
            assert(its[k]@ == prev.drop_first());
            assert(its[k]@ =~= orig.subrange(f + 1, len - b));
        } else {
            assert(fronts_before(fronts, k) == f);
            assert(its[k]@ == prev.drop_last());
            assert(its[k]@ =~= orig.subrange(f, len - b - 1));
        }
    }
}

} // verus!
