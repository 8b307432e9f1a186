use std::collections::VecDeque;
use vstd::prelude::*;

verus! {

/// Owning iterator over the elements of a `ConstVec`, drained from the front
/// or from the back.
pub struct IntoIter<T> {
    items: VecDeque<T>,
    capacity: usize,
}

impl<T> View for IntoIter<T> {
    type V = Seq<T>;

    /// The elements not yet yielded, front to back.
    closed spec fn view(&self) -> Seq<T> {
        self.items@
    }
}

impl<T> IntoIter<T> {
    /// The capacity of the array the iterator was made from.
    pub closed spec fn spec_capacity(&self) -> usize {
        self.capacity
    }

    /// Takes over `elems`, which are yielded first to last.
    pub(crate) fn new(elems: Vec<T>, capacity: usize) -> (r: IntoIter<T>)
        ensures
            r@ == elems@,
            r.spec_capacity() == capacity,
    {
        let mut elems = elems;
        let ghost all = elems@;
        let mut items: VecDeque<T> = VecDeque::with_capacity(elems.len());
        while elems.len() > 0
            invariant
                elems@ + items@ == all,
            decreases elems@.len(),
        {
            match elems.pop() {
                Some(x) => items.push_front(x),
                None => {},
            }
            proof {
                assert(elems@ + items@ =~= all);
            }
        }
        proof {
            assert(items@ =~= all);
        }
        IntoIter { items, capacity }
    }

    /// The number of elements not yet yielded.
    pub fn len(&self) -> (r: usize)
        ensures
            r == self@.len(),
    {
        self.items.len()
    }

    pub fn is_empty(&self) -> (r: bool)
        ensures
            r == (self@.len() == 0),
    {
        self.items.len() == 0
    }

    /// Lower and upper bound on the elements left: both exact.
    pub fn size_hint(&self) -> (r: (usize, Option<usize>))
        ensures
            r.0 == self@.len(),
            r.1 == Some(self@.len() as usize),
    {
        let len = self.items.len();
        (len, Some(len))
    }

    /// Takes the first element not yet yielded, or `None` when all have been.
    pub fn next(&mut self) -> (r: Option<T>)
        ensures
            old(self)@.len() == 0 ==> r == None::<T> && final(self)@ == old(self)@,
            old(self)@.len() > 0 ==> r == Some(old(self)@.first())
                && final(self)@ == old(self)@.drop_first(),
            final(self).spec_capacity() == old(self).spec_capacity(),
    {
        let r = self.items.pop_front();
        proof {
            if old(self)@.len() > 0 {
                assert(final(self)@ =~= old(self)@.drop_first());
            }
        }
        r
    }

    /// Takes the last element not yet yielded, or `None` when all have been.
    pub fn next_back(&mut self) -> (r: Option<T>)
        ensures
            old(self)@.len() == 0 ==> r == None::<T> && final(self)@ == old(self)@,
            old(self)@.len() > 0 ==> r == Some(old(self)@.last())
                && final(self)@ == old(self)@.drop_last(),
            final(self).spec_capacity() == old(self).spec_capacity(),
    {
        self.items.pop_back()
    }
}

} // verus!
