use vstd::prelude::*;
use vstd::std_specs::cmp::PartialEqSpec;
use crate::into_iter::IntoIter;

verus! {

/// Fixed-capacity array: the live elements, in order, and a capacity that
/// never changes after construction.
pub struct ConstVec<T> {
    data: Vec<T>,
    capacity: usize,
}

impl<T> View for ConstVec<T> {
    type V = Seq<T>;

    /// The live elements, first to last.
    closed spec fn view(&self) -> Seq<T> {
        self.data@
    }
}

impl<T> ConstVec<T> {
    /// The fixed capacity.
    pub closed spec fn spec_capacity(&self) -> usize {
        self.capacity
    }

    /// Well-formed: never more live elements than the capacity allows.
    pub open spec fn wf(&self) -> bool {
        self@.len() <= self.spec_capacity()
    }

    /// Creates an empty array with the given fixed capacity.
    pub fn new(capacity: usize) -> (r: ConstVec<T>)
        ensures
            r.wf(),
            r@ == Seq::<T>::empty(),
            r.spec_capacity() == capacity,
    {
        ConstVec { data: Vec::with_capacity(capacity), capacity }
    }

    /// The fixed capacity.
    #[verifier::when_used_as_spec(spec_capacity)]
    pub fn capacity(&self) -> (r: usize)
        ensures
            r == self.spec_capacity(),
    {
        self.capacity
    }

    /// The number of live elements.
    pub fn len(&self) -> (r: usize)
        ensures
            r == self@.len(),
    {
        self.data.len()
    }

    /// Whether there is no live element.
    pub fn is_empty(&self) -> (r: bool)
        ensures
            r == (self@.len() == 0),
    {
        self.data.len() == 0
    }

    /// Appends `value` after the live elements.
    ///
    /// The array must have room for it: pushing onto a full array is a
    /// contract violation.
    pub fn push(&mut self, value: T)
        requires
            old(self)@.len() < old(self).spec_capacity(),
        ensures
            final(self).wf(),
            final(self)@ == old(self)@.push(value),
            final(self).spec_capacity() == old(self).spec_capacity(),
    {
        self.data.push(value);
    }

    /// Removes the last element and returns it, or `None` if the array is
    /// empty.
    pub fn pop(&mut self) -> (r: Option<T>)
        ensures
            old(self).wf() ==> final(self).wf(),
            old(self)@.len() == 0 ==> r == None::<T> && final(self)@ == old(self)@,
            old(self)@.len() > 0 ==> r == Some(old(self)@.last())
                && final(self)@ == old(self)@.drop_last(),
            final(self).spec_capacity() == old(self).spec_capacity(),
    {
        self.data.pop()
    }

    /// Moves every element of `other` to the end of this array, in order,
    /// leaving `other` empty.
    ///
    /// The elements of both must fit in the capacity: anything else is a
    /// contract violation.
    pub fn append(&mut self, other: &mut Vec<T>)
        requires
            old(self)@.len() + old(other)@.len() <= old(self).spec_capacity(),
        ensures
            final(self).wf(),
            final(self)@ == old(self)@ + old(other)@,
            final(other)@ == Seq::<T>::empty(),
            final(self).spec_capacity() == old(self).spec_capacity(),
    {
        self.data.append(other);
    }

    /// Drops every live element; the capacity stays.
    pub fn clear(&mut self)
        ensures
            final(self).wf(),
            final(self)@ == Seq::<T>::empty(),
            final(self).spec_capacity() == old(self).spec_capacity(),
    {
        self.data.clear();
    }

    /// The live elements as a slice.
    pub fn as_slice(&self) -> (r: &[T])
        ensures
            r@ == self@,
    {
        self.data.as_slice()
    }

    /// The live elements as a mutable slice; the number of live elements and
    /// the capacity stay as they are.
    pub fn as_mut_slice(&mut self) -> (r: &mut [T])
        ensures
            r@ == old(self)@,
            final(self)@ == final(r)@,
            final(self).spec_capacity() == old(self).spec_capacity(),
    {
        self.data.as_mut_slice()
    }

    /// Turns the array into an iterator that yields its live elements by
    /// value, from either end.
    pub fn into_iter(self) -> (r: IntoIter<T>)
        ensures
            r@ == self@,
            r.spec_capacity() == self.spec_capacity(),
    {
        IntoIter::new(self.data, self.capacity)
    }

    /// Adopts storage that already holds `len` live elements, as a
    /// fixed-capacity array of the given capacity.
    pub fn from_raw_parts(storage: Vec<T>, len: usize, capacity: usize) -> (r: ConstVec<T>)
        requires
            storage@.len() == len,
            len <= capacity,
        ensures
            r.wf(),
            r@ == storage@,
            r.spec_capacity() == capacity,
    {
        ConstVec { data: storage, capacity }
    }

    /// Decomposes the array into its storage, its length and its capacity:
    /// the arguments that `from_raw_parts` takes back.
    pub fn into_raw_parts(self) -> (r: (Vec<T>, usize, usize))
        ensures
            r.0@ == self@,
            r.1 == self@.len(),
            r.2 == self.spec_capacity(),
    {
        let len = self.data.len();
        (self.data, len, self.capacity)
    }
}

/// Relies on `Vec::capacity`: the number of elements the vector holds
/// without reallocating, never less than its length.
#[verifier::external_body]
fn vec_capacity<T>(v: &Vec<T>) -> (r: usize)
    ensures
        r >= v@.len(),
{
    v.capacity()
}

impl<T> From<Vec<T>> for ConstVec<T> {
    /// Adopts the vector's storage: its elements become the live elements
    /// and its capacity the fixed capacity.
    fn from(value: Vec<T>) -> (r: ConstVec<T>)
        ensures
            r.wf(),
            r@ == value@,
    {
        let capacity = vec_capacity(&value);
        ConstVec { data: value, capacity }
    }
}

// The capacity is whatever the allocator gave the vector, so no spec
// function of the vector alone pins the result: `from` states what is known.
impl<T> vstd::std_specs::convert::FromSpecImpl<Vec<T>> for ConstVec<T> {
    open spec fn obeys_from_spec() -> bool {
        false
    }

    open spec fn from_spec(v: Vec<T>) -> ConstVec<T> {
        arbitrary()
    }
}

impl<T> From<ConstVec<T>> for Vec<T> {
    /// Hands the storage over: the live elements, in order.
    fn from(value: ConstVec<T>) -> (r: Vec<T>)
        ensures
            r@ == value@,
    {
        value.data
    }
}

impl<T> vstd::std_specs::convert::FromSpecImpl<ConstVec<T>> for Vec<T> {
    open spec fn obeys_from_spec() -> bool {
        true
    }

    closed spec fn from_spec(v: ConstVec<T>) -> Vec<T> {
        v.data
    }
}

impl<T: Clone> Clone for ConstVec<T> {
    /// A new array of the same capacity holding a clone of each live element.
    fn clone(&self) -> (r: ConstVec<T>)
        ensures
            self.wf() ==> r.wf(),
            r.spec_capacity() == self.spec_capacity(),
            r@.len() == self@.len(),
            forall|i: int| 0 <= i < self@.len() ==> cloned::<T>(self@[i], #[trigger] r@[i]),
    {
        let mut data: Vec<T> = Vec::with_capacity(self.capacity);
        let mut i: usize = 0;
        while i < self.data.len()
            invariant
                i <= self.data@.len(),
                data@.len() == i,
                forall|j: int| 0 <= j < i ==> cloned::<T>(self.data@[j], #[trigger] data@[j]),
            decreases self.data@.len() - i,
        {
            let item = self.data[i].clone();
            data.push(item);
            i = i + 1;
        }
        ConstVec { data, capacity: self.capacity }
    }
}

/// Same length, and each element equal, by `T`'s equality, to the one at the
/// same position.
pub open spec fn elems_eq<T: PartialEq>(a: Seq<T>, b: Seq<T>) -> bool {
    &&& a.len() == b.len()
    &&& forall|i: int| 0 <= i < a.len() ==> (#[trigger] a[i]).eq_spec(&b[i])
}

/// Compares two slices element by element.
fn slices_eq<T: PartialEq>(a: &[T], b: &[T]) -> (r: bool)
    ensures
        T::obeys_eq_spec() ==> r == elems_eq(a@, b@),
{
    if a.len() != b.len() {
        return false;
    }
    let mut i: usize = 0;
    while i < a.len()
        invariant
            a@.len() == b@.len(),
            i <= a@.len(),
            T::obeys_eq_spec() ==> forall|j: int| 0 <= j < i ==> (#[trigger] a@[j]).eq_spec(&b@[j]),
        decreases a@.len() - i,
    {
        if !(a[i] == b[i]) {
            return false;
        }
        i = i + 1;
    }
    true
}

impl<T: PartialEq> PartialEq for ConstVec<T> {
    /// Equal when the live elements are pairwise equal; capacities are not
    /// compared.
    fn eq(&self, other: &ConstVec<T>) -> (r: bool) {
        slices_eq(self.data.as_slice(), other.data.as_slice())
    }
}

impl<T: PartialEq> vstd::std_specs::cmp::PartialEqSpecImpl for ConstVec<T> {
    open spec fn obeys_eq_spec() -> bool {
        T::obeys_eq_spec()
    }

    open spec fn eq_spec(&self, other: &ConstVec<T>) -> bool {
        elems_eq(self@, other@)
    }
}

impl<T: PartialEq> PartialEq<[T]> for ConstVec<T> {
    /// Equal when the live elements are pairwise equal to the slice's.
    fn eq(&self, other: &[T]) -> (r: bool) {
        slices_eq(self.data.as_slice(), other)
    }
}

impl<T: PartialEq> vstd::std_specs::cmp::PartialEqSpecImpl<[T]> for ConstVec<T> {
    open spec fn obeys_eq_spec() -> bool {
        T::obeys_eq_spec()
    }

    open spec fn eq_spec(&self, other: &[T]) -> bool {
        elems_eq(self@, other@)
    }
}

impl<T: PartialEq, const N: usize> PartialEq<[T; N]> for ConstVec<T> {
    /// Equal when the live elements are pairwise equal to the array's.
    fn eq(&self, other: &[T; N]) -> (r: bool) {
        slices_eq(self.data.as_slice(), other.as_slice())
    }
}

impl<T: PartialEq, const N: usize> vstd::std_specs::cmp::PartialEqSpecImpl<[T; N]> for ConstVec<T> {
    open spec fn obeys_eq_spec() -> bool {
        T::obeys_eq_spec()
    }

    open spec fn eq_spec(&self, other: &[T; N]) -> bool {
        elems_eq(self@, other@)
    }
}

impl<T> std::ops::Deref for ConstVec<T> {
    type Target = [T];

    /// The live elements as a slice.
    fn deref(&self) -> (r: &[T])
        ensures
            r@ == self@,
    {
        self.data.as_slice()
    }
}

impl<T> std::ops::DerefMut for ConstVec<T> {
    /// The live elements as a mutable slice.
    fn deref_mut(&mut self) -> (r: &mut [T])
        ensures
            r@ == old(self)@,
            final(self)@ == final(r)@,
            final(self).spec_capacity() == old(self).spec_capacity(),
    {
        self.data.as_mut_slice()
    }
}

impl<T> AsRef<[T]> for ConstVec<T> {
    fn as_ref(&self) -> (r: &[T])
        ensures
            r@ == self@,
    {
        self.data.as_slice()
    }
}

impl<T> AsMut<[T]> for ConstVec<T> {
    fn as_mut(&mut self) -> (r: &mut [T])
        ensures
            r@ == old(self)@,
            final(self)@ == final(r)@,
            final(self).spec_capacity() == old(self).spec_capacity(),
    {
        self.data.as_mut_slice()
    }
}

impl<T> std::borrow::Borrow<[T]> for ConstVec<T> {
    fn borrow(&self) -> &[T] {
        self.data.as_slice()
    }
}

impl<T> std::borrow::BorrowMut<[T]> for ConstVec<T> {
    fn borrow_mut(&mut self) -> &mut [T] {
        self.data.as_mut_slice()
    }
}

} // verus!
