use crate::borrowed_refs::{CSlice, CSliceMut};
use crate::c_type::CCell;
use crate::pointer::{NonNullPtr, RawPtr};
use crate::region::CRegion;
use crate::traits::{CElem, CLenCloned, CLenDropped};
use core::marker::PhantomData;
use vstd::prelude::*;

verus! {

/// Owner of a C-allocated array with a known element count, released by the
/// strategy `S` with the total byte length.
///
/// A pointer and a count: unlike [`CBox`](crate::CBox) it does not stand in for
/// a bare pointer.
#[must_use]
pub struct CVec<T, S: CLenDropped> {
    ptr: NonNullPtr<T>,
    count: usize,
    _strategy: PhantomData<S>,
}

/// The size in bytes of `count` elements of type `T`, as C computes it: modulo
/// the range of `size_t`.
pub open spec fn byte_size<T>(count: usize) -> usize {
    ((count * vstd::layout::size_of::<T>()) % (usize::MAX + 1)) as usize
}

/// A size that fits is not reduced.
pub proof fn lemma_byte_size_exact<T>(count: usize)
    ensures
        count * vstd::layout::size_of::<T>() <= usize::MAX ==> byte_size::<T>(count) == count
            * vstd::layout::size_of::<T>(),
{
    let n = count * vstd::layout::size_of::<T>();
    assert(0 <= n) by {
        assert(0 <= count * vstd::layout::size_of::<T>()) by (nonlinear_arith);
    }
    if n <= usize::MAX {
        vstd::arithmetic::div_mod::lemma_small_mod(n as nat, (usize::MAX + 1) as nat);
    }
}

impl<T, S: CLenDropped> CVec<T, S> {
    /// The address of the first element.
    pub closed spec fn start(self) -> usize {
        self.ptr@
    }

    /// The number of elements.
    pub closed spec fn length(self) -> usize {
        self.count
    }

    /// The buffer as the ledger of `S` lists it: address and byte length.
    pub open spec fn debt(self) -> (usize, usize) {
        (self.start(), byte_size::<T>(self.length()))
    }

    /// Whether the elements of this buffer are elements of `region`.
    pub open spec fn within(self, region: CRegion<T>) -> bool {
        region.holds(self.start(), self.length() as nat)
    }

    /// What `region` holds in the place of this buffer.
    pub open spec fn contents(self, region: CRegion<T>) -> Seq<T> {
        region.run(self.start(), self.length() as nat)
    }

    /// Take ownership of the array of `count` elements at `ptr`; `None` if null.
    pub fn from_raw_parts(ptr: RawPtr<T>, count: usize) -> (r: Option<Self>)
        ensures
            r is Some <==> ptr@ != 0,
            r matches Some(v) ==> v.start() == ptr@ && v.length() == count,
    {
        match NonNullPtr::new(ptr) {
            Some(ptr) => Some(CVec { ptr, count, _strategy: PhantomData }),
            None => None,
        }
    }

    /// Raw pointer to the first element. Ownership is retained.
    pub fn as_ptr(&self) -> (r: RawPtr<T>)
        ensures
            r@ == self.start(),
            r@ != 0,
    {
        self.ptr.as_ptr()
    }

    /// Number of elements.
    pub fn count(&self) -> (r: usize)
        ensures
            r == self.length(),
    {
        self.count
    }

    /// Whether the buffer holds no element.
    pub fn is_empty(&self) -> (r: bool)
        ensures
            r == (self.length() == 0),
    {
        self.count == 0
    }

    /// Total size in bytes.
    pub fn byte_len(&self) -> (r: usize)
        ensures
            r == byte_size::<T>(self.length()),
            self.length() * vstd::layout::size_of::<T>() <= usize::MAX ==> r == self.length()
                * vstd::layout::size_of::<T>(),
    {
        proof {
            lemma_byte_size_exact::<T>(self.count);
        }
        self.count.wrapping_mul(core::mem::size_of::<T>())
    }

    /// Consume the owner without running cleanup, returning pointer and count;
    /// the caller becomes responsible for releasing the array.
    #[must_use]
    pub fn into_raw_parts(self) -> (r: (RawPtr<T>, usize))
        ensures
            r.0@ == self.start(),
            r.0@ != 0,
            r.1 == self.length(),
    {
        (self.ptr.as_ptr(), self.count)
    }

    /// Release the array: run [`CLenDropped::c_drop_len`] on it, once, with its
    /// byte length.
    pub fn drop(self, heap: &mut S::Heap)
        requires
            S::debts(*old(heap)).contains(self.debt()),
        ensures
            S::drop_step(*old(heap), self.debt().0, self.debt().1, *final(heap)),
            S::debts(*final(heap)) == S::debts(*old(heap)).remove(self.debt()),
    {
        let byte_len: usize = self.byte_len();
        S::c_drop_len(heap, self.ptr.as_ptr().cast::<u8>(), byte_len)
    }
}

/// A buffer of plain values is viewed as a slice.
impl<T: CElem, S: CLenDropped> CVec<T, S> {
    /// The elements, as `region` holds them.
    pub fn as_slice<'m>(&'m self, region: &'m CRegion<T>) -> (r: &'m [T])
        requires
            self.within(*region),
        ensures
            r@ == self.contents(*region),
    {
        region.slice(self.ptr.as_ptr(), self.count)
    }

    /// The elements, exclusively: what is written lands in this buffer's place
    /// of `region` and nowhere else.
    pub fn as_mut_slice<'m>(&'m mut self, region: &'m mut CRegion<T>) -> (r: &'m mut [T])
        requires
            old(self).within(*old(region)),
        ensures
            r@ == old(self).contents(*old(region)),
            final(r)@.len() == old(self).length() ==> final(region).replaces(
                *old(region),
                old(self).start(),
                final(r)@,
            ),
            *final(self) == *old(self),
    {
        region.slice_mut(self.ptr.as_ptr(), self.count)
    }
}

/// A buffer of wrapped C objects is viewed as per-element handles.
impl<T: CCell, S: CLenDropped> CVec<T, S> {
    /// The run of objects, shared.
    pub fn as_handles(&self) -> (r: CSlice<'_, T>)
        requires
            crate::pointer::fits::<T>(self.start(), self.length() as nat),
        ensures
            r.start() == self.start(),
            r.count() == self.length(),
    {
        CSlice::from_raw_parts(self.ptr, self.count)
    }

    /// The run of objects, exclusively.
    pub fn as_handles_mut(&mut self) -> (r: CSliceMut<'_, T>)
        requires
            crate::pointer::fits::<T>(old(self).start(), old(self).length() as nat),
        ensures
            r.start() == old(self).start(),
            r.count() == old(self).length(),
            *final(self) == *old(self),
    {
        CSliceMut::from_raw_parts(self.ptr, self.count)
    }
}

impl<T, S: CLenCloned> CVec<T, S> {
    /// Whether no call of `c_clone_len` on this buffer can fail on `heap`.
    pub open spec fn clone_succeeds(self, heap: S::Heap) -> bool {
        forall|result: Option<usize>, after: S::Heap| #[trigger]
            S::clone_step(heap, self.debt().0, self.debt().1, result, after) ==> result is Some
    }

    /// Fallible deep clone: a copy of the bytes through
    /// [`CLenCloned::c_clone_len`], or `None` if the C routine failed.
    ///
    /// The copy is a buffer apart, has the same count and the same bytes and owes
    /// a release of its own; this buffer keeps its bytes and its debt either way.
    pub fn try_clone(&self, heap: &mut S::Heap) -> (r: Option<Self>)
        requires
            S::debts(*old(heap)).contains(self.debt()),
        ensures
            S::clone_step(
                *old(heap),
                self.debt().0,
                self.debt().1,
                owned_address(r),
                *final(heap),
            ),
            r matches Some(v) ==> v.length() == self.length(),
            r matches Some(v) ==> crate::traits::is_fresh(
                S::debts(*old(heap)),
                v.debt().0,
                v.debt().1,
            ),
            r matches Some(v) ==> (v.debt().1 > 0 ==> v.start() != self.start()),
            S::debts(*final(heap)) == crate::traits::owing_len(
                S::debts(*old(heap)),
                owned_address(r),
                self.debt().1,
            ),
            S::debts(*final(heap)).contains(self.debt()),
            S::bytes(*final(heap), self.debt().0, self.debt().1) == S::bytes(
                *old(heap),
                self.debt().0,
                self.debt().1,
            ),
            r matches Some(v) ==> S::bytes(*final(heap), v.debt().0, v.debt().1) == S::bytes(
                *old(heap),
                self.debt().0,
                self.debt().1,
            ),
    {
        let byte_len: usize = self.byte_len();
        match S::c_clone_len(heap, self.ptr.as_ptr().cast::<u8>(), byte_len) {
            Some(ptr) => Some(
                CVec { ptr: ptr.cast::<T>(), count: self.count, _strategy: PhantomData },
            ),
            None => None,
        }
    }

    /// Clone where the C routine cannot fail.
    pub fn clone(&self, heap: &mut S::Heap) -> (r: Self)
        requires
            S::debts(*old(heap)).contains(self.debt()),
            self.clone_succeeds(*old(heap)),
        ensures
            S::clone_step(
                *old(heap),
                self.debt().0,
                self.debt().1,
                Some(r.start()),
                *final(heap),
            ),
            r.length() == self.length(),
            crate::traits::is_fresh(S::debts(*old(heap)), r.debt().0, r.debt().1),
            r.debt().1 > 0 ==> r.start() != self.start(),
            S::debts(*final(heap)) == S::debts(*old(heap)).insert(r.debt()),
            S::debts(*final(heap)).contains(self.debt()),
            S::bytes(*final(heap), self.debt().0, self.debt().1) == S::bytes(
                *old(heap),
                self.debt().0,
                self.debt().1,
            ),
            S::bytes(*final(heap), r.debt().0, r.debt().1) == S::bytes(
                *old(heap),
                self.debt().0,
                self.debt().1,
            ),
    {
        self.try_clone(heap).unwrap()
    }
}

/// The address of a buffer, where there is one.
pub open spec fn owned_address<T, S: CLenDropped>(v: Option<CVec<T, S>>) -> Option<usize> {
    match v {
        Some(v) => Some(v.start()),
        None => None,
    }
}

} // verus!
