use super::cbox::CBox;
use crate::c_type::CCell;
use crate::pointer::{NonNullPtr, RawPtr};
use crate::traits::{CDropped, CDroppedUninit};
use crate::uninit::CUninit;
use vstd::prelude::*;

verus! {

/// Owner of an allocated slot that does not hold a valid `T` yet.
///
/// Released, it runs the storage-only
/// [`CDroppedUninit::c_drop_uninit`], never the destructor of a formed object.
/// Promoted with [`assume_init`](Self::assume_init), it becomes a [`CBox`],
/// which runs the full one. Its view is the address of the slot.
#[must_use]
pub struct CBoxUninit<T: CDroppedUninit + CCell> {
    ptr: NonNullPtr<T>,
}

impl<T: CDroppedUninit + CCell> View for CBoxUninit<T> {
    type V = usize;

    closed spec fn view(&self) -> usize {
        self.ptr@
    }
}

impl<T: CDroppedUninit + CCell> CBoxUninit<T> {
    /// Take ownership of a freshly allocated slot; `None` if null.
    pub fn from_raw_uninit(ptr: RawPtr<CUninit<T>>) -> (r: Option<Self>)
        ensures
            r is Some <==> ptr@ != 0,
            r matches Some(b) ==> b@ == ptr@,
    {
        match NonNullPtr::new(ptr.cast::<T>()) {
            Some(ptr) => Some(CBoxUninit { ptr }),
            None => None,
        }
    }

    /// Raw pointer to the slot. Ownership is retained.
    pub fn as_ptr(&self) -> (r: RawPtr<T>)
        ensures
            r@ == self@,
            r@ != 0,
    {
        self.ptr.as_ptr()
    }

    /// Shared handle to the slot. A field that was not written yet must not be
    /// read through it.
    pub fn as_ref(&self) -> (r: T::Ref<'_>)
        ensures
            T::ref_addr(r) == self@,
    {
        T::ref_from_raw(self.ptr)
    }

    /// Raw pointer to the slot, for in-place initialisation.
    pub fn as_mut_ptr(&mut self) -> (r: RawPtr<T>)
        ensures
            r@ == old(self)@,
            r@ != 0,
            *final(self) == *old(self),
    {
        self.ptr.as_ptr()
    }

    /// Exclusive handle to the slot, for initialising it field by field.
    pub fn as_mut(&mut self) -> (r: T::Mut<'_>)
        ensures
            T::mut_addr(r) == old(self)@,
            final(self)@ == old(self)@,
    {
        T::mut_from_raw(self.ptr)
    }

    /// Consume the owner, asserting that the slot now holds a valid `T`. No
    /// teardown runs; the box takes over.
    pub fn assume_init(self) -> (r: CBox<T>) where T: CDropped
        ensures
            r@ == self@,
    {
        CBox::from_non_null(self.ptr)
    }

    /// Consume the owner and return the pointer, running no cleanup; the
    /// caller becomes responsible for freeing the allocation.
    #[must_use]
    pub fn into_raw_uninit(self) -> (r: RawPtr<CUninit<T>>)
        ensures
            r@ == self@,
            r@ != 0,
    {
        self.ptr.as_ptr().cast::<CUninit<T>>()
    }

    /// Release the slot: run [`CDroppedUninit::c_drop_uninit`] on it, once.
    pub fn drop(self, heap: &mut <T as CDroppedUninit>::Heap)
        requires
            T::slots(*old(heap)).contains(self@),
        ensures
            T::free_step(*old(heap), self@, *final(heap)),
            T::slots(*final(heap)) == T::slots(*old(heap)).remove(self@),
    {
        T::c_drop_uninit(heap, self.ptr)
    }
}

} // verus!
