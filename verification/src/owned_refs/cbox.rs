use crate::c_type::CCell;
use crate::pointer::{NonNullPtr, RawPtr};
use crate::traits::{CCloned, CDropped};
use vstd::prelude::*;

verus! {

/// Owner of a C-allocated object with a destructor: one unit of the object's
/// debt.
///
/// Whether it is the sole owner or one share of a refcount depends only on the
/// routines that `T` registers. Its view is the address of the object.
#[must_use]
pub struct CBox<T: CDropped + CCell> {
    ptr: NonNullPtr<T>,
}

impl<T: CDropped + CCell> View for CBox<T> {
    type V = usize;

    closed spec fn view(&self) -> usize {
        self.ptr@
    }
}

impl<T: CDropped + CCell> CBox<T> {
    /// Take ownership of a raw pointer; `None` if null.
    pub fn from_raw(ptr: RawPtr<T::C>) -> (r: Option<Self>)
        ensures
            r is Some <==> ptr@ != 0,
            r matches Some(b) ==> b@ == ptr@,
    {
        match NonNullPtr::new(ptr.cast::<T>()) {
            Some(ptr) => Some(CBox { ptr }),
            None => None,
        }
    }

    /// The owner of the object at `ptr`.
    pub(crate) fn from_non_null(ptr: NonNullPtr<T>) -> (r: Self)
        ensures
            r@ == ptr@,
    {
        CBox { ptr }
    }

    /// Raw pointer for passing to C. Ownership is retained.
    pub fn as_ptr(&self) -> (r: RawPtr<T::C>)
        ensures
            r@ == self@,
            r@ != 0,
    {
        self.ptr.as_ptr().cast::<T::C>()
    }

    /// Shared handle to the object.
    pub fn as_ref(&self) -> (r: T::Ref<'_>)
        ensures
            T::ref_addr(r) == self@,
    {
        T::ref_from_raw(self.ptr)
    }

    /// Exclusive handle to the object.
    pub fn as_mut(&mut self) -> (r: T::Mut<'_>)
        ensures
            T::mut_addr(r) == old(self)@,
            final(self)@ == old(self)@,
    {
        T::mut_from_raw(self.ptr)
    }

    /// Consume the owner without running the destructor; the caller becomes
    /// responsible for releasing the object.
    #[must_use]
    pub fn into_raw(self) -> (r: RawPtr<T::C>)
        ensures
            r@ == self@,
            r@ != 0,
    {
        self.ptr.as_ptr().cast::<T::C>()
    }

    /// Release the object: run [`CDropped::c_drop`] on it, once.
    pub fn drop(self, heap: &mut T::Heap)
        requires
            T::debts(*old(heap)).contains(self@),
        ensures
            T::drop_step(*old(heap), self@, *final(heap)),
            T::debts(*final(heap)) == T::debts(*old(heap)).remove(self@),
    {
        T::c_drop(heap, self.ptr)
    }
}

impl<T: CCloned + CCell> CBox<T> {
    /// Whether no call of `c_clone` on this object can fail on `heap`.
    pub open spec fn clone_succeeds(self, heap: T::Heap) -> bool {
        forall|result: Option<usize>, after: T::Heap| #[trigger]
            T::clone_step(heap, self@, result, after) ==> result is Some
    }

    /// Fallible clone: [`CCloned::c_clone`], or `None` if the C routine failed.
    ///
    /// On success the result holds one debt of its own; on failure nothing more
    /// is owed than before. This handle keeps its own debt either way.
    pub fn try_clone(&self, heap: &mut T::Heap) -> (r: Option<Self>)
        requires
            T::debts(*old(heap)).contains(self@),
        ensures
            T::clone_step(*old(heap), self@, owned_address(r), *final(heap)),
            T::debts(*final(heap)) == crate::traits::owing(
                T::debts(*old(heap)),
                owned_address(r),
            ),
            T::debts(*final(heap)).contains(self@),
    {
        match T::c_clone(heap, self.ptr) {
            Some(ptr) => Some(CBox { ptr }),
            None => None,
        }
    }

    /// Clone where the C routine cannot fail.
    pub fn clone(&self, heap: &mut T::Heap) -> (r: Self)
        requires
            T::debts(*old(heap)).contains(self@),
            self.clone_succeeds(*old(heap)),
        ensures
            T::clone_step(*old(heap), self@, Some(r@), *final(heap)),
            T::debts(*final(heap)) == T::debts(*old(heap)).insert(r@),
            T::debts(*final(heap)).contains(self@),
    {
        self.try_clone(heap).unwrap()
    }
}

/// The address that a box owns, where there is one.
pub open spec fn owned_address<T: CDropped + CCell>(b: Option<CBox<T>>) -> Option<usize> {
    match b {
        Some(b) => Some(b@),
        None => None,
    }
}

} // verus!
