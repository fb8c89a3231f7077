use super::cbox::CBox;
use crate::c_type::CCell;
use crate::pointer::{NonNullPtr, RawPtr};
use crate::traits::{CCloner, CDropped, CDropper};
use vstd::prelude::*;

verus! {

/// Owner whose teardown is carried by a policy value `D` rather than recovered
/// from `T`: the sibling of [`CBox`].
///
/// For teardown that needs runtime state, or for a second policy for one C
/// type: an element-free function picked where the pointer is wrapped, or the
/// storage-only free of an object that is still being built, which
/// [`into_box`](Self::into_box) then promotes. Its view is the address of the
/// object.
#[must_use]
pub struct CBoxWith<T: CCell, D: CDropper<T>> {
    ptr: NonNullPtr<T>,
    dropper: D,
}

impl<T: CCell, D: CDropper<T>> View for CBoxWith<T, D> {
    type V = usize;

    closed spec fn view(&self) -> usize {
        self.ptr@
    }
}

impl<T: CCell, D: CDropper<T>> CBoxWith<T, D> {
    /// The teardown policy.
    pub closed spec fn policy(self) -> D {
        self.dropper
    }

    /// Take ownership of a raw pointer together with its teardown policy;
    /// `None` if null.
    pub fn from_raw(ptr: RawPtr<T::C>, dropper: D) -> (r: Option<Self>)
        ensures
            r is Some <==> ptr@ != 0,
            r matches Some(b) ==> b@ == ptr@ && b.policy() == dropper,
    {
        match NonNullPtr::new(ptr.cast::<T>()) {
            Some(ptr) => Some(CBoxWith { ptr, dropper }),
            None => None,
        }
    }

    /// Raw pointer for passing to C. Ownership is retained.
    pub fn as_ptr(&self) -> (r: RawPtr<T::C>)
        ensures
            r@ == self@,
            r@ != 0,
    {
        self.ptr.as_ptr().cast::<T::C>()
    }

    /// Shared handle to the object.
    pub fn as_ref(&self) -> (r: T::Ref<'_>)
        ensures
            T::ref_addr(r) == self@,
    {
        T::ref_from_raw(self.ptr)
    }

    /// Exclusive handle to the object.
    pub fn as_mut(&mut self) -> (r: T::Mut<'_>)
        ensures
            T::mut_addr(r) == old(self)@,
            *final(self) == *old(self),
    {
        T::mut_from_raw(self.ptr)
    }

    /// The teardown policy.
    pub fn dropper(&self) -> (r: &D)
        ensures
            *r == self.policy(),
    {
        &self.dropper
    }

    /// Consume the owner without running the policy, returning pointer and
    /// policy; the caller becomes responsible for releasing the object.
    #[must_use]
    pub fn into_raw(self) -> (r: (RawPtr<T::C>, D))
        ensures
            r.0@ == self@,
            r.0@ != 0,
            r.1 == self.policy(),
    {
        (self.ptr.as_ptr().cast::<T::C>(), self.dropper)
    }

    /// Promote to the owner that runs `T`'s own destructor, discarding the
    /// policy. No teardown runs; the box takes over.
    pub fn into_box(self) -> (r: CBox<T>) where T: CDropped
        ensures
            r@ == self@,
    {
        CBox::from_non_null(self.ptr)
    }

    /// Release the object: run the policy's [`CDropper::c_drop`] on it, once.
    pub fn drop(self, heap: &mut D::Heap)
        requires
            self.policy().debts(*old(heap)).contains(self@),
        ensures
            self.policy().drop_step(*old(heap), self@, *final(heap)),
            self.policy().debts(*final(heap)) == self.policy().debts(*old(heap)).remove(self@),
    {
        self.dropper.c_drop(heap, self.ptr)
    }
}

impl<T: CCell, D: CCloner<T> + Clone> CBoxWith<T, D> {
    /// Whether no call of `c_clone` on this object can fail on `heap`.
    pub open spec fn clone_succeeds(self, heap: D::Heap) -> bool {
        forall|result: Option<usize>, after: D::Heap| #[trigger]
            self.policy().clone_step(heap, self@, result, after) ==> result is Some
    }

    /// Fallible clone: [`CCloner::c_clone`] together with a clone of the
    /// policy, or `None` if the C routine failed.
    ///
    /// This handle keeps its own debt either way. The clone's debt is settled by
    /// its own policy where the policy clones alike.
    pub fn try_clone(&self, heap: &mut D::Heap) -> (r: Option<Self>)
        requires
            self.policy().debts(*old(heap)).contains(self@),
        ensures
            self.policy().clone_step(*old(heap), self@, owned_address(r), *final(heap)),
            self.policy().debts(*final(heap)) == crate::traits::owing(
                self.policy().debts(*old(heap)),
                owned_address(r),
            ),
            self.policy().debts(*final(heap)).contains(self@),
            r matches Some(b) ==> cloned::<D>(self.policy(), b.policy()),
            crate::traits::clones_alike::<T, D>(self.policy()) ==> (r matches Some(b) ==> {
                &&& b.policy().debts(*final(heap)) == self.policy().debts(*final(heap))
                &&& b.policy().debts(*final(heap)).contains(b@)
            }),
    {
        match self.dropper.c_clone(heap, self.ptr) {
            Some(ptr) => Some(CBoxWith { ptr, dropper: self.dropper.clone() }),
            None => None,
        }
    }

    /// Clone where the C routine cannot fail.
    pub fn clone(&self, heap: &mut D::Heap) -> (r: Self)
        requires
            self.policy().debts(*old(heap)).contains(self@),
            self.clone_succeeds(*old(heap)),
        ensures
            self.policy().clone_step(*old(heap), self@, Some(r@), *final(heap)),
            self.policy().debts(*final(heap)) == self.policy().debts(*old(heap)).insert(r@),
            self.policy().debts(*final(heap)).contains(self@),
            cloned::<D>(self.policy(), r.policy()),
            crate::traits::clones_alike::<T, D>(self.policy()) ==> {
                &&& r.policy().debts(*final(heap)) == self.policy().debts(*final(heap))
                &&& r.policy().debts(*final(heap)).contains(r@)
            },
    {
        self.try_clone(heap).unwrap()
    }
}

/// The address that a box owns, where there is one.
pub open spec fn owned_address<T: CCell, D: CDropper<T>>(b: Option<CBoxWith<T, D>>) -> Option<
    usize,
> {
    match b {
        Some(b) => Some(b@),
        None => None,
    }
}

} // verus!
