use super::cbox::CBox;
use crate::c_type::CCell;
use crate::pointer::{NonNullPtr, RawPtr};
use crate::traits::{CDropped, Owner};
use std::sync::Arc;
use vstd::prelude::*;

verus! {

/// An owner token: holds a C object alive and gives no access to it.
///
/// The owner half of a [`CTethered`] view. Its view is the address of the
/// object that it keeps.
#[must_use]
pub struct CKeepalive<T: CDropped + CCell> {
    held: CBox<T>,
}

impl<T: CDropped + CCell> View for CKeepalive<T> {
    type V = usize;

    closed spec fn view(&self) -> usize {
        self.held@
    }
}

impl<T: CDropped + CCell> CKeepalive<T> {
    /// Keep the object of `held` alive.
    pub fn new(held: CBox<T>) -> (r: Self)
        ensures
            r@ == held@,
    {
        CKeepalive { held }
    }

    /// Release the object: run [`CDropped::c_drop`] on it, once.
    pub fn drop(self, heap: &mut T::Heap)
        requires
            T::debts(*old(heap)).contains(self@),
        ensures
            T::drop_step(*old(heap), self@, *final(heap)),
            T::debts(*final(heap)) == T::debts(*old(heap)).remove(self@),
    {
        self.held.drop(heap)
    }
}

impl<T: CDropped + CCell> Owner for CKeepalive<T> {
    type Heap = T::Heap;

    open spec fn owes(self, heap: T::Heap) -> bool {
        T::debts(heap).contains(self@)
    }

    open spec fn release_step(self, before: T::Heap, after: T::Heap) -> bool {
        &&& T::drop_step(before, self@, after)
        &&& T::debts(after) == T::debts(before).remove(self@)
    }

    fn release(self, heap: &mut T::Heap)
        ensures
            T::drop_step(*old(heap), self@, *final(heap)),
            T::debts(*final(heap)) == T::debts(*old(heap)).remove(self@),
    {
        self.drop(heap)
    }
}

/// A share of an owner. The last share to be released releases the owner; any
/// other leaves everything as it is.
impl<O: Owner> Owner for Arc<O> {
    type Heap = O::Heap;

    open spec fn owes(self, heap: O::Heap) -> bool {
        (*self).owes(heap)
    }

    open spec fn release_step(self, before: O::Heap, after: O::Heap) -> bool {
        exists|last: Option<O>| #[trigger]
            call_ensures(give_up_share::<O>, (self,), last) && match last {
                Some(owner) => owner == *self && owner.release_step(before, after),
                None => after == before,
            }
    }

    fn release(self, heap: &mut O::Heap)
        ensures
            exists|last: Option<O>| #[trigger]
                call_ensures(give_up_share::<O>, (self,), last) && match last {
                    Some(owner) => owner == *self && owner.release_step(
                        *old(heap),
                        *final(heap),
                    ),
                    None => *final(heap) == *old(heap),
                },
    {
        release_last(crate::call::apply(give_up_share::<O>, self), heap)
    }
}

/// Give up one share of an owner. The last share hands the owner back, to be
/// released; where another share remains, nothing is left to do.
///
/// Several views of one owner are let go of one at a time: recover the share of
/// each, give it up, and hand what comes back to [`release_last`].
pub fn give_up_share<O>(share: Arc<O>) -> (r: Option<O>)
    ensures
        handed_back(share, r),
        r matches Some(owner) ==> owner == *share,
{
    crate::call::apply(into_inner::<O>, share)
}

/// Whether taking the owner out of `share` may give `last`.
pub closed spec fn handed_back<O>(share: Arc<O>, last: Option<O>) -> bool {
    call_ensures(into_inner::<O>, (share,), last)
}

/// What is handed back is what taking the owner out of the share gave.
pub(crate) proof fn lemma_handed_back<O>(share: Arc<O>, last: Option<O>)
    ensures
        handed_back(share, last) <==> call_ensures(into_inner::<O>, (share,), last),
{
}

/// Release the owner that giving up a share handed back; where it handed none
/// back, another share remains and nothing happens.
pub fn release_last<O: Owner>(last: Option<O>, heap: &mut O::Heap)
    requires
        last matches Some(owner) ==> owner.owes(*old(heap)),
    ensures
        last matches Some(owner) ==> owner.release_step(*old(heap), *final(heap)),
        last is None ==> *final(heap) == *old(heap),
{
    match last {
        Some(owner) => owner.release(heap),
        None => {},
    }
}

/// `std::sync::Arc::into_inner`: gives up one share, and hands the shared value
/// back if that was the last one. Whether it was depends on the other shares
/// and is not described.
#[verifier::external_body]
pub(crate) fn into_inner<O>(share: Arc<O>) -> (r: Option<O>)
    ensures
        r matches Some(owner) ==> owner == *share,
{
    Arc::into_inner(share)
}

/// A view into an object that something else owns, together with the owner that
/// keeps it alive.
///
/// For a child that lives inside its parent's allocation and must outlive the
/// borrow that produced it. The child is reached as a handle and never torn
/// down; releasing the view releases the owner. Its view is the address of the
/// child.
#[must_use]
pub struct CTethered<T: CCell, O: Owner> {
    ptr: NonNullPtr<T>,
    owner: O,
}

impl<T: CCell, O: Owner> View for CTethered<T, O> {
    type V = usize;

    closed spec fn view(&self) -> usize {
        self.ptr@
    }
}

impl<T: CCell, O: Owner> CTethered<T, O> {
    /// The owner that is held.
    pub closed spec fn holder(self) -> O {
        self.owner
    }

    /// Tether the object at `ptr` to `owner`. `None` if `ptr` is null, and the
    /// owner is released.
    pub fn from_raw(heap: &mut O::Heap, ptr: RawPtr<T::C>, owner: O) -> (r: Option<Self>)
        requires
            ptr@ == 0 ==> owner.owes(*old(heap)),
        ensures
            r is Some <==> ptr@ != 0,
            r matches Some(t) ==> t@ == ptr@ && t.holder() == owner && *final(heap) == *old(heap),
            r is None ==> owner.release_step(*old(heap), *final(heap)),
    {
        match NonNullPtr::new(ptr.cast::<T>()) {
            Some(ptr) => Some(CTethered { ptr, owner }),
            None => {
                owner.release(heap);
                None
            },
        }
    }

    /// Raw pointer to the object, for passing to C.
    pub fn as_ptr(&self) -> (r: RawPtr<T::C>)
        ensures
            r@ == self@,
            r@ != 0,
    {
        self.ptr.as_ptr().cast::<T::C>()
    }

    /// Shared handle to the object.
    pub fn as_ref(&self) -> (r: T::Ref<'_>)
        ensures
            T::ref_addr(r) == self@,
    {
        T::ref_from_raw(self.ptr)
    }

    /// The owner.
    pub fn owner(&self) -> (r: &O)
        ensures
            *r == self.holder(),
    {
        &self.owner
    }

    /// Give up the view and recover the owner, releasing nothing.
    pub fn into_owner(self) -> (r: O)
        ensures
            r == self.holder(),
    {
        self.owner
    }

    /// Release the view, and the owner with it.
    pub fn drop(self, heap: &mut O::Heap)
        requires
            self.holder().owes(*old(heap)),
        ensures
            self.holder().release_step(*old(heap), *final(heap)),
    {
        self.owner.release(heap)
    }
}

} // verus!
