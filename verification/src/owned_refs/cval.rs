use crate::c_type::CCell;
use crate::pointer::{NonNullPtr, RawPtr};
use crate::region::CRegion;
use crate::traits::CValued;
use vstd::prelude::*;

verus! {

/// By-value owner of a [`CValued`] type: holds `T` inline, and disposes its
/// resources when released.
///
/// The inline counterpart of [`CBox`](crate::CBox). Its view is the value.
#[must_use]
pub struct CVal<T: CValued + CCell> {
    inner: T,
}

impl<T: CValued + CCell> View for CVal<T> {
    type V = T;

    closed spec fn view(&self) -> T {
        self.inner
    }
}

impl<T: CValued + CCell> CVal<T> {
    /// Wrap an already-constructed value.
    pub fn new(inner: T) -> (r: Self)
        ensures
            r@ == inner,
    {
        CVal { inner }
    }

    /// Shared handle to the value, where it lies now.
    ///
    /// The value lies in Rust's storage, so its address is the machine's to
    /// choose.
    pub fn as_ref(&self) -> (r: T::Ref<'_>)
        ensures
            crate::pointer::lies_at(self@, T::ref_addr(r)),
            T::ref_addr(r) != 0,
            crate::pointer::fits::<T>(T::ref_addr(r), 1),
            crate::pointer::aligned::<T>(T::ref_addr(r)),
    {
        let p = crate::pointer::pointer_to(&self.inner);
        T::ref_from_raw(p)
    }

    /// Exclusive handle to the value, where it lies now: for a C routine that
    /// initialises it in place.
    ///
    /// What C writes through the handle is not known here, so nothing is known
    /// of the value afterwards.
    pub fn as_mut(&mut self) -> (r: T::Mut<'_>)
        ensures
            crate::pointer::lies_at(old(self)@, T::mut_addr(r)),
            T::mut_addr(r) != 0,
            crate::pointer::fits::<T>(T::mut_addr(r), 1),
            crate::pointer::aligned::<T>(T::mut_addr(r)),
    {
        let p = crate::pointer::pointer_to_mut(&mut self.inner);
        T::mut_from_raw(p)
    }

    /// The value itself.
    pub fn get(&self) -> (r: &T)
        ensures
            *r == self@,
    {
        &self.inner
    }

    /// The value itself, exclusively.
    pub fn get_mut(&mut self) -> (r: &mut T)
        ensures
            *r == old(self)@,
            final(self)@ == *final(r),
    {
        &mut self.inner
    }

    /// Release the value: run [`CValued::c_dispose`] on it, once, and give up
    /// the header with it.
    pub fn drop(self, heap: &mut T::Heap)
        requires
            T::is_live(*old(heap), self@),
        ensures
            exists|to: T| #[trigger] T::dispose_step(*old(heap), self@, *final(heap), to),
    {
        let mut inner = self.inner;
        T::c_dispose(heap, &mut inner);
    }
}

/// In-place dispose guard over a value that it does not own: an embedded
/// sub-object whose header belongs to a parent.
///
/// Released, it runs [`CValued::c_dispose`] in place; dismissed, it leaves the
/// value as it is. Either way the value stays where it is.
#[must_use]
pub struct CValGuard<'a, T: CValued + CCell> {
    /// The guarded value.
    pub value: &'a mut T,
    /// Where the guarded value lies.
    pub place: Place<T>,
}

/// Where a guarded value lies. Only arming a guard makes one.
///
/// Its view is the address.
pub struct Place<T> {
    ptr: NonNullPtr<T>,
}

impl<T> View for Place<T> {
    type V = usize;

    closed spec fn view(&self) -> usize {
        self.ptr@
    }
}

impl<'a, T: CValued + CCell> CValGuard<'a, T> {
    /// Arm a guard over a borrowed, embedded value.
    pub fn new(value: &'a mut T) -> (r: Self)
        ensures
            *r.value == *old(value),
            *final(r.value) == *final(value),
            crate::pointer::lies_at(*old(value), r.place@),
            r.place@ != 0,
            crate::pointer::fits::<T>(r.place@, 1),
            crate::pointer::aligned::<T>(r.place@),
    {
        let ptr = crate::pointer::pointer_to(&*value);
        CValGuard { value, place: Place { ptr } }
    }

    /// Arm a guard over the value at `ptr`, an element of `region`; `None` if
    /// `ptr` is null.
    pub fn from_ptr(region: &'a mut CRegion<T>, ptr: RawPtr<T>) -> (r: Option<Self>)
        requires
            ptr@ != 0 ==> old(region).holds(ptr@, 1),
        ensures
            r is Some <==> ptr@ != 0,
            r matches Some(g) ==> {
                &&& g.place@ == ptr@
                &&& *g.value == old(region).run(ptr@, 1)[0]
                &&& final(region).replaces(*old(region), ptr@, seq![*final(g.value)])
            },
            r is None ==> *final(region) == *old(region),
    {
        match NonNullPtr::new(ptr) {
            Some(p) => Some(CValGuard { value: region.get_mut(ptr), place: Place { ptr: p } }),
            None => None,
        }
    }

    /// Shared handle to the guarded value.
    pub fn as_ref(&self) -> (r: T::Ref<'_>)
        ensures
            T::ref_addr(r) == self.place@,
    {
        T::ref_from_raw(self.place.ptr)
    }

    /// The guarded value itself.
    pub fn get(&self) -> (r: &T)
        ensures
            *r == *old(self.value),
    {
        &*self.value
    }

    /// Cancel the disposal, leaving the value intact for its owner.
    pub fn dismiss(self)
        ensures
            *final(self.value) == *old(self.value),
    {
    }

    /// Release the guard: run [`CValued::c_dispose`] on the value, once, in
    /// place.
    pub fn drop(self, heap: &mut T::Heap)
        requires
            T::is_live(*old(heap), *self.value),
        ensures
            T::dispose_step(*old(heap), *old(self.value), *final(heap), *final(self.value)),
    {
        T::c_dispose(heap, self.value)
    }
}

} // verus!
