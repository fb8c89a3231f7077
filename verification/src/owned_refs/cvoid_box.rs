use crate::pointer::{CVoid, NonNullPtr, RawPtr};
use crate::traits::CDropped;
use core::marker::PhantomData;
use vstd::prelude::*;

verus! {

/// Owner of a type-erased C pointer (`void *`), freed by the deleter class `D`.
///
/// `D` is not the pointee: it names the destructor class, so two erased
/// pointers freed by the same routine share one `D`. Its view is the address.
#[must_use]
pub struct CVoidBox<D: CDropped> {
    ptr: NonNullPtr<CVoid>,
    _deleter: PhantomData<D>,
}

impl<D: CDropped> View for CVoidBox<D> {
    type V = usize;

    closed spec fn view(&self) -> usize {
        self.ptr@
    }
}

impl<D: CDropped> CVoidBox<D> {
    /// Take ownership of a raw `void *`; `None` if null.
    pub fn from_raw(ptr: RawPtr<CVoid>) -> (r: Option<Self>)
        ensures
            r is Some <==> ptr@ != 0,
            r matches Some(b) ==> b@ == ptr@,
    {
        match NonNullPtr::new(ptr) {
            Some(ptr) => Some(CVoidBox { ptr, _deleter: PhantomData }),
            None => None,
        }
    }

    /// The erased pointer, for passing to C. Ownership is retained.
    pub fn as_ptr(&self) -> (r: RawPtr<CVoid>)
        ensures
            r@ == self@,
            r@ != 0,
    {
        self.ptr.as_ptr()
    }

    /// Consume the owner without running the destructor; the caller becomes
    /// responsible for releasing the allocation.
    #[must_use]
    pub fn into_raw(self) -> (r: RawPtr<CVoid>)
        ensures
            r@ == self@,
            r@ != 0,
    {
        self.ptr.as_ptr()
    }

    /// Release the allocation: run `D`'s [`CDropped::c_drop`] on its address,
    /// once.
    pub fn drop(self, heap: &mut D::Heap)
        requires
            D::debts(*old(heap)).contains(self@),
        ensures
            D::drop_step(*old(heap), self@, *final(heap)),
            D::debts(*final(heap)) == D::debts(*old(heap)).remove(self@),
    {
        D::c_drop(heap, self.ptr.cast::<D>())
    }
}

} // verus!
