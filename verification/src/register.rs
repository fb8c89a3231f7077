//! Binding C routines to the lifecycle traits.
//!
//! A C library names its duplication in one of two shapes. A `*_dup` returns a
//! new pointer, null on failure; an `*_up_ref` bumps a count, and the pointer to
//! keep is the one it was called on. Which of the two a type uses is chosen
//! where its [`CCloned`](crate::CCloned) is implemented; these functions turn
//! either result into the one that trait returns.
use crate::c_type::CCell;
use crate::pointer::{NonNullPtr, RawPtr};
use vstd::prelude::*;

verus! {

/// The C object behind the wrapper at `obj`, as its C routines take it.
pub fn c_object<T: CCell>(obj: NonNullPtr<T>) -> (r: RawPtr<T::C>)
    ensures
        r@ == obj@,
        r@ != 0,
{
    obj.as_ptr().cast::<T::C>()
}

/// What a `*_dup` that returned `dup` means: a new handle, or failure where it
/// returned null.
pub fn dup_result<T: CCell>(dup: RawPtr<T::C>) -> (r: Option<NonNullPtr<T>>)
    ensures
        crate::traits::address_of(r) == (if dup@ == 0 {
            None
        } else {
            Some(dup@)
        }),
{
    NonNullPtr::new(dup.cast::<T>())
}

/// What an `*_up_ref` on `obj` means: one more handle to the same object.
///
/// Whatever the routine returned is discarded. One that can fail is told apart
/// by its caller.
pub fn up_ref_result<T, U>(obj: NonNullPtr<T>, _status: U) -> (r: Option<NonNullPtr<T>>)
    ensures
        r == Some(obj),
{
    Some(obj)
}

} // verus!
