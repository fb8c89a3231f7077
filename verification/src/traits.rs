//! Lifecycle contracts: what teardown and duplication mean for a wrapped C
//! type. The owners in [`owned_refs`](crate::owned_refs) consume these as
//! bounds.
//!
//! | Trait | Registers | Enables |
//! |-------|-----------|---------|
//! | [`CDropped`] | `c_drop`: a `*_free` or a down-ref | `CBox`, `CVoidBox`, `CrustifyStr` |
//! | [`CCloned`] | `c_clone`: a `*_dup` or an `up_ref` | `try_clone` on them |
//! | [`CDroppedUninit`] | `c_drop_uninit`: storage-only free | `CBoxUninit` |
//! | [`CValued`] | `c_dispose`: dispose fields, keep the header | `CVal`, `CValGuard` |
//! | [`CLenDropped`] / [`CLenCloned`] | the same pair for a counted buffer | `CVec` |
//! | [`CDropper`] / [`CCloner`] | the same pair with runtime state | `CBoxWith` |
//! | [`Owner`] | `release`: let go of an object held alive | `CTethered` |
//!
//! Exclusive and refcounted ownership differ only in which C routine is
//! registered, not in the handle type.
//!
//! # Debt
//!
//! A routine works on a heap: the part of the C side that it reads and writes.
//! Ownership is a ledger of debts on that heap, a multiset with one entry for
//! every teardown that is still owed. A fresh object adds an entry under its
//! address, a refcount bump adds one more under the same address, and every
//! teardown settles one. An owner holds exactly one entry.
//!
//! Each implementor also describes its own routine, by a relation between the
//! heap before the call and the heap after it. An owner that promises the
//! relation promises that the routine ran once, on its pointer, and that
//! nothing else happened to the heap. Ledgers and relations have no meaning
//! until an implementor gives them one, so nothing can be proved of a routine
//! that leaves them out.
use crate::pointer::{NonNullPtr, RawPtr};
use vstd::multiset::Multiset;
use vstd::prelude::*;

verus! {

/// Destructor for a C-allocated type; the bound that
/// [`CBox`](crate::CBox) releases through.
///
/// `c_drop` settles one unit of ownership debt: a plain `*_free`, a generic
/// allocator free, or the down-ref of a shared type. A destructor that must be
/// suppressed on some paths tests for them inside `c_drop`.
pub trait CDropped: Sized {
    /// The part of the C side that the routines work on.
    type Heap;

    /// The debts outstanding on `heap`, by address.
    open spec fn debts(heap: Self::Heap) -> Multiset<usize> {
        arbitrary()
    }

    /// What one call of `c_drop` on the object at `obj` may do.
    open spec fn drop_step(before: Self::Heap, obj: usize, after: Self::Heap) -> bool {
        arbitrary()
    }

    /// Release the object, settling one unit of its debt.
    fn c_drop(heap: &mut Self::Heap, obj: NonNullPtr<Self>)
        requires
            Self::debts(*old(heap)).contains(obj@),
        ensures
            Self::drop_step(*old(heap), obj@, *final(heap)),
            Self::debts(*final(heap)) == Self::debts(*old(heap)).remove(obj@),
    ;
}

/// Handle duplication; the bound that gives [`CBox`](crate::CBox) its
/// `try_clone` and `clone`.
///
/// The contract is stated in debt, not in allocation, and so covers both of C's
/// mechanisms: a `*_dup` returns a new pointer, an `up_ref` the same one.
/// Either way the result owes one `c_drop` of its own.
pub trait CCloned: CDropped {
    /// What one call of `c_clone` on the object at `obj` may do, and return.
    open spec fn clone_step(
        before: Self::Heap,
        obj: usize,
        result: Option<usize>,
        after: Self::Heap,
    ) -> bool {
        arbitrary()
    }

    /// Duplicate the handle to the object at `obj`; `None` if the C routine
    /// failed, in which case nothing more is owed than before.
    fn c_clone(heap: &mut Self::Heap, obj: NonNullPtr<Self>) -> (r: Option<NonNullPtr<Self>>)
        requires
            Self::debts(*old(heap)).contains(obj@),
        ensures
            Self::clone_step(*old(heap), obj@, address_of(r), *final(heap)),
            Self::debts(*final(heap)) == owing(Self::debts(*old(heap)), address_of(r)),
    ;
}

/// Storage-only release for an object that is not formed yet: frees the
/// allocation and never touches a field.
pub trait CDroppedUninit: Sized {
    /// The part of the C side that the allocator works on.
    type Heap;

    /// The addresses of the slots that are allocated on `heap`.
    open spec fn slots(heap: Self::Heap) -> Set<usize> {
        arbitrary()
    }

    /// What one call of `c_drop_uninit` on the slot at `obj` may do.
    open spec fn free_step(before: Self::Heap, obj: usize, after: Self::Heap) -> bool {
        arbitrary()
    }

    /// Free the raw storage at `obj`, running no field cleanup.
    fn c_drop_uninit(heap: &mut Self::Heap, obj: NonNullPtr<Self>)
        requires
            Self::slots(*old(heap)).contains(obj@),
        ensures
            Self::free_step(*old(heap), obj@, *final(heap)),
            Self::slots(*final(heap)) == Self::slots(*old(heap)).remove(obj@),
    ;
}

/// Teardown for a C type that Rust holds by value: disposes owned resources and
/// leaves the header, which is Rust's own storage, in place.
pub trait CValued: Sized {
    /// The part of the C side that the resources live on.
    type Heap;

    /// Whether `value` is initialised, its resources live on `heap`.
    open spec fn is_live(heap: Self::Heap, value: Self) -> bool {
        arbitrary()
    }

    /// What one call of `c_dispose` may do, to the heap and to the header.
    open spec fn dispose_step(before: Self::Heap, from: Self, after: Self::Heap, to: Self) -> bool {
        arbitrary()
    }

    /// Dispose the owned resources, in place.
    fn c_dispose(heap: &mut Self::Heap, this: &mut Self)
        requires
            Self::is_live(*old(heap), *old(this)),
        ensures
            Self::dispose_step(*old(heap), *old(this), *final(heap), *final(this)),
    ;
}

/// Cleanup strategy for a counted buffer; the bound that
/// [`CVec`](crate::CVec) releases through.
///
/// Implemented on a strategy selector, not on the element type, so that one
/// element type pairs with several policies.
pub trait CLenDropped: Sized {
    /// The part of the C side that the allocator works on.
    type Heap;

    /// The debts outstanding on `heap`: address and length in bytes of every
    /// buffer.
    open spec fn debts(heap: Self::Heap) -> Multiset<(usize, usize)> {
        arbitrary()
    }

    /// The `len` bytes that `heap` holds at `ptr`.
    open spec fn bytes(heap: Self::Heap, ptr: usize, len: usize) -> Seq<u8> {
        arbitrary()
    }

    /// What one call of `c_drop_len` may do.
    open spec fn drop_step(
        before: Self::Heap,
        ptr: usize,
        byte_len: usize,
        after: Self::Heap,
    ) -> bool {
        arbitrary()
    }

    /// Release the `byte_len`-byte buffer at `ptr`.
    fn c_drop_len(heap: &mut Self::Heap, ptr: RawPtr<u8>, byte_len: usize)
        requires
            Self::debts(*old(heap)).contains((ptr@, byte_len)),
        ensures
            Self::drop_step(*old(heap), ptr@, byte_len, *final(heap)),
            Self::debts(*final(heap)) == Self::debts(*old(heap)).remove((ptr@, byte_len)),
    ;
}

/// Deep-copy strategy for a counted buffer (a `memdup`); the bound that gives
/// [`CVec`](crate::CVec) its `try_clone` and `clone`.
///
/// Copies bytes, not elements.
pub trait CLenCloned: CLenDropped {
    /// What one call of `c_clone_len` may do, and return.
    open spec fn clone_step(
        before: Self::Heap,
        ptr: usize,
        byte_len: usize,
        result: Option<usize>,
        after: Self::Heap,
    ) -> bool {
        arbitrary()
    }

    /// Copy the `byte_len` bytes at `ptr` into a fresh buffer; `None` if the C
    /// routine failed, in which case nothing more is owed than before.
    ///
    /// The copy lies where no buffer lay before, and the source keeps its bytes.
    fn c_clone_len(heap: &mut Self::Heap, ptr: RawPtr<u8>, byte_len: usize) -> (r: Option<
        NonNullPtr<u8>,
    >)
        requires
            Self::debts(*old(heap)).contains((ptr@, byte_len)),
        ensures
            Self::clone_step(*old(heap), ptr@, byte_len, address_of(r), *final(heap)),
            Self::debts(*final(heap)) == owing_len(
                Self::debts(*old(heap)),
                address_of(r),
                byte_len,
            ),
            Self::bytes(*final(heap), ptr@, byte_len) == Self::bytes(*old(heap), ptr@, byte_len),
            r matches Some(p) ==> is_fresh(Self::debts(*old(heap)), p@, byte_len),
            r matches Some(p) ==> Self::bytes(*final(heap), p@, byte_len) == Self::bytes(
                *old(heap),
                ptr@,
                byte_len,
            ),
    ;
}

/// Drop strategy that carries runtime state: the counterpart of [`CDropped`]
/// for an owner that stores its teardown policy as a value.
pub trait CDropper<T>: Sized {
    /// The part of the C side that the routines work on.
    type Heap;

    /// The debts outstanding on `heap` that this policy settles, by address.
    open spec fn debts(self, heap: Self::Heap) -> Multiset<usize> {
        arbitrary()
    }

    /// What one call of `c_drop` on the object at `ptr` may do.
    open spec fn drop_step(self, before: Self::Heap, ptr: usize, after: Self::Heap) -> bool {
        arbitrary()
    }

    /// Release the object at `ptr`, using `self` as teardown state.
    fn c_drop(&self, heap: &mut Self::Heap, ptr: NonNullPtr<T>)
        requires
            self.debts(*old(heap)).contains(ptr@),
        ensures
            self.drop_step(*old(heap), ptr@, *final(heap)),
            self.debts(*final(heap)) == self.debts(*old(heap)).remove(ptr@),
    ;
}

/// Handle duplication that carries runtime state: the counterpart of
/// [`CCloned`].
pub trait CCloner<T>: CDropper<T> {
    /// What one call of `c_clone` on the object at `ptr` may do, and return.
    open spec fn clone_step(
        self,
        before: Self::Heap,
        ptr: usize,
        result: Option<usize>,
        after: Self::Heap,
    ) -> bool {
        arbitrary()
    }

    /// Duplicate the handle at `ptr`, using `self` as state; `None` if the C
    /// routine failed, in which case nothing more is owed than before.
    fn c_clone(&self, heap: &mut Self::Heap, ptr: NonNullPtr<T>) -> (r: Option<NonNullPtr<T>>)
        requires
            self.debts(*old(heap)).contains(ptr@),
        ensures
            self.clone_step(*old(heap), ptr@, address_of(r), *final(heap)),
            self.debts(*final(heap)) == owing(self.debts(*old(heap)), address_of(r)),
    ;
}

/// Keeps a C object alive at a stable address, exposing no access to it: the
/// owner half of [`CTethered`](crate::CTethered).
pub trait Owner: Sized {
    /// The part of the C side that releasing works on.
    type Heap;

    /// Whether what this owner has to release is outstanding on `heap`.
    open spec fn owes(self, heap: Self::Heap) -> bool {
        arbitrary()
    }

    /// What releasing this owner may do.
    open spec fn release_step(self, before: Self::Heap, after: Self::Heap) -> bool {
        arbitrary()
    }

    /// Give up the owner.
    fn release(self, heap: &mut Self::Heap)
        requires
            self.owes(*old(heap)),
        ensures
            self.release_step(*old(heap), *final(heap)),
    ;
}

/// Marker for a plain Rust value, every bit pattern of which is valid: the
/// integers, pointers, arrays of such, and slots that may hold nothing yet.
///
/// A wrapped C object implements [`CCell`](crate::CCell) instead.
pub trait CElem {

}

impl CElem for u8 {

}

impl CElem for u16 {

}

impl CElem for u32 {

}

impl CElem for u64 {

}

impl CElem for u128 {

}

impl CElem for usize {

}

impl CElem for i8 {

}

impl CElem for i16 {

}

impl CElem for i32 {

}

impl CElem for i64 {

}

impl CElem for i128 {

}

impl CElem for isize {

}

impl<T> CElem for RawPtr<T> {

}

impl<T: CElem, const N: usize> CElem for [T; N] {

}

/// The address of a pointer, where there is one.
pub open spec fn address_of<T>(p: Option<NonNullPtr<T>>) -> Option<usize> {
    match p {
        Some(p) => Some(p@),
        None => None,
    }
}

/// The ledger `debts` with one entry more where `at` is an address.
pub open spec fn owing(debts: Multiset<usize>, at: Option<usize>) -> Multiset<usize> {
    match at {
        Some(addr) => debts.insert(addr),
        None => debts,
    }
}

/// The ledger `debts` with one buffer of `byte_len` bytes more where `at` is an
/// address.
pub open spec fn owing_len(
    debts: Multiset<(usize, usize)>,
    at: Option<usize>,
    byte_len: usize,
) -> Multiset<(usize, usize)> {
    match at {
        Some(addr) => debts.insert((addr, byte_len)),
        None => debts,
    }
}

/// Whether a buffer of `byte_len` bytes at `addr` is a new one: no buffer of the
/// ledger `debts` lies there. Buffers of no bytes take up no place.
pub open spec fn is_fresh(debts: Multiset<(usize, usize)>, addr: usize, byte_len: usize) -> bool {
    byte_len > 0 ==> forall|len: usize| len > 0 ==> !#[trigger] debts.contains((addr, len))
}

/// Whether every clone of `policy` settles the debts that `policy` settles, as
/// the policy of an object that is cloned has to.
pub open spec fn clones_alike<T, D: CDropper<T> + Clone>(policy: D) -> bool {
    forall|d: D, heap: D::Heap|
        cloned::<D>(policy, d) ==> #[trigger] d.debts(heap) == policy.debts(heap)
}

} // verus!
