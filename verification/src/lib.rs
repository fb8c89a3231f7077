//! # ffibox
//!
//! Smart pointers and traits for wrapping C types: each ownership convention of
//! C gets one trait, the contract of the C routines, and one handle that runs
//! them.
//!
//! ## The owners
//!
//! | Type | Owns | Requires |
//! |------|------|----------|
//! | [`CBox<T>`] | a heap object, sole owner or refcount share | `T: CDropped + CCell` |
//! | [`CBoxWith<T, D>`] | the same, with the teardown policy `D` | `D: CDropper<T>` |
//! | [`CBoxUninit<T>`] | an allocated slot that is not initialised yet | `T: CDroppedUninit + CCell` |
//! | [`CVoidBox<D>`] | a type-erased `void *` | `D: CDropped` |
//! | [`CrustifyStr<D>`] | a NUL-terminated `char *` | `D: CDropped` |
//! | [`CVec<T, S>`] | a counted buffer | `S: CLenDropped` |
//! | [`CVal<T>`] | a value inline, disposing fields only | `T: CValued + CCell` |
//! | [`CValGuard<'a, T>`] | the same, borrowed and dismissible | `T: CValued + CCell` |
//! | [`CKeepalive<T>`] | an object, for the sake of a view into it | `T: CDropped + CCell` |
//! | [`CTethered<T, O>`] | a view into an object and its owner | `O: Owner` |
//!
//! Sole ownership and refcounting share one type. Whether a [`CBox<T>`] is
//! exclusive or one share depends only on the routines that `T` registers: a
//! `*_free` and a `*_dup` make it exclusive, a down-ref and an `up_ref` make it
//! shared.
//!
//! ## What is proved
//!
//! Pointers are typed addresses ([`RawPtr`], [`NonNullPtr`]); memory that is
//! read or written is a [`CRegion`]; what the C routines own is a heap, with a
//! ledger of the teardowns that are still owed on it. Every release states that
//! its routine ran once, on the owner's pointer; every clone states what it
//! adds to the ledger; every read and write states which elements of the region
//! it concerns. [`laws`] states what follows for sequences of calls, and
//! [`end_to_end`] what a caller observes of addresses and of cells of memory.
pub mod borrowed_refs;
pub mod c_out;
pub mod c_type;
mod call;
pub mod end_to_end;
pub mod laws;
pub mod owned_refs;
pub mod pointer;
pub mod region;
pub mod register;
pub mod traits;
pub mod uninit;

pub use crate::borrowed_refs::{COut, CSlice, CSliceMut, SelfPtr};
pub use crate::c_type::{CCell, CMut, CPtr, CRef, CType, CZeroed};
pub use crate::owned_refs::{
    CBox, CBoxUninit, CBoxWith, CKeepalive, CTethered, CVal, CValGuard, CVec, CVoidBox,
    CrustifyStr, StrError,
};
pub use crate::pointer::{CChar, CVoid, NonNullPtr, RawPtr};
pub use crate::region::CRegion;
pub use crate::traits::{
    CCloned, CCloner, CDropped, CDroppedUninit, CDropper, CElem, CLenCloned, CLenDropped, CValued,
    Owner,
};
pub use crate::uninit::CUninit;
