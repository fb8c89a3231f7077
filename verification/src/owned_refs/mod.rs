//! Owners: handles that hold one unit of a C object's debt and settle it
//! through a lifecycle trait.
//!
//! | Owner | Holds | Released through |
//! |-------|-------|------------------|
//! | [`CBox`] | a C-allocated object, or one share of it | [`CDropped`](crate::CDropped) |
//! | [`CVal`], [`CValGuard`] | a value in Rust's own storage | [`CValued`](crate::CValued) |
//! | [`CBoxUninit`] | a slot that is still being built | [`CDroppedUninit`](crate::CDroppedUninit) |
//! | [`CVoidBox`] | a type-erased `void *` | [`CDropped`](crate::CDropped) |
//! | [`CrustifyStr`] | a NUL-terminated string | [`CDropped`](crate::CDropped) |
//! | [`CVec`] | a counted buffer | [`CLenDropped`](crate::CLenDropped) |
//! | [`CBoxWith`] | an object and its teardown policy | [`CDropper`](crate::CDropper) |
//! | [`CKeepalive`], [`CTethered`] | an object for the sake of a view into it | [`Owner`](crate::Owner) |
//!
//! There is no separate refcounted owner: shared ownership is a [`CBox`] whose
//! `c_drop` is the down-ref and whose `c_clone` is the `up_ref`.
//!
//! An owner is released by its `drop`, which takes the owner by value and the
//! heap that it owes to, so a release happens once and its effect can be
//! stated. `into_raw` and its kin give up the owner and leave the debt standing
//! for whoever takes the pointer.
pub mod cbox;
pub mod cbox_uninit;
pub mod cbox_with;
pub mod crustify_str;
pub mod cval;
pub mod cvec;
pub mod cvoid_box;
pub mod keepalive;

pub use self::cbox::CBox;
pub use self::cbox_uninit::CBoxUninit;
pub use self::cbox_with::CBoxWith;
pub use self::crustify_str::{CrustifyStr, StrError};
pub use self::cval::{CVal, CValGuard, Place};
pub use self::cvec::CVec;
pub use self::cvoid_box::CVoidBox;
pub use self::keepalive::{give_up_share, release_last, CKeepalive, CTethered};
