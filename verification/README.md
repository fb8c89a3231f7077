# ffibox

Smart pointers and traits for wrapping C types in Rust, verified with Verus.

Each ownership convention of C gets one trait, the contract of the C routines,
and one owner that runs them: `CBox` for an object with a destructor (exclusive
or refcounted), `CVec` for a counted buffer, `CrustifyStr` for a NUL-terminated
string, `CVoidBox` for an erased `void *`, `CVal` and `CValGuard` for a value
whose storage is Rust's, `CBoxUninit` and `CBoxWith` for construction and for
teardown that needs state, `CKeepalive` and `CTethered` for views into an object
that must be kept alive. `CRef` and `CMut`, `CSlice` and `CSliceMut`, `COut` and
`SelfPtr` borrow without owning.

## Layout

- `src/pointer.rs`, `src/region.rs`, `src/uninit.rs`: addresses, memory, slots.
- `src/c_type.rs`: the layout newtype and the borrowed handles.
- `src/traits.rs`, `src/register.rs`: what teardown and duplication mean, and how
  the result of a C routine becomes the result of a trait method.
- `src/borrowed_refs.rs`, `src/c_out.rs`: the views that own nothing.
- `src/owned_refs/`: the owners, one file each.
- `src/laws.rs`: what holds of sequences of calls.
- `tests/`: the owners over mock C types.
- `app/`: the same owners over real pointers and the process heap, releasing
  themselves at the end of a scope, and the macros that bind C functions.

## The model

A pointer is a typed address. Memory is read and written through a `CRegion`, the
elements it holds from a known address on. C routines act on a heap that an
owner is handed when it is cloned or released; the heap carries a ledger with one
entry for every teardown that is still owed. A release takes the owner by value
and settles its entry, so nothing is released twice; a clone adds one entry,
whether the C side copied the object or counted a reference.

Handles and thin owners are one word, and so is an `Option` of one: `None` takes
the place of the null pointer.

What is taken on trust: `core::str::from_utf8`, `Arc::into_inner`,
`core::ptr::from_ref`, `core::ptr::from_mut` and the non-zero integer that holds
an address, each behind a contract that says what it returns, and the C routines
themselves, which the implementor of a lifecycle trait answers for.
