//! [`CType<T>`], the layout newtype for a C type, and [`CCell`], the trait that
//! links it to its borrowed handles.
//!
//! # Nothing ever references a wrapped C object
//!
//! A reference that covers a C object's bytes claims that nobody else writes
//! them, and C keeps pointers. So access goes through handles that hold the
//! pointer by value:
//!
//! | Type | Role |
//! |------|------|
//! | [`CType<T>`] | the C layout; embeds by value, and is what an owner points at |
//! | [`CRef<'a, T>`] | shared borrow; `Copy`; read-only pointers |
//! | [`CMut<'a, T>`] | exclusive borrow; derefs to [`CRef`], adds the writable pointers |
//!
//! A wrapper that carries its own type parameters writes its own pair of
//! handles over [`CPtr`] and links them with [`CCell`].
use crate::pointer::{CVoid, NonNullPtr, RawPtr};
use core::marker::{PhantomData, PhantomPinned};
use core::ops::Deref;
use vstd::prelude::*;

verus! {

/// A C type that has a value whose every byte is zero.
///
/// That is so of every plain C struct; the value is the one whose fields are
/// all zero or null.
pub trait CZeroed: Sized {
    /// Whether `v` is the all-zero value.
    open spec fn is_zeroed(v: Self) -> bool {
        arbitrary()
    }

    /// The all-zero value (C's `memset(p, 0, sizeof *p)`).
    fn zeroed() -> (r: Self)
        ensures
            Self::is_zeroed(r),
    ;
}

/// `core::marker::PhantomPinned`, which marks a type whose values must stay where
/// they are once they are pinned.
#[verifier::external_type_specification]
#[verifier::external_body]
pub struct ExPhantomPinned(core::marker::PhantomPinned);

/// Layout newtype for a C type.
///
/// Gives each C struct a distinct Rust type that keeps the C layout and pins its
/// address, since C may have recorded it. Its view is the wrapped value.
pub struct CType<T> {
    value: T,
    _pin: PhantomPinned,
}

/// `core::marker::PhantomPinned` itself, the one value of that type.
#[verifier::external_body]
fn pin() -> PhantomPinned {
    PhantomPinned
}

impl<T> View for CType<T> {
    type V = T;

    closed spec fn view(&self) -> T {
        self.value
    }
}

impl<T> CType<T> {
    /// Wrap an already-initialised value.
    pub fn new(value: T) -> (r: Self)
        ensures
            r@ == value,
    {
        CType { value, _pin: pin() }
    }

    /// Zero-initialise.
    pub fn zeroed() -> (r: Self) where T: CZeroed
        ensures
            T::is_zeroed(r@),
    {
        CType { value: T::zeroed(), _pin: pin() }
    }

    /// The wrapped value.
    pub fn get(&self) -> (r: &T)
        ensures
            *r == self@,
    {
        &self.value
    }

    /// The wrapped value, exclusively.
    pub fn get_mut(&mut self) -> (r: &mut T)
        ensures
            *r == old(self)@,
            final(self)@ == *final(r),
    {
        &mut self.value
    }

    /// Unwrap the value.
    pub fn into_inner(self) -> (r: T)
        ensures
            r == self@,
    {
        self.value
    }

    /// Read-only pointer to the inner `T`: the same address.
    pub fn cast_into(this: RawPtr<Self>) -> (r: RawPtr<T>)
        ensures
            r@ == this@,
    {
        this.cast::<T>()
    }

    /// Writable pointer to the inner `T`: the counterpart of
    /// [`cast_into`](Self::cast_into).
    pub fn cast_into_mut(this: RawPtr<Self>) -> (r: RawPtr<T>)
        ensures
            r@ == this@,
    {
        this.cast::<T>()
    }

    /// Pointer to the wrapper around the `T` at `this`: the same address.
    pub fn cast_from(this: RawPtr<T>) -> (r: RawPtr<Self>)
        ensures
            r@ == this@,
    {
        this.cast::<Self>()
    }
}

impl CZeroed for u8 {
    open spec fn is_zeroed(v: u8) -> bool {
        v == 0
    }

    fn zeroed() -> (r: u8) {
        0
    }
}

impl CZeroed for u16 {
    open spec fn is_zeroed(v: u16) -> bool {
        v == 0
    }

    fn zeroed() -> (r: u16) {
        0
    }
}

impl CZeroed for u32 {
    open spec fn is_zeroed(v: u32) -> bool {
        v == 0
    }

    fn zeroed() -> (r: u32) {
        0
    }
}

impl CZeroed for u64 {
    open spec fn is_zeroed(v: u64) -> bool {
        v == 0
    }

    fn zeroed() -> (r: u64) {
        0
    }
}

impl CZeroed for u128 {
    open spec fn is_zeroed(v: u128) -> bool {
        v == 0
    }

    fn zeroed() -> (r: u128) {
        0
    }
}

impl CZeroed for usize {
    open spec fn is_zeroed(v: usize) -> bool {
        v == 0
    }

    fn zeroed() -> (r: usize) {
        0
    }
}

impl CZeroed for i8 {
    open spec fn is_zeroed(v: i8) -> bool {
        v == 0
    }

    fn zeroed() -> (r: i8) {
        0
    }
}

impl CZeroed for i16 {
    open spec fn is_zeroed(v: i16) -> bool {
        v == 0
    }

    fn zeroed() -> (r: i16) {
        0
    }
}

impl CZeroed for i32 {
    open spec fn is_zeroed(v: i32) -> bool {
        v == 0
    }

    fn zeroed() -> (r: i32) {
        0
    }
}

impl CZeroed for i64 {
    open spec fn is_zeroed(v: i64) -> bool {
        v == 0
    }

    fn zeroed() -> (r: i64) {
        0
    }
}

impl CZeroed for i128 {
    open spec fn is_zeroed(v: i128) -> bool {
        v == 0
    }

    fn zeroed() -> (r: i128) {
        0
    }
}

impl CZeroed for isize {
    open spec fn is_zeroed(v: isize) -> bool {
        v == 0
    }

    fn zeroed() -> (r: isize) {
        0
    }
}

impl<T> CZeroed for RawPtr<T> {
    open spec fn is_zeroed(v: RawPtr<T>) -> bool {
        v@ == 0
    }

    fn zeroed() -> (r: RawPtr<T>) {
        RawPtr::null()
    }
}

impl<T: CZeroed> CZeroed for CType<T> {
    open spec fn is_zeroed(v: CType<T>) -> bool {
        T::is_zeroed(v@)
    }

    fn zeroed() -> (r: CType<T>) {
        CType::zeroed()
    }
}

/// The storage behind every borrowed handle: one pointer, tagged with the
/// borrow's lifetime.
///
/// Covariant in `'a` and `Copy`, like `&'a T`, and as large as a pointer, as is
/// an `Option` of it. Its view is the address.
pub struct CPtr<'a, T> {
    ptr: NonNullPtr<T>,
    _borrow: PhantomData<&'a ()>,
}

impl<'a, T> Clone for CPtr<'a, T> {
    fn clone(&self) -> (r: Self)
        ensures
            r == *self,
    {
        *self
    }
}

impl<'a, T> Copy for CPtr<'a, T> {

}

impl<'a, T> View for CPtr<'a, T> {
    type V = usize;

    closed spec fn view(&self) -> usize {
        self.ptr@
    }
}

impl<'a, T> CPtr<'a, T> {
    /// Wrap a non-null pointer to the wrapper type.
    pub fn new(p: NonNullPtr<T>) -> (r: Self)
        ensures
            r@ == p@,
    {
        CPtr { ptr: p, _borrow: PhantomData }
    }

    /// The wrapper pointer this handle borrows.
    pub fn as_non_null(self) -> (r: NonNullPtr<T>)
        ensures
            r@ == self@,
    {
        self.ptr
    }
}

/// A wrapper over the C type [`C`](CCell::C), together with the borrowed
/// handles that carry its accessors.
///
/// A linking trait, not an access trait: it names the wrapped type and the two
/// handle types and builds the handles. A wrapper's [`Ref`](CCell::Ref) offers
/// nothing that writes through the pointer; that is [`Mut`](CCell::Mut)'s job.
pub trait CCell: Sized {
    /// The wrapped C type.
    type C;

    /// The shared borrowed handle: `Copy`, getters only.
    type Ref<'a>: Copy;

    /// The exclusive borrowed handle: move-only, getters and setters.
    type Mut<'a>;

    /// The address that a shared handle borrows.
    open spec fn ref_addr<'a>(handle: Self::Ref<'a>) -> usize {
        arbitrary()
    }

    /// The address that an exclusive handle borrows.
    open spec fn mut_addr<'a>(handle: Self::Mut<'a>) -> usize {
        arbitrary()
    }

    /// Build a shared handle from a pointer to the wrapper.
    fn ref_from_raw<'a>(p: NonNullPtr<Self>) -> (r: Self::Ref<'a>)
        ensures
            Self::ref_addr(r) == p@,
    ;

    /// Build an exclusive handle from a pointer to the wrapper.
    fn mut_from_raw<'a>(p: NonNullPtr<Self>) -> (r: Self::Mut<'a>)
        ensures
            Self::mut_addr(r) == p@,
    ;
}

/// Shared borrow of a wrapped C object. `Copy`, like `&T`.
///
/// Its view is the address.
pub struct CRef<'a, T> {
    ptr: CPtr<'a, T>,
}

impl<'a, T> Clone for CRef<'a, T> {
    fn clone(&self) -> (r: Self)
        ensures
            r == *self,
    {
        *self
    }
}

impl<'a, T> Copy for CRef<'a, T> {

}

impl<'a, T> View for CRef<'a, T> {
    type V = usize;

    closed spec fn view(&self) -> usize {
        self.ptr@
    }
}

impl<'a, T> CRef<'a, T> {
    /// The shared handle that stores `ptr`.
    pub fn new(ptr: CPtr<'a, T>) -> (r: Self)
        ensures
            r@ == ptr@,
    {
        CRef { ptr }
    }
}

impl<'a, T: CCell> CRef<'a, T> {
    /// Borrow a raw pointer; `None` if null.
    pub fn from_ptr(ptr: RawPtr<T::C>) -> (r: Option<Self>)
        ensures
            r is Some <==> ptr@ != 0,
            r matches Some(h) ==> h@ == ptr@,
    {
        match NonNullPtr::new(ptr.cast::<T>()) {
            Some(p) => Some(CRef::new(CPtr::new(p))),
            None => None,
        }
    }

    /// Read-only pointer to the C object.
    pub fn as_ptr(&self) -> (r: RawPtr<T::C>)
        ensures
            r@ == self@,
            r@ != 0,
    {
        self.ptr.as_non_null().as_ptr().cast::<T::C>()
    }

    /// The pointer to the C object, type-erased.
    pub fn as_void_ptr(&self) -> (r: RawPtr<CVoid>)
        ensures
            r@ == self@,
            r@ != 0,
    {
        self.as_ptr().cast::<CVoid>()
    }

    /// Borrow a type-erased pointer back; `None` if null.
    ///
    /// The inbound dual of [`as_void_ptr`](Self::as_void_ptr). Ownership is not
    /// transferred. Nothing in a `void *` records a type: the pointer must be
    /// one that was erased from this very type.
    pub fn from_void_ptr(ptr: RawPtr<CVoid>) -> (r: Option<Self>)
        ensures
            r is Some <==> ptr@ != 0,
            r matches Some(h) ==> h@ == ptr@,
    {
        Self::from_ptr(ptr.cast::<T::C>())
    }
}

/// Exclusive borrow of a wrapped C object. Derefs to [`CRef`] and adds the
/// writable pointers.
///
/// Its view is the address.
pub struct CMut<'a, T> {
    shared: CRef<'a, T>,
}

impl<'a, T> View for CMut<'a, T> {
    type V = usize;

    closed spec fn view(&self) -> usize {
        self.shared@
    }
}

impl<'a, T> CMut<'a, T> {
    /// The exclusive handle to the object that `shared` borrows.
    pub fn new(shared: CRef<'a, T>) -> (r: Self)
        ensures
            r@ == shared@,
    {
        CMut { shared }
    }
}

impl<'a, T: CCell> CMut<'a, T> {
    /// Borrow a raw pointer exclusively; `None` if null.
    pub fn from_ptr(ptr: RawPtr<T::C>) -> (r: Option<Self>)
        ensures
            r is Some <==> ptr@ != 0,
            r matches Some(h) ==> h@ == ptr@,
    {
        match CRef::from_ptr(ptr) {
            Some(shared) => Some(CMut::new(shared)),
            None => None,
        }
    }

    /// Writable pointer to the C object.
    pub fn as_mut_ptr(&mut self) -> (r: RawPtr<T::C>)
        ensures
            r@ == old(self)@,
            r@ != 0,
            *final(self) == *old(self),
    {
        self.shared.as_ptr()
    }

    /// The writable pointer to the C object, type-erased.
    pub fn as_mut_void_ptr(&mut self) -> (r: RawPtr<CVoid>)
        ensures
            r@ == old(self)@,
            r@ != 0,
            *final(self) == *old(self),
    {
        self.shared.as_void_ptr()
    }

    /// Reborrow shared, for passing where a getter-only handle is wanted.
    pub fn as_ref(&self) -> (r: CRef<'_, T>)
        ensures
            r@ == self@,
    {
        self.shared
    }
}

impl<'a, T> Deref for CMut<'a, T> {
    type Target = CRef<'a, T>;

    fn deref(&self) -> (r: &CRef<'a, T>)
        ensures
            r@ == self@,
    {
        &self.shared
    }
}

impl<T> CCell for CType<T> {
    type C = T;

    type Ref<'a> = CRef<'a, CType<T>>;

    type Mut<'a> = CMut<'a, CType<T>>;

    open spec fn ref_addr<'a>(handle: CRef<'a, CType<T>>) -> usize {
        handle@
    }

    open spec fn mut_addr<'a>(handle: CMut<'a, CType<T>>) -> usize {
        handle@
    }

    fn ref_from_raw<'a>(p: NonNullPtr<Self>) -> (r: CRef<'a, CType<T>>) {
        CRef::new(CPtr::new(p))
    }

    fn mut_from_raw<'a>(p: NonNullPtr<Self>) -> (r: CMut<'a, CType<T>>) {
        CMut::new(CRef::new(CPtr::new(p)))
    }
}

} // verus!
