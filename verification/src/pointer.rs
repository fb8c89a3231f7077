//! Pointers as the C side sees them: typed addresses.
//!
//! A C pointer is a number that names a place; what it is worth depends on the
//! memory it is looked up in. [`RawPtr<T>`] is the nullable form (C's `T *`),
//! [`NonNullPtr<T>`] the form every handle of this crate stores. Neither one
//! reads or writes anything: memory is reached through a
//! [`CRegion`](crate::CRegion), and objects through the routines that the
//! lifecycle traits register.
use core::marker::PhantomData;
use vstd::prelude::*;

verus! {

/// The pointee of an erased pointer: C's `void`.
pub struct CVoid {}

/// One `char` of a C string, as a byte.
pub type CChar = u8;

/// A typed pointer that may be null.
///
/// Its view is the address; the null pointer is address 0.
pub struct RawPtr<T> {
    addr: usize,
    _pointee: PhantomData<T>,
}

impl<T> Clone for RawPtr<T> {
    fn clone(&self) -> (r: Self)
        ensures
            r == *self,
    {
        *self
    }
}

impl<T> Copy for RawPtr<T> {

}

impl<T> View for RawPtr<T> {
    type V = usize;

    closed spec fn view(&self) -> usize {
        self.addr
    }
}

impl<T> PartialEq for RawPtr<T> {
    fn eq(&self, other: &Self) -> (r: bool) {
        self.addr == other.addr
    }
}

impl<T> vstd::std_specs::cmp::PartialEqSpecImpl for RawPtr<T> {
    open spec fn obeys_eq_spec() -> bool {
        true
    }

    open spec fn eq_spec(&self, other: &Self) -> bool {
        self@ == other@
    }
}

impl<T> RawPtr<T> {
    /// The pointer to `addr`.
    pub fn new(addr: usize) -> (r: Self)
        ensures
            r@ == addr,
    {
        RawPtr { addr, _pointee: PhantomData }
    }

    /// The null pointer.
    pub fn null() -> (r: Self)
        ensures
            r@ == 0,
    {
        RawPtr { addr: 0, _pointee: PhantomData }
    }

    /// The address pointed to.
    pub fn addr(self) -> (r: usize)
        ensures
            r == self@,
    {
        self.addr
    }

    /// Whether this is the null pointer.
    pub fn is_null(self) -> (r: bool)
        ensures
            r == (self@ == 0),
    {
        self.addr == 0
    }

    /// The same address, read as a pointer to `U`.
    pub fn cast<U>(self) -> (r: RawPtr<U>)
        ensures
            r@ == self@,
    {
        RawPtr { addr: self.addr, _pointee: PhantomData }
    }
}

/// An address that is not null, held in a `core::num::NonZeroUsize`: one word,
/// and so is an `Option` of it.
#[verifier::external_body]
pub struct Address {
    value: core::num::NonZeroUsize,
}

impl Clone for Address {
    fn clone(&self) -> (r: Self)
        ensures
            r == *self,
    {
        *self
    }
}

impl Copy for Address {

}

/// The address that an [`Address`] holds.
pub uninterp spec fn address_value(a: Address) -> usize;

/// `core::num::NonZeroUsize::new`: the address, or `None` if it is 0.
#[verifier::external_body]
fn address_new(addr: usize) -> (r: Option<Address>)
    ensures
        r is Some <==> addr != 0,
        r matches Some(a) ==> address_value(a) == addr,
{
    match core::num::NonZeroUsize::new(addr) {
        Some(value) => Some(Address { value }),
        None => None,
    }
}

/// `core::num::NonZeroUsize::get`: the address, which is not 0.
#[verifier::external_body]
fn address_get(a: Address) -> (r: usize)
    ensures
        r == address_value(a),
        r != 0,
{
    a.value.get()
}

/// A typed pointer that is never null.
///
/// As large as an address, and so is an `Option` of it: `None` takes the place of
/// the null pointer. Every handle that stores one has that layout too. Its view
/// is the address.
pub struct NonNullPtr<T> {
    addr: Address,
    _pointee: PhantomData<T>,
}

impl<T> Clone for NonNullPtr<T> {
    fn clone(&self) -> (r: Self)
        ensures
            r == *self,
    {
        *self
    }
}

impl<T> Copy for NonNullPtr<T> {

}

impl<T> View for NonNullPtr<T> {
    type V = usize;

    closed spec fn view(&self) -> usize {
        address_value(self.addr)
    }
}

impl<T> NonNullPtr<T> {
    /// Wrap a pointer; `None` if it is null.
    pub fn new(ptr: RawPtr<T>) -> (r: Option<Self>)
        ensures
            r is Some <==> ptr@ != 0,
            r matches Some(p) ==> p@ == ptr@,
    {
        match address_new(ptr.addr) {
            Some(addr) => Some(NonNullPtr { addr, _pointee: PhantomData }),
            None => None,
        }
    }

    /// The nullable form, which is not null.
    pub fn as_ptr(self) -> (r: RawPtr<T>)
        ensures
            r@ == self@,
            r@ != 0,
    {
        RawPtr { addr: address_get(self.addr), _pointee: PhantomData }
    }

    /// The same address, read as a pointer to `U`.
    pub fn cast<U>(self) -> (r: NonNullPtr<U>)
        ensures
            r@ == self@,
    {
        NonNullPtr { addr: self.addr, _pointee: PhantomData }
    }

    /// The pointer to the element `i` places further on.
    pub fn element(self, i: usize) -> (r: Self)
        requires
            elem_addr::<T>(self@, i as int) <= usize::MAX,
        ensures
            r@ == elem_addr::<T>(self@, i as int),
    {
        proof {
            assert(0 <= i * vstd::layout::size_of::<T>()) by (nonlinear_arith);
        }
        let size: usize = core::mem::size_of::<T>();
        let base: usize = address_get(self.addr);
        NonNullPtr { addr: address_new(base + i * size).unwrap(), _pointee: PhantomData }
    }
}

/// Whether a `T` can lie at `addr`: the address is a multiple of its alignment.
pub open spec fn aligned<T>(addr: usize) -> bool {
    addr as int % vstd::layout::align_of::<T>() as int == 0
}

/// The address of element `i` of a run of `T` that starts at `base`.
pub open spec fn elem_addr<T>(base: usize, i: int) -> int {
    base + i * vstd::layout::size_of::<T>()
}

/// Whether a run of `len` elements of type `T` that starts at `base` lies
/// within the address space.
pub open spec fn fits<T>(base: usize, len: nat) -> bool {
    elem_addr::<T>(base, len as int) <= usize::MAX
}

/// Every element of a run that lies within the address space starts there too.
pub proof fn lemma_elem_addr_in_run<T>(base: usize, i: int, len: nat)
    requires
        fits::<T>(base, len),
        0 <= i <= len,
    ensures
        base <= elem_addr::<T>(base, i) <= elem_addr::<T>(base, len as int) <= usize::MAX,
{
    let size = vstd::layout::size_of::<T>();
    assert(0 <= i * size <= len * size) by (nonlinear_arith)
        requires
            0 <= i <= len,
            0 <= size,
    ;
}

/// Pointer to a value that lies in Rust's own storage.
pub(crate) fn pointer_to<T>(value: &T) -> (r: NonNullPtr<T>)
    ensures
        lies_at(*value, r@),
        r@ != 0,
        fits::<T>(r@, 1),
        aligned::<T>(r@),
{
    NonNullPtr::new(RawPtr::new(crate::call::apply(place_of::<T>, value))).unwrap()
}

/// `core::ptr::from_ref`, and the address of the pointer that it gives: where
/// `value` lies. That place is not null and is aligned for the value, which ends
/// within the address space; which place it is depends on the machine and is not described.
#[verifier::external_body]
pub(crate) fn place_of<T>(value: &T) -> (r: usize)
    ensures
        r != 0,
        fits::<T>(r, 1),
        aligned::<T>(r),
{
    core::ptr::from_ref(value).expose_provenance()
}

/// Pointer to a value that lies in Rust's own storage, to write it through.
///
/// What is written through the pointer is not known here, so nothing is known of
/// the value afterwards.
pub(crate) fn pointer_to_mut<T>(value: &mut T) -> (r: NonNullPtr<T>)
    ensures
        lies_at(*old(value), r@),
        r@ != 0,
        fits::<T>(r@, 1),
        aligned::<T>(r@),
{
    NonNullPtr::new(RawPtr::new(place_of_mut(value))).unwrap()
}

/// `core::ptr::from_mut`, and the address of the pointer that it gives: where
/// `value` lies, as [`place_of`] tells it too. Nothing is said of the value, which may be
/// written through the pointer afterwards.
#[verifier::external_body]
fn place_of_mut<T>(value: &mut T) -> (r: usize)
    ensures
        lies_at(*old(value), r),
        r != 0,
        fits::<T>(r, 1),
        aligned::<T>(r),
{
    core::ptr::from_mut(value).expose_provenance()
}

/// Whether `value`, where it is held in Rust's storage, may lie at `addr`: whether
/// asking where it lies may give that address.
pub closed spec fn lies_at<T>(value: T, addr: usize) -> bool {
    call_ensures(place_of::<T>, (&value,), addr)
}

/// What lies at an address is what was asked for.
pub(crate) proof fn lemma_lies_at<T>(value: &T, addr: usize)
    ensures
        lies_at(*value, addr) <==> call_ensures(place_of::<T>, (value,), addr),
{
}

} // verus!
