//! Non-owning pointer wrappers. They carry no teardown; they answer how a
//! pointer is used, not who frees it.
//!
//! - [`COut<'a, T>`]: the write-end of a C out-parameter.
//! - [`SelfPtr<'this, T>`]: a back-reference to an object that outlives the
//!   holder.
//! - [`CSlice<'a, T>`] / [`CSliceMut<'a, T>`]: a shared or exclusive run of
//!   contiguous elements, as a pointer and a count.
use crate::c_type::CCell;
use crate::pointer::{NonNullPtr, RawPtr};
use crate::region::CRegion;
use crate::traits::CElem;
use crate::uninit::CUninit;
use core::marker::PhantomData;
use vstd::prelude::*;

verus! {

/// The write-end of a C out-parameter: exclusive access to a slot that may not
/// hold a value yet.
///
/// C returns values through pointers to such slots (`size_t *`, `int *`); the
/// callee writes them with [`CUninit::write`].
pub type COut<'a, T> = &'a mut CUninit<T>;

/// The out-parameter at `ptr`, a slot of `region`; `None` if `ptr` is null.
///
/// What is written through the result lands in that slot and in no other.
pub fn from_ptr<'a, T>(region: &'a mut CRegion<T, CUninit<T>>, ptr: RawPtr<T>) -> (r: Option<
    COut<'a, T>,
>)
    requires
        ptr@ != 0 ==> old(region).holds(ptr@, 1),
    ensures
        r is Some <==> ptr@ != 0,
        r matches Some(out) ==> {
            &&& *out == old(region).run(ptr@, 1)[0]
            &&& final(region).replaces(*old(region), ptr@, seq![*final(out)])
        },
        r is None ==> *final(region) == *old(region),
{
    if ptr.is_null() {
        None
    } else {
        Some(region.get_mut(ptr))
    }
}

/// A back-reference from an object to one that outlives it: its parent, a
/// sibling, itself.
///
/// `Copy`, and what it hands out is bound by `'this`, not by the holder. Its
/// view is the object.
pub struct SelfPtr<'this, T> {
    target: &'this T,
}

impl<'this, T> Clone for SelfPtr<'this, T> {
    fn clone(&self) -> (r: Self)
        ensures
            r == *self,
    {
        *self
    }
}

impl<'this, T> Copy for SelfPtr<'this, T> {

}

impl<'this, T> View for SelfPtr<'this, T> {
    type V = T;

    closed spec fn view(&self) -> T {
        *self.target
    }
}

impl<'this, T> SelfPtr<'this, T> {
    /// Refer back to `target`.
    pub fn new(target: &'this T) -> (r: Self)
        ensures
            r@ == *target,
    {
        SelfPtr { target }
    }

    /// Refer back to the object at `ptr`, an element of `region`; `None` if
    /// `ptr` is null.
    pub fn from_raw(region: &'this CRegion<T>, ptr: RawPtr<T>) -> (r: Option<Self>)
        requires
            ptr@ != 0 ==> region.holds(ptr@, 1),
        ensures
            r is Some <==> ptr@ != 0,
            r matches Some(p) ==> p@ == region.run(ptr@, 1)[0],
    {
        if ptr.is_null() {
            None
        } else {
            Some(SelfPtr { target: region.get(ptr) })
        }
    }

    /// Pointer to the object, where it lies.
    ///
    /// The object lies in Rust's storage, so its address is the machine's to
    /// choose.
    pub fn as_ptr(&self) -> (r: RawPtr<T>)
        ensures
            crate::pointer::lies_at(self@, r@),
            r@ != 0,
            crate::pointer::fits::<T>(r@, 1),
            crate::pointer::aligned::<T>(r@),
    {
        crate::pointer::pointer_to(self.target).as_ptr()
    }

    /// The object.
    pub fn get(&self) -> (r: &'this T)
        ensures
            *r == self@,
    {
        self.target
    }
}

/// A borrowed run of `len` contiguous elements.
///
/// A pointer and a count: it asserts nothing about the memory, which C may
/// write. Wrapped C objects are reached as per-element handles, plain values
/// are copied out of the region that holds them.
pub struct CSlice<'a, T> {
    ptr: NonNullPtr<T>,
    len: usize,
    _borrow: PhantomData<&'a ()>,
}

impl<'a, T> Clone for CSlice<'a, T> {
    fn clone(&self) -> (r: Self)
        ensures
            r == *self,
    {
        *self
    }
}

impl<'a, T> Copy for CSlice<'a, T> {

}

impl<'a, T> CSlice<'a, T> {
    #[verifier::type_invariant]
    spec fn in_address_space(self) -> bool {
        crate::pointer::fits::<T>(self.ptr@, self.len as nat)
    }

    /// The address of the first element.
    pub closed spec fn start(self) -> usize {
        self.ptr@
    }

    /// The number of elements.
    pub closed spec fn count(self) -> nat {
        self.len as nat
    }

    /// The address of element `i`.
    pub open spec fn addr_of(self, i: int) -> int {
        crate::pointer::elem_addr::<T>(self.start(), i)
    }

    /// Whether the elements of this run are elements of `region`.
    pub open spec fn within(self, region: CRegion<T>) -> bool {
        region.holds(self.start(), self.count())
    }

    /// What `region` holds in the place of this run.
    pub open spec fn contents(self, region: CRegion<T>) -> Seq<T> {
        region.run(self.start(), self.count())
    }

    /// Borrow `len` contiguous elements starting at `ptr`.
    pub fn from_raw_parts(ptr: NonNullPtr<T>, len: usize) -> (r: Self)
        requires
            crate::pointer::fits::<T>(ptr@, len as nat),
        ensures
            r.start() == ptr@,
            r.count() == len,
    {
        CSlice { ptr, len, _borrow: PhantomData }
    }

    /// Number of elements.
    pub fn len(&self) -> (r: usize)
        ensures
            r == self.count(),
    {
        self.len
    }

    /// Whether the run is empty.
    pub fn is_empty(&self) -> (r: bool)
        ensures
            r == (self.count() == 0),
    {
        self.len == 0
    }

    /// Pointer to element `i`.
    fn element(&self, i: usize) -> (r: NonNullPtr<T>)
        requires
            i < self.count(),
        ensures
            r@ == self.addr_of(i as int),
    {
        proof {
            use_type_invariant(self);
            crate::pointer::lemma_elem_addr_in_run::<T>(self.ptr@, i as int, self.len as nat);
        }
        self.ptr.element(i)
    }
}

/// A run of wrapped C objects is reached as per-element handles.
impl<'a, T: CCell> CSlice<'a, T> {
    /// Shared handle to element `i`; `None` if out of range.
    ///
    /// The handle carries `'a`, not a lifetime from `&self`.
    pub fn get(&self, i: usize) -> (r: Option<T::Ref<'a>>)
        ensures
            r is Some <==> i < self.count(),
            r matches Some(h) ==> T::ref_addr(h) == self.addr_of(i as int),
    {
        if i >= self.len {
            return None;
        }
        Some(T::ref_from_raw(self.element(i)))
    }

    /// The run as shared handles, in order.
    pub fn iter(&self) -> (r: Vec<T::Ref<'a>>)
        ensures
            r@.len() == self.count(),
            forall|i: int|
                0 <= i < self.count() ==> T::ref_addr(#[trigger] r@[i]) == self.addr_of(i),
    {
        let mut handles: Vec<T::Ref<'a>> = Vec::new();
        let mut i: usize = 0;
        while i < self.len
            invariant
                i <= self.len,
                handles@.len() == i,
                forall|j: int|
                    0 <= j < i ==> T::ref_addr(#[trigger] handles@[j]) == self.addr_of(j),
            decreases self.len - i,
        {
            handles.push(T::ref_from_raw(self.element(i)));
            i = i + 1;
        }
        handles
    }

    /// Raw pointer to the first element, for passing the run to C.
    pub fn as_ptr(&self) -> (r: RawPtr<T::C>)
        ensures
            r@ == self.start(),
            r@ != 0,
    {
        self.ptr.as_ptr().cast::<T::C>()
    }
}

/// A run of plain values is read out element-wise.
impl<'a, T: CElem> CSlice<'a, T> {
    /// Copy element `i` out of `region`; `None` if out of range.
    pub fn elem(&self, region: &CRegion<T>, i: usize) -> (r: Option<T>) where T: Copy
        requires
            self.within(*region),
        ensures
            r == (if i < self.count() {
                Some(self.contents(*region)[i as int])
            } else {
                None
            }),
    {
        if i >= self.len {
            return None;
        }
        Some(region.slice(self.ptr.as_ptr(), self.len)[i])
    }

    /// Copies of the elements, in order.
    pub fn elems(&self, region: &CRegion<T>) -> (r: Vec<T>) where T: Copy
        requires
            self.within(*region),
        ensures
            r@ == self.contents(*region),
    {
        let run = region.slice(self.ptr.as_ptr(), self.len);
        vstd::slice::slice_to_vec(run)
    }

    /// Copy the whole run into `dst`. `false`, and nothing copied, if the
    /// lengths differ.
    #[must_use]
    pub fn copy_to_slice(&self, region: &CRegion<T>, dst: &mut [T]) -> (r: bool) where T: Copy
        requires
            self.within(*region),
        ensures
            r == (old(dst)@.len() == self.count()),
            final(dst)@ == (if r {
                self.contents(*region)
            } else {
                old(dst)@
            }),
    {
        if dst.len() != self.len {
            return false;
        }
        copy_elements(region.slice(self.ptr.as_ptr(), self.len), dst);
        true
    }

    /// Raw pointer to the first element, for passing the run to C.
    pub fn as_elem_ptr(&self) -> (r: RawPtr<T>)
        ensures
            r@ == self.start(),
            r@ != 0,
    {
        self.ptr.as_ptr()
    }
}

/// A borrowed run of `len` contiguous elements, exclusively.
///
/// Move-only, because that is what exclusivity means; reach the shared view
/// with [`as_ref`](CSliceMut::as_ref).
pub struct CSliceMut<'a, T> {
    ptr: NonNullPtr<T>,
    len: usize,
    _borrow: PhantomData<&'a mut ()>,
}

impl<'a, T> CSliceMut<'a, T> {
    #[verifier::type_invariant]
    spec fn in_address_space(self) -> bool {
        crate::pointer::fits::<T>(self.ptr@, self.len as nat)
    }

    /// The address of the first element.
    pub closed spec fn start(self) -> usize {
        self.ptr@
    }

    /// The number of elements.
    pub closed spec fn count(self) -> nat {
        self.len as nat
    }

    /// The address of element `i`.
    pub open spec fn addr_of(self, i: int) -> int {
        crate::pointer::elem_addr::<T>(self.start(), i)
    }

    /// Whether the elements of this run are elements of `region`.
    pub open spec fn within(self, region: CRegion<T>) -> bool {
        region.holds(self.start(), self.count())
    }

    /// What `region` holds in the place of this run.
    pub open spec fn contents(self, region: CRegion<T>) -> Seq<T> {
        region.run(self.start(), self.count())
    }

    /// Borrow `len` contiguous elements exclusively, starting at `ptr`.
    pub fn from_raw_parts(ptr: NonNullPtr<T>, len: usize) -> (r: Self)
        requires
            crate::pointer::fits::<T>(ptr@, len as nat),
        ensures
            r.start() == ptr@,
            r.count() == len,
    {
        CSliceMut { ptr, len, _borrow: PhantomData }
    }

    /// Number of elements.
    pub fn len(&self) -> (r: usize)
        ensures
            r == self.count(),
    {
        self.len
    }

    /// Whether the run is empty.
    pub fn is_empty(&self) -> (r: bool)
        ensures
            r == (self.count() == 0),
    {
        self.len == 0
    }

    /// Reborrow shared, for passing where a read-only run is wanted.
    ///
    /// Bound by `&self`, so no write path is reachable while the shared view,
    /// or a copy of it, lives.
    pub fn as_ref(&self) -> (r: CSlice<'_, T>)
        ensures
            r.start() == self.start(),
            r.count() == self.count(),
    {
        proof {
            use_type_invariant(self);
        }
        CSlice::from_raw_parts(self.ptr, self.len)
    }

    /// Pointer to element `i`.
    fn element(&self, i: usize) -> (r: NonNullPtr<T>)
        requires
            i < self.count(),
        ensures
            r@ == self.addr_of(i as int),
    {
        proof {
            use_type_invariant(self);
            crate::pointer::lemma_elem_addr_in_run::<T>(self.ptr@, i as int, self.len as nat);
        }
        self.ptr.element(i)
    }
}

/// A run of wrapped C objects is reached as per-element handles.
impl<'a, T: CCell> CSliceMut<'a, T> {
    /// Shared handle to element `i`; `None` if out of range.
    pub fn get(&self, i: usize) -> (r: Option<T::Ref<'_>>)
        ensures
            r is Some <==> i < self.count(),
            r matches Some(h) ==> T::ref_addr(h) == self.addr_of(i as int),
    {
        if i >= self.len {
            return None;
        }
        Some(T::ref_from_raw(self.element(i)))
    }

    /// Exclusive handle to element `i`; `None` if out of range.
    ///
    /// Bound by `&mut self`, not by `'a`: no other handle of the run can be
    /// used while it lives.
    pub fn get_mut(&mut self, i: usize) -> (r: Option<T::Mut<'_>>)
        ensures
            r is Some <==> i < old(self).count(),
            r matches Some(h) ==> T::mut_addr(h) == old(self).addr_of(i as int),
            *final(self) == *old(self),
    {
        if i >= self.len {
            return None;
        }
        Some(T::mut_from_raw(self.element(i)))
    }

    /// The run as shared handles, in order.
    pub fn iter(&self) -> (r: Vec<T::Ref<'_>>)
        ensures
            r@.len() == self.count(),
            forall|i: int|
                0 <= i < self.count() ==> T::ref_addr(#[trigger] r@[i]) == self.addr_of(i),
    {
        let shared = self.as_ref();
        shared.iter()
    }

    /// The run as exclusive handles, in order.
    ///
    /// They can be held at once, since each addresses an element of its own.
    pub fn iter_mut<'s>(&'s mut self) -> (r: Vec<T::Mut<'s>>)
        ensures
            r@.len() == old(self).count(),
            forall|i: int|
                0 <= i < old(self).count() ==> T::mut_addr(#[trigger] r@[i]) == old(self).addr_of(
                    i,
                ),
            *final(self) == *old(self),
    {
        let mut handles: Vec<T::Mut<'s>> = Vec::new();
        let mut i: usize = 0;
        while i < self.len
            invariant
                *self == *old(self),
                i <= self.len,
                handles@.len() == i,
                forall|j: int|
                    0 <= j < i ==> T::mut_addr(#[trigger] handles@[j]) == self.addr_of(j),
            decreases self.len - i,
        {
            handles.push(T::mut_from_raw(self.element(i)));
            i = i + 1;
        }
        handles
    }

    /// Raw pointer to the first element, for passing the run to C.
    pub fn as_ptr(&self) -> (r: RawPtr<T::C>)
        ensures
            r@ == self.start(),
            r@ != 0,
    {
        self.ptr.as_ptr().cast::<T::C>()
    }

    /// Writable pointer to the first element, for C calls that fill the run.
    pub fn as_mut_ptr(&mut self) -> (r: RawPtr<T::C>)
        ensures
            r@ == old(self).start(),
            r@ != 0,
            *final(self) == *old(self),
    {
        self.ptr.as_ptr().cast::<T::C>()
    }
}

/// A run of plain values is read and written element-wise.
impl<'a, T: CElem> CSliceMut<'a, T> {
    /// Copy element `i` out of `region`; `None` if out of range.
    pub fn elem(&self, region: &CRegion<T>, i: usize) -> (r: Option<T>) where T: Copy
        requires
            self.within(*region),
        ensures
            r == (if i < self.count() {
                Some(self.contents(*region)[i as int])
            } else {
                None
            }),
    {
        self.as_ref().elem(region, i)
    }

    /// Write element `i`; `false`, and nothing written, if out of range.
    #[must_use]
    pub fn set_elem(&mut self, region: &mut CRegion<T>, i: usize, v: T) -> (r: bool)
        requires
            old(self).within(*old(region)),
        ensures
            r == (i < old(self).count()),
            r ==> final(region).replaces(
                *old(region),
                old(self).start(),
                old(self).contents(*old(region)).update(i as int, v),
            ),
            !r ==> *final(region) == *old(region),
            *final(self) == *old(self),
    {
        if i >= self.len {
            return false;
        }
        let run = region.slice_mut(self.ptr.as_ptr(), self.len);
        run[i] = v;
        true
    }

    /// Copy the whole run into `dst`. `false`, and nothing copied, if the
    /// lengths differ.
    #[must_use]
    pub fn copy_to_slice(&self, region: &CRegion<T>, dst: &mut [T]) -> (r: bool) where T: Copy
        requires
            self.within(*region),
        ensures
            r == (old(dst)@.len() == self.count()),
            final(dst)@ == (if r {
                self.contents(*region)
            } else {
                old(dst)@
            }),
    {
        self.as_ref().copy_to_slice(region, dst)
    }

    /// Overwrite the whole run from `src`. `false`, and nothing written, if the
    /// lengths differ.
    #[must_use]
    pub fn copy_from_slice(&mut self, region: &mut CRegion<T>, src: &[T]) -> (r: bool) where
        T: Copy,

        requires
            old(self).within(*old(region)),
        ensures
            r == (src@.len() == old(self).count()),
            r ==> final(region).replaces(*old(region), old(self).start(), src@),
            !r ==> *final(region) == *old(region),
            *final(self) == *old(self),
    {
        if src.len() != self.len {
            return false;
        }
        copy_elements(src, region.slice_mut(self.ptr.as_ptr(), self.len));
        true
    }

    /// Raw pointer to the first element, for passing the run to C.
    pub fn as_elem_ptr(&self) -> (r: RawPtr<T>)
        ensures
            r@ == self.start(),
            r@ != 0,
    {
        self.ptr.as_ptr()
    }

    /// Writable pointer to the first element, for C calls that fill the run.
    pub fn as_mut_elem_ptr(&mut self) -> (r: RawPtr<T>)
        ensures
            r@ == old(self).start(),
            r@ != 0,
            *final(self) == *old(self),
    {
        self.ptr.as_ptr()
    }
}

/// Copy `src` over `dst`, which is as long.
fn copy_elements<T: Copy>(src: &[T], dst: &mut [T])
    requires
        src@.len() == old(dst)@.len(),
    ensures
        final(dst)@ == src@,
{
    let n: usize = src.len();
    let mut i: usize = 0;
    while i < n
        invariant
            i <= n,
            n == src@.len(),
            dst@.len() == n,
            dst@.subrange(0, i as int) == src@.subrange(0, i as int),
        decreases n - i,
    {
        dst[i] = src[i];
        proof {
            assert(dst@.subrange(0, i + 1) =~= src@.subrange(0, i + 1)) by {
                assert forall|j: int| 0 <= j < i implies dst@[j] == src@[j] by {
                    assert(dst@.subrange(0, i as int)[j] == src@.subrange(0, i as int)[j]);
                }
            }
        }
        i = i + 1;
    }
    proof {
        assert(dst@.subrange(0, n as int) =~= dst@);
        assert(src@.subrange(0, n as int) =~= src@);
    }
}

} // verus!
