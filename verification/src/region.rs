//! [`CRegion<T>`]: a stretch of C memory, as the elements it holds.
//!
//! A view such as [`CSlice`](crate::CSlice) is a pointer and a count and
//! asserts nothing about the memory behind it, which C may write at any time.
//! What it reads is decided when it reads: every accessor is handed the region
//! as it is at that moment.
use crate::pointer::{NonNullPtr, RawPtr};
use vstd::prelude::*;

verus! {

/// Contiguous elements of type `T` in C memory, the first of them at a known
/// address, each held in a cell of type `C`.
///
/// A cell is the element itself, or a slot that may not hold one yet; either way
/// the elements lie as far apart as a `T` is large. Its view is the sequence of
/// cells.
pub struct CRegion<T, C = T> {
    base: NonNullPtr<T>,
    cells: Vec<C>,
}

impl<T, C> View for CRegion<T, C> {
    type V = Seq<C>;

    closed spec fn view(&self) -> Seq<C> {
        self.cells@
    }
}

impl<T, C> CRegion<T, C> {
    /// The address of the first element.
    pub closed spec fn base(self) -> usize {
        self.base@
    }

    /// How many elements lie between the start of the region and `addr`.
    pub open spec fn offset(self, addr: usize) -> int {
        let size = vstd::layout::size_of::<T>() as int;
        if size == 0 {
            0
        } else {
            (addr - self.base()) / size
        }
    }

    /// Whether `addr` addresses `len` contiguous elements of this region.
    pub open spec fn holds(self, addr: usize, len: nat) -> bool {
        &&& self.base() <= addr
        &&& addr == crate::pointer::elem_addr::<T>(self.base(), self.offset(addr))
        &&& self.offset(addr) + len <= self@.len()
        &&& crate::pointer::fits::<T>(addr, len)
    }

    /// The `len` elements that `addr` addresses.
    pub open spec fn run(self, addr: usize, len: nat) -> Seq<C> {
        self@.subrange(self.offset(addr), self.offset(addr) + len)
    }

    /// Whether `self` is `before` with the elements that `addr` addresses
    /// replaced by `elems`: same place, every other element untouched.
    pub open spec fn replaces(self, before: Self, addr: usize, elems: Seq<C>) -> bool {
        let k = before.offset(addr);
        &&& self.base() == before.base()
        &&& self@ =~= before@.subrange(0, k) + elems + before@.subrange(
            k + elems.len(),
            before@.len() as int,
        )
    }

    /// The region that starts at `base` and holds `cells`.
    pub fn new(base: NonNullPtr<T>, cells: Vec<C>) -> (r: Self)
        ensures
            r.base() == base@,
            r@ == cells@,
    {
        CRegion { base, cells }
    }

    /// Number of elements.
    pub fn len(&self) -> (r: usize)
        ensures
            r == self@.len(),
    {
        self.cells.len()
    }

    /// Whether the region holds no element.
    pub fn is_empty(&self) -> (r: bool)
        ensures
            r == (self@.len() == 0),
    {
        self.cells.len() == 0
    }

    /// The elements.
    pub fn as_slice(&self) -> (r: &[C])
        ensures
            r@ == self@,
    {
        self.cells.as_slice()
    }

    /// Pointer to element `i`.
    pub fn ptr_at(&self, i: usize) -> (r: NonNullPtr<T>)
        requires
            i < self@.len(),
            crate::pointer::fits::<T>(self.base(), self@.len()),
        ensures
            r@ == crate::pointer::elem_addr::<T>(self.base(), i as int),
            vstd::layout::size_of::<T>() > 0 ==> self.offset(r@) == i,
            self.holds(r@, (self@.len() - i) as nat),
    {
        proof {
            crate::pointer::lemma_elem_addr_in_run::<T>(self.base(), i as int, self@.len());
        }
        let r = self.base.element(i);
        proof {
            lemma_offset_of_element(*self, r@, i as int);
            let size = vstd::layout::size_of::<T>();
            let n = self@.len();
            assert(i * size + (n - i) * size == n * size) by (nonlinear_arith);
            assert(size == 0 ==> i * size == 0) by (nonlinear_arith);
        }
        r
    }

    /// Index of the element at `ptr`.
    fn index_of(&self, ptr: RawPtr<T>) -> (r: usize)
        requires
            self.holds(ptr@, 0),
        ensures
            r == self.offset(ptr@),
    {
        let size: usize = core::mem::size_of::<T>();
        if size == 0 {
            0
        } else {
            (ptr.addr() - self.base.as_ptr().addr()) / size
        }
    }

    /// The element at `ptr`.
    pub fn get(&self, ptr: RawPtr<T>) -> (r: &C)
        requires
            self.holds(ptr@, 1),
        ensures
            *r == self.run(ptr@, 1)[0],
    {
        proof {
            lemma_holds_fewer(*self, ptr@, 0, 1);
            lemma_offset_non_negative(*self, ptr@);
        }
        let k: usize = self.index_of(ptr);
        &self.cells[k]
    }

    /// The element at `ptr`, exclusively.
    pub fn get_mut(&mut self, ptr: RawPtr<T>) -> (r: &mut C)
        requires
            old(self).holds(ptr@, 1),
        ensures
            *r == old(self).run(ptr@, 1)[0],
            final(self).replaces(*old(self), ptr@, seq![*final(r)]),
    {
        proof {
            lemma_holds_fewer(*self, ptr@, 0, 1);
            lemma_offset_non_negative(*self, ptr@);
        }
        let k: usize = self.index_of(ptr);
        &mut self.cells[k]
    }

    /// The `len` elements at `ptr`.
    pub fn slice(&self, ptr: RawPtr<T>, len: usize) -> (r: &[C])
        requires
            self.holds(ptr@, len as nat),
        ensures
            r@ == self.run(ptr@, len as nat),
    {
        proof {
            lemma_holds_fewer(*self, ptr@, 0, len as nat);
            lemma_offset_non_negative(*self, ptr@);
        }
        let k: usize = self.index_of(ptr);
        assert(k + len <= self.cells.len());
        vstd::slice::slice_subrange(self.cells.as_slice(), k, k + len)
    }

    /// The elements from `addr` to the end of the region.
    pub open spec fn tail(self, addr: usize) -> Seq<C> {
        self@.subrange(self.offset(addr), self@.len() as int)
    }

    /// The elements from `ptr` to the end of the region.
    pub fn slice_from(&self, ptr: RawPtr<T>) -> (r: &[C])
        requires
            self.holds(ptr@, 0),
        ensures
            r@ == self.tail(ptr@),
    {
        proof {
            lemma_offset_non_negative(*self, ptr@);
        }
        let k: usize = self.index_of(ptr);
        let n: usize = self.cells.len();
        vstd::slice::slice_subrange(self.cells.as_slice(), k, n)
    }

    /// The `len` elements at `ptr`, exclusively.
    pub fn slice_mut(&mut self, ptr: RawPtr<T>, len: usize) -> (r: &mut [C])
        requires
            old(self).holds(ptr@, len as nat),
        ensures
            r@ == old(self).run(ptr@, len as nat),
            final(r)@.len() == len ==> final(self).replaces(*old(self), ptr@, final(r)@),
    {
        proof {
            lemma_holds_fewer(*self, ptr@, 0, len as nat);
            lemma_offset_non_negative(*self, ptr@);
        }
        let k: usize = self.index_of(ptr);
        let cells: &mut [C] = self.cells.as_mut_slice();
        let (_before, rest) = cells.split_at_mut(k);
        let (run, _after) = rest.split_at_mut(len);
        run
    }
}

/// An address that addresses `more` elements addresses any smaller number.
pub proof fn lemma_holds_fewer<T, C>(region: CRegion<T, C>, addr: usize, len: nat, more: nat)
    requires
        region.holds(addr, more),
        len <= more,
    ensures
        region.holds(addr, len),
{
    crate::pointer::lemma_elem_addr_in_run::<T>(addr, len as int, more);
}

/// No element of a region lies before its start.
pub proof fn lemma_offset_non_negative<T, C>(region: CRegion<T, C>, addr: usize)
    requires
        region.base() <= addr,
    ensures
        region.offset(addr) >= 0,
{
    let size = vstd::layout::size_of::<T>() as int;
    if size > 0 {
        vstd::arithmetic::div_mod::lemma_div_pos_is_pos(addr - region.base(), size);
    }
}

/// The address of element `i` leads back to `i`.
pub proof fn lemma_offset_of_element<T, C>(region: CRegion<T, C>, addr: usize, i: int)
    requires
        0 <= i,
        addr == crate::pointer::elem_addr::<T>(region.base(), i),
    ensures
        vstd::layout::size_of::<T>() > 0 ==> region.offset(addr) == i,
{
    let size = vstd::layout::size_of::<T>() as int;
    if size > 0 {
        vstd::arithmetic::div_mod::lemma_div_by_multiple(i, size);
    }
}

} // verus!
