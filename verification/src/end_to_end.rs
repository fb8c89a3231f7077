//! What a caller observes, in terms of addresses and of the cells of memory.
//!
//! These laws follow a value through the calls that a caller makes, from the
//! numbers and cells that go in to those that come out. Memory is a region made
//! of `cells` from the address `b` on; the cell `k` places further on lies at
//! `b + k * size`.
use crate::borrowed_refs::{CSlice, CSliceMut, SelfPtr};
use crate::c_type::{CCell, CMut, CRef, CType, CZeroed};
use crate::owned_refs::{
    give_up_share, CBox, CBoxUninit, CBoxWith, CKeepalive, CTethered, CVal, CValGuard, CVec,
    CVoidBox, CrustifyStr, StrError,
};
use crate::pointer::{CChar, CVoid, NonNullPtr, RawPtr};
use crate::region::CRegion;
use crate::traits::{
    CCloned, CCloner, CDropped, CDroppedUninit, CDropper, CElem, CLenCloned, CLenDropped, CValued,
    Owner,
};
use crate::uninit::CUninit;
use std::sync::Arc;
use vstd::prelude::*;
use vstd::string::*;

verus! {

// Shares of an owner.
/// Releasing a share gives up that share and nothing else decides: where the
/// owner comes back it is released, and only where none comes back does the heap
/// stay as it was.
pub proof fn a_released_share_releases_what_it_hands_back<O: Owner>(
    share: Arc<O>,
    before: O::Heap,
    after: O::Heap,
)
    requires
        share.release_step(before, after),
    ensures
        exists|last: Option<O>| #[trigger]
            call_ensures(give_up_share::<O>, (share,), last) && match last {
                Some(owner) => owner == *share && (*share).release_step(before, after),
                None => after == before,
            },
{
}

/// A share has to be released where its owner has to be.
pub proof fn a_share_owes_what_its_owner_owes<O: Owner>(share: Arc<O>, heap: O::Heap)
    ensures
        share.owes(heap) <==> (*share).owes(heap),
{
}

/// Giving up a share takes the owner out of that share: what comes back is what
/// the share held, and what taking it out gave.
pub(crate) proof fn a_share_is_given_up_by_taking_its_owner_out<O>(
    share: Arc<O>,
    last: Option<O>,
)
    requires
        call_ensures(give_up_share::<O>, (share,), last),
    ensures
        call_ensures(crate::owned_refs::keepalive::into_inner::<O>, (share,), last),
        last matches Some(owner) ==> owner == *share,
{
    crate::owned_refs::keepalive::lemma_handed_back(share, last);
}

/// A view releases, when it goes, the owner that it was tethered to, as that
/// owner is released.
pub proof fn a_view_releases_its_owner<T: CCell, O: Owner>(
    tethering: &mut O::Heap,
    ptr: RawPtr<T::C>,
    owner: O,
    tethered: Option<CTethered<T, O>>,
    dropping: &mut O::Heap,
)
    requires
        call_ensures(CTethered::<T, O>::from_raw, (tethering, ptr, owner), tethered),
        tethered matches Some(view) ==> call_ensures(
            CTethered::<T, O>::drop,
            (view, dropping),
            (),
        ),
    ensures
        ptr@ == 0 <==> tethered is None,
        ptr@ == 0 ==> owner.release_step(*old(tethering), *final(tethering)),
        ptr@ != 0 ==> *final(tethering) == *old(tethering),
        ptr@ != 0 ==> owner.release_step(*old(dropping), *final(dropping)),
{
}

/// A keepalive is released by one teardown of the object whose box it was made
/// of.
pub proof fn a_keepalive_tears_its_object_down<P: CDropped + CCell>(
    ptr: RawPtr<P::C>,
    parent: CBox<P>,
    keep: CKeepalive<P>,
    before: P::Heap,
    after: P::Heap,
    dropping: &mut P::Heap,
)
    requires
        call_ensures(CBox::<P>::from_raw, (ptr,), Some(parent)),
        call_ensures(CKeepalive::<P>::new, (parent,), keep),
        keep.release_step(before, after),
        call_ensures(CKeepalive::<P>::drop, (keep, dropping), ()),
    ensures
        P::drop_step(before, ptr@, after),
        P::debts(after) == P::debts(before).remove(ptr@),
        P::drop_step(*old(dropping), ptr@, *final(dropping)),
        P::debts(*final(dropping)) == P::debts(*old(dropping)).remove(ptr@),
        keep.owes(before) <==> P::debts(before).contains(ptr@),
{
}

// Handles.
/// The shared handle that a wrapper of a plain C struct hands out points at the
/// wrapper that it was made of, and that is the address it is known by.
pub proof fn a_shared_handle_points_at_its_object<'a, T>(
    p: NonNullPtr<CType<T>>,
    h: CRef<'a, CType<T>>,
    q: RawPtr<T>,
    erased: RawPtr<CVoid>,
)
    requires
        call_ensures(CType::<T>::ref_from_raw, (p,), h),
        call_ensures(CRef::<'a, CType<T>>::as_ptr, (&h,), q),
        call_ensures(CRef::<'a, CType<T>>::as_void_ptr, (&h,), erased),
    ensures
        q@ == p@,
        erased@ == p@,
        CType::<T>::ref_addr(h) == q@,
{
}

/// The exclusive handle likewise.
pub proof fn an_exclusive_handle_points_at_its_object<'a, T>(
    p: NonNullPtr<CType<T>>,
    made: CMut<'a, CType<T>>,
    h: &mut CMut<'a, CType<T>>,
    q: RawPtr<T>,
)
    requires
        call_ensures(CType::<T>::mut_from_raw, (p,), made),
        made == *old(h),
        call_ensures(CMut::<'a, CType<T>>::as_mut_ptr, (h,), q),
    ensures
        q@ == p@,
        CType::<T>::mut_addr(made) == q@,
{
}

/// The address by which a shared handle of a plain C struct is known is the one
/// that it hands out.
pub proof fn a_shared_handle_is_known_by_its_pointer<'a, T>(h: CRef<'a, CType<T>>, q: RawPtr<T>)
    requires
        call_ensures(CRef::<'a, CType<T>>::as_ptr, (&h,), q),
    ensures
        CType::<T>::ref_addr(h) == q@,
{
}

/// The address by which an exclusive handle of a plain C struct is known is the
/// one that it hands out.
pub proof fn an_exclusive_handle_is_known_by_its_pointer<'a, T>(
    h: &mut CMut<'a, CType<T>>,
    q: RawPtr<T>,
)
    requires
        call_ensures(CMut::<'a, CType<T>>::as_mut_ptr, (h,), q),
    ensures
        CType::<T>::mut_addr(*old(h)) == q@,
{
}

/// Everything that a box hands out points at the object that it took over.
pub proof fn a_box_hands_out_its_object<T: CDropped + CCell>(
    ptr: RawPtr<T::C>,
    b: CBox<T>,
    h: T::Ref<'_>,
    q: RawPtr<T::C>,
    exclusive: &mut CBox<T>,
    m: T::Mut<'_>,
)
    requires
        call_ensures(CBox::<T>::from_raw, (ptr,), Some(b)),
        call_ensures(CBox::<T>::as_ptr, (&b,), q),
        call_ensures(CBox::<T>::as_ref, (&b,), h),
        *old(exclusive) == b,
        call_ensures(CBox::<T>::as_mut, (exclusive,), m),
    ensures
        q@ == ptr@,
        T::ref_addr(h) == ptr@,
        T::mut_addr(m) == ptr@,
        final(exclusive)@ == ptr@,
{
}

// Memory.
/// The cell that lies `k` places after the start of a region is cell `k`.
proof fn lemma_cell_of_address<T, C>(
    b: NonNullPtr<T>,
    cells: Vec<C>,
    region: CRegion<T, C>,
    addr: usize,
    k: int,
)
    requires
        call_ensures(CRegion::<T, C>::new, (b, cells), region),
        vstd::layout::size_of::<T>() > 0,
        0 <= k,
        addr == b@ + k * vstd::layout::size_of::<T>(),
    ensures
        region@ == cells@,
        region.offset(addr) == k,
        forall|n: nat|
            k + n <= cells@.len() && b@ + cells@.len() * vstd::layout::size_of::<T>()
                <= usize::MAX ==> #[trigger] region.holds(addr, n),
{
    crate::region::lemma_offset_of_element(region, addr, k);
    let size = vstd::layout::size_of::<T>();
    assert(0 <= k * size) by (nonlinear_arith)
        requires
            0 <= k,
            0 <= size,
    ;
    assert forall|n: nat|
        k + n <= cells@.len() && b@ + cells@.len() * size <= usize::MAX implies #[trigger] region.holds(
        addr,
        n,
    ) by {
        let len = cells@.len();
        assert(k * size + n * size <= len * size) by (nonlinear_arith)
            requires
                k + n <= len,
                0 <= size,
        ;
    }
}

/// The pointer to an element lies that many elements further on.
pub proof fn elements_lie_one_size_apart<T>(p: NonNullPtr<T>, i: usize, q: NonNullPtr<T>)
    requires
        call_ensures(NonNullPtr::<T>::element, (p, i), q),
    ensures
        q@ == p@ + i * vstd::layout::size_of::<T>(),
{
}

/// A region hands out the addresses of its cells, one size apart from its start
/// on.
pub proof fn cells_lie_one_size_apart<T, C>(
    b: NonNullPtr<T>,
    cells: Vec<C>,
    region: CRegion<T, C>,
    i: usize,
    q: NonNullPtr<T>,
)
    requires
        call_ensures(CRegion::<T, C>::new, (b, cells), region),
        call_ensures(CRegion::<T, C>::ptr_at, (&region, i), q),
    ensures
        q@ == b@ + i * vstd::layout::size_of::<T>(),
{
}

/// What a region reads at an address is what the cells there hold: one cell, a
/// run of them, or all from there on. Every run of cells can be read.
pub proof fn a_region_reads_its_cells<T, C>(
    b: NonNullPtr<T>,
    cells: Vec<C>,
    region: CRegion<T, C>,
    p: RawPtr<T>,
    k: int,
    n: usize,
    one: &C,
    run: &[C],
    rest: &[C],
)
    requires
        call_ensures(CRegion::<T, C>::new, (b, cells), region),
        vstd::layout::size_of::<T>() > 0,
        0 <= k,
        p@ == b@ + k * vstd::layout::size_of::<T>(),
        k + n <= cells@.len(),
        call_ensures(CRegion::<T, C>::get, (&region, p), one),
        call_ensures(CRegion::<T, C>::slice, (&region, p, n), run),
        call_ensures(CRegion::<T, C>::slice_from, (&region, p), rest),
    ensures
        k < cells@.len() ==> *one == cells@[k],
        run@ == cells@.subrange(k, k + n),
        rest@ == cells@.subrange(k, cells@.len() as int),
        b@ + cells@.len() * vstd::layout::size_of::<T>() <= usize::MAX ==> {
            &&& call_requires(CRegion::<T, C>::slice, (&region, p, n))
            &&& call_requires(CRegion::<T, C>::slice_from, (&region, p))
            &&& k < cells@.len() ==> call_requires(CRegion::<T, C>::get, (&region, p))
        },
{
    lemma_cell_of_address(b, cells, region, p@, k);
    if b@ + cells@.len() * vstd::layout::size_of::<T>() <= usize::MAX {
        assert(region.holds(p@, n as nat));
        assert(region.holds(p@, 0));
        if k < cells@.len() {
            assert(region.holds(p@, 1));
        }
    }
}

/// A cell that is written through a region is the one at the address, and
/// reading any cell afterwards gives the new value there and what the cell held
/// elsewhere.
pub proof fn a_region_writes_one_cell<T, C>(
    b: NonNullPtr<T>,
    cells: Vec<C>,
    region: CRegion<T, C>,
    p: RawPtr<T>,
    k: int,
    writing: &mut CRegion<T, C>,
    cell: &mut C,
    q: RawPtr<T>,
    j: int,
    read: &C,
)
    requires
        call_ensures(CRegion::<T, C>::new, (b, cells), region),
        vstd::layout::size_of::<T>() > 0,
        0 <= k,
        p@ == b@ + k * vstd::layout::size_of::<T>(),
        k < cells@.len(),
        *old(writing) == region,
        call_ensures(CRegion::<T, C>::get_mut, (writing, p), cell),
        0 <= j < cells@.len(),
        q@ == b@ + j * vstd::layout::size_of::<T>(),
        call_ensures(CRegion::<T, C>::get, (&*final(writing), q), read),
    ensures
        *old(cell) == cells@[k],
        *read == (if j == k {
            *final(cell)
        } else {
            cells@[j]
        }),
{
    lemma_cell_of_address(b, cells, region, p@, k);
    lemma_cell_of_address(b, cells, region, q@, j);
    assert(final(writing).offset(q@) == region.offset(q@));
}

/// A run that is written through a region likewise.
pub proof fn a_region_writes_one_run<T, C>(
    b: NonNullPtr<T>,
    cells: Vec<C>,
    region: CRegion<T, C>,
    p: RawPtr<T>,
    k: int,
    n: usize,
    writing: &mut CRegion<T, C>,
    run: &mut [C],
    q: RawPtr<T>,
    j: int,
    read: &C,
)
    requires
        call_ensures(CRegion::<T, C>::new, (b, cells), region),
        vstd::layout::size_of::<T>() > 0,
        0 <= k,
        p@ == b@ + k * vstd::layout::size_of::<T>(),
        k + n <= cells@.len(),
        *old(writing) == region,
        call_ensures(CRegion::<T, C>::slice_mut, (writing, p, n), run),
        final(run)@.len() == n,
        0 <= j < cells@.len(),
        q@ == b@ + j * vstd::layout::size_of::<T>(),
        call_ensures(CRegion::<T, C>::get, (&*final(writing), q), read),
    ensures
        old(run)@ == cells@.subrange(k, k + n),
        *read == (if k <= j < k + n {
            final(run)@[j - k]
        } else {
            cells@[j]
        }),
{
    lemma_cell_of_address(b, cells, region, p@, k);
    lemma_cell_of_address(b, cells, region, q@, j);
    assert(final(writing).offset(q@) == region.offset(q@));
}

// Runs of plain values.
/// A shared run of plain values reads the cells that lie from its start on, in
/// order: element by element, as a whole, and copied out. Every run of cells can
/// be read.
pub proof fn a_shared_run_reads_its_cells<'a, T: CElem + Copy>(
    b: NonNullPtr<T>,
    cells: Vec<T>,
    region: CRegion<T>,
    p: NonNullPtr<T>,
    k: int,
    len: usize,
    run: CSlice<'a, T>,
    i: usize,
    at: Option<T>,
    all: Vec<T>,
    dst: &mut [T],
    copied: bool,
)
    requires
        call_ensures(CRegion::<T, T>::new, (b, cells), region),
        vstd::layout::size_of::<T>() > 0,
        0 <= k,
        p@ == b@ + k * vstd::layout::size_of::<T>(),
        k + len <= cells@.len(),
        call_ensures(CSlice::<'a, T>::from_raw_parts, (p, len), run),
        call_ensures(CSlice::<'a, T>::elem, (&run, &region, i), at),
        call_ensures(CSlice::<'a, T>::elems, (&run, &region), all),
        call_ensures(CSlice::<'a, T>::copy_to_slice, (&run, &region, dst), copied),
    ensures
        i < len ==> at == Some(cells@[k + i]),
        i >= len ==> at is None,
        all@ == cells@.subrange(k, k + len),
        copied <==> old(dst)@.len() == len,
        copied ==> final(dst)@ == cells@.subrange(k, k + len),
        !copied ==> final(dst)@ == old(dst)@,
        b@ + cells@.len() * vstd::layout::size_of::<T>() <= usize::MAX ==> {
            &&& call_requires(CSlice::<'a, T>::elem, (&run, &region, i))
            &&& call_requires(CSlice::<'a, T>::elems, (&run, &region))
            &&& call_requires(CSlice::<'a, T>::copy_to_slice, (&run, &region, dst))
        },
{
    lemma_cell_of_address(b, cells, region, p@, k);
    if b@ + cells@.len() * vstd::layout::size_of::<T>() <= usize::MAX {
        assert(region.holds(p@, len as nat));
    }
}

/// An exclusive run of plain values reads them likewise, and so does the shared
/// run that it is reborrowed as.
pub proof fn an_exclusive_run_reads_its_cells<'a, 's, T: CElem + Copy>(
    b: NonNullPtr<T>,
    cells: Vec<T>,
    region: CRegion<T>,
    p: NonNullPtr<T>,
    k: int,
    len: usize,
    run: CSliceMut<'a, T>,
    shared: CSlice<'s, T>,
    i: usize,
    at: Option<T>,
    all: Vec<T>,
    dst: &mut [T],
    copied: bool,
)
    requires
        call_ensures(CRegion::<T, T>::new, (b, cells), region),
        vstd::layout::size_of::<T>() > 0,
        0 <= k,
        p@ == b@ + k * vstd::layout::size_of::<T>(),
        k + len <= cells@.len(),
        call_ensures(CSliceMut::<'a, T>::from_raw_parts, (p, len), run),
        call_ensures(CSliceMut::<'a, T>::elem, (&run, &region, i), at),
        call_ensures(CSliceMut::<'a, T>::as_ref, (&run,), shared),
        call_ensures(CSlice::<'s, T>::elems, (&shared, &region), all),
        call_ensures(CSliceMut::<'a, T>::copy_to_slice, (&run, &region, dst), copied),
    ensures
        i < len ==> at == Some(cells@[k + i]),
        i >= len ==> at is None,
        all@ == cells@.subrange(k, k + len),
        copied <==> old(dst)@.len() == len,
        copied ==> final(dst)@ == cells@.subrange(k, k + len),
        !copied ==> final(dst)@ == old(dst)@,
        b@ + cells@.len() * vstd::layout::size_of::<T>() <= usize::MAX ==> {
            &&& call_requires(CSliceMut::<'a, T>::elem, (&run, &region, i))
            &&& call_requires(CSliceMut::<'a, T>::copy_to_slice, (&run, &region, dst))
        },
{
    lemma_cell_of_address(b, cells, region, p@, k);
    if b@ + cells@.len() * vstd::layout::size_of::<T>() <= usize::MAX {
        assert(region.holds(p@, len as nat));
    }
}

/// Writing element `i` of a run writes the cell that lies `i` places after its
/// start, and nothing where there is no such element. Reading any cell afterwards
/// tells.
pub proof fn a_run_writes_one_element<'a, T: CElem>(
    b: NonNullPtr<T>,
    cells: Vec<T>,
    region: CRegion<T>,
    p: NonNullPtr<T>,
    k: int,
    len: usize,
    made: CSliceMut<'a, T>,
    run: &mut CSliceMut<'a, T>,
    writing: &mut CRegion<T>,
    i: usize,
    v: T,
    written: bool,
    q: RawPtr<T>,
    j: int,
    read: &T,
)
    requires
        call_ensures(CRegion::<T, T>::new, (b, cells), region),
        vstd::layout::size_of::<T>() > 0,
        0 <= k,
        p@ == b@ + k * vstd::layout::size_of::<T>(),
        k + len <= cells@.len(),
        call_ensures(CSliceMut::<'a, T>::from_raw_parts, (p, len), made),
        *old(run) == made,
        *old(writing) == region,
        call_ensures(CSliceMut::<'a, T>::set_elem, (run, writing, i, v), written),
        0 <= j < cells@.len(),
        q@ == b@ + j * vstd::layout::size_of::<T>(),
        call_ensures(CRegion::<T, T>::get, (&*final(writing), q), read),
    ensures
        written <==> i < len,
        *read == (if i < len && j == k + i {
            v
        } else {
            cells@[j]
        }),
        b@ + cells@.len() * vstd::layout::size_of::<T>() <= usize::MAX ==> call_requires(
            CSliceMut::<'a, T>::set_elem,
            (run, writing, i, v),
        ),
{
    lemma_cell_of_address(b, cells, region, p@, k);
    lemma_cell_of_address(b, cells, region, q@, j);
    assert(final(writing).offset(q@) == region.offset(q@));
    if b@ + cells@.len() * vstd::layout::size_of::<T>() <= usize::MAX {
        assert(region.holds(p@, len as nat));
    }
}

/// Overwriting a run from a slice of its length writes the slice over the cells
/// that lie from its start on, in order, and nothing else; from a slice of
/// another length it writes nothing.
pub proof fn a_run_is_overwritten_in_order<'a, T: CElem + Copy>(
    b: NonNullPtr<T>,
    cells: Vec<T>,
    region: CRegion<T>,
    p: NonNullPtr<T>,
    k: int,
    len: usize,
    made: CSliceMut<'a, T>,
    run: &mut CSliceMut<'a, T>,
    writing: &mut CRegion<T>,
    src: &[T],
    written: bool,
    q: RawPtr<T>,
    j: int,
    read: &T,
)
    requires
        call_ensures(CRegion::<T, T>::new, (b, cells), region),
        vstd::layout::size_of::<T>() > 0,
        0 <= k,
        p@ == b@ + k * vstd::layout::size_of::<T>(),
        k + len <= cells@.len(),
        call_ensures(CSliceMut::<'a, T>::from_raw_parts, (p, len), made),
        *old(run) == made,
        *old(writing) == region,
        call_ensures(CSliceMut::<'a, T>::copy_from_slice, (run, writing, src), written),
        0 <= j < cells@.len(),
        q@ == b@ + j * vstd::layout::size_of::<T>(),
        call_ensures(CRegion::<T, T>::get, (&*final(writing), q), read),
    ensures
        written <==> src@.len() == len,
        *read == (if written && k <= j < k + len {
            src@[j - k]
        } else {
            cells@[j]
        }),
        b@ + cells@.len() * vstd::layout::size_of::<T>() <= usize::MAX ==> call_requires(
            CSliceMut::<'a, T>::copy_from_slice,
            (run, writing, src),
        ),
{
    lemma_cell_of_address(b, cells, region, p@, k);
    lemma_cell_of_address(b, cells, region, q@, j);
    assert(final(writing).offset(q@) == region.offset(q@));
    if b@ + cells@.len() * vstd::layout::size_of::<T>() <= usize::MAX {
        assert(region.holds(p@, len as nat));
    }
}

/// The handles of a shared run address its elements, from its start on and one
/// size apart, whether they are taken one at a time or all at once.
pub proof fn shared_handles_address_the_elements<'a, T: CCell>(
    p: NonNullPtr<T>,
    len: usize,
    run: CSlice<'a, T>,
    i: usize,
    at: Option<T::Ref<'a>>,
    all: Vec<T::Ref<'a>>,
    first: RawPtr<T::C>,
    count: usize,
)
    requires
        call_ensures(CSlice::<'a, T>::from_raw_parts, (p, len), run),
        call_ensures(CSlice::<'a, T>::get, (&run, i), at),
        call_ensures(CSlice::<'a, T>::iter, (&run,), all),
        call_ensures(CSlice::<'a, T>::as_ptr, (&run,), first),
        call_ensures(CSlice::<'a, T>::len, (&run,), count),
    ensures
        first@ == p@,
        count == len,
        all@.len() == len,
        at is Some <==> i < len,
        at matches Some(h) ==> T::ref_addr(h) == p@ + i * vstd::layout::size_of::<T>(),
        i < len ==> T::ref_addr(all@[i as int]) == p@ + i * vstd::layout::size_of::<T>(),
{
    if i < len {
        assert(T::ref_addr(all@[i as int]) == run.addr_of(i as int));
    }
}

/// The exclusive handles of a run likewise.
pub proof fn exclusive_handles_address_the_elements<'a, 's, T: CCell>(
    p: NonNullPtr<T>,
    len: usize,
    made: CSliceMut<'a, T>,
    run: &'s mut CSliceMut<'a, T>,
    i: usize,
    at: Option<T::Mut<'s>>,
    all: Vec<T::Mut<'s>>,
    shared: Option<T::Ref<'s>>,
    shared_all: Vec<T::Ref<'s>>,
)
    requires
        call_ensures(CSliceMut::<'a, T>::from_raw_parts, (p, len), made),
        *old(run) == made,
        call_ensures(CSliceMut::<'a, T>::get_mut, (run, i), at),
        call_ensures(CSliceMut::<'a, T>::iter_mut, (run,), all),
        call_ensures(CSliceMut::<'a, T>::get, (&made, i), shared),
        call_ensures(CSliceMut::<'a, T>::iter, (&made,), shared_all),
    ensures
        all@.len() == len,
        shared_all@.len() == len,
        at is Some <==> i < len,
        shared is Some <==> i < len,
        at matches Some(h) ==> T::mut_addr(h) == p@ + i * vstd::layout::size_of::<T>(),
        shared matches Some(h) ==> T::ref_addr(h) == p@ + i * vstd::layout::size_of::<T>(),
        i < len ==> T::mut_addr(all@[i as int]) == p@ + i * vstd::layout::size_of::<T>(),
        i < len ==> T::ref_addr(shared_all@[i as int]) == p@ + i * vstd::layout::size_of::<T>(),
        *final(run) == made,
{
    if i < len {
        assert(T::mut_addr(all@[i as int]) == made.addr_of(i as int));
        assert(T::ref_addr(shared_all@[i as int]) == made.addr_of(i as int));
    }
}

/// The handles of a buffer of objects address the objects of the array that it
/// took over.
pub proof fn buffer_handles_address_the_objects<'s, T: CCell, S: CLenDropped>(
    ptr: RawPtr<T>,
    count: usize,
    v: CVec<T, S>,
    run: CSlice<'s, T>,
    i: usize,
    at: Option<T::Ref<'s>>,
    owner: &'s mut CVec<T, S>,
    exclusive: CSliceMut<'s, T>,
    taking: &'s mut CSliceMut<'s, T>,
    at_mut: Option<T::Mut<'s>>,
)
    requires
        call_ensures(CVec::<T, S>::from_raw_parts, (ptr, count), Some(v)),
        call_ensures(CVec::<T, S>::as_handles, (&v,), run),
        call_ensures(CSlice::<'s, T>::get, (&run, i), at),
        *old(owner) == v,
        call_ensures(CVec::<T, S>::as_handles_mut, (owner,), exclusive),
        *old(taking) == exclusive,
        call_ensures(CSliceMut::<'s, T>::get_mut, (taking, i), at_mut),
    ensures
        at is Some <==> i < count,
        at matches Some(h) ==> T::ref_addr(h) == ptr@ + i * vstd::layout::size_of::<T>(),
        at_mut is Some <==> i < count,
        at_mut matches Some(h) ==> T::mut_addr(h) == ptr@ + i * vstd::layout::size_of::<T>(),
        *final(owner) == v,
{
}

// Buffers.
/// A buffer of plain values reads the cells of the array that it took over, and
/// every array of cells can be read.
pub proof fn a_buffer_reads_its_cells<T: CElem, S: CLenDropped>(
    b: NonNullPtr<T>,
    cells: Vec<T>,
    region: CRegion<T>,
    p: RawPtr<T>,
    k: int,
    count: usize,
    v: CVec<T, S>,
    values: &[T],
)
    requires
        call_ensures(CRegion::<T, T>::new, (b, cells), region),
        vstd::layout::size_of::<T>() > 0,
        0 <= k,
        p@ == b@ + k * vstd::layout::size_of::<T>(),
        k + count <= cells@.len(),
        call_ensures(CVec::<T, S>::from_raw_parts, (p, count), Some(v)),
        call_ensures(CVec::<T, S>::as_slice, (&v, &region), values),
    ensures
        values@ == cells@.subrange(k, k + count),
        b@ + cells@.len() * vstd::layout::size_of::<T>() <= usize::MAX ==> call_requires(
            CVec::<T, S>::as_slice,
            (&v, &region),
        ),
{
    lemma_cell_of_address(b, cells, region, p@, k);
    if b@ + cells@.len() * vstd::layout::size_of::<T>() <= usize::MAX {
        assert(region.holds(p@, count as nat));
    }
}

/// What is written through a buffer lands in the cells of its array, in order,
/// and nowhere else.
pub proof fn a_buffer_writes_its_cells<T: CElem, S: CLenDropped>(
    b: NonNullPtr<T>,
    cells: Vec<T>,
    region: CRegion<T>,
    p: RawPtr<T>,
    k: int,
    count: usize,
    v: CVec<T, S>,
    owner: &mut CVec<T, S>,
    writing: &mut CRegion<T>,
    values: &mut [T],
    q: RawPtr<T>,
    j: int,
    read: &T,
)
    requires
        call_ensures(CRegion::<T, T>::new, (b, cells), region),
        vstd::layout::size_of::<T>() > 0,
        0 <= k,
        p@ == b@ + k * vstd::layout::size_of::<T>(),
        k + count <= cells@.len(),
        call_ensures(CVec::<T, S>::from_raw_parts, (p, count), Some(v)),
        *old(owner) == v,
        *old(writing) == region,
        call_ensures(CVec::<T, S>::as_mut_slice, (owner, writing), values),
        final(values)@.len() == count,
        0 <= j < cells@.len(),
        q@ == b@ + j * vstd::layout::size_of::<T>(),
        call_ensures(CRegion::<T, T>::get, (&*final(writing), q), read),
    ensures
        old(values)@ == cells@.subrange(k, k + count),
        *read == (if k <= j < k + count {
            final(values)@[j - k]
        } else {
            cells@[j]
        }),
        *final(owner) == v,
{
    lemma_cell_of_address(b, cells, region, p@, k);
    lemma_cell_of_address(b, cells, region, q@, j);
    assert(final(writing).offset(q@) == region.offset(q@));
}

/// A buffer is released at the address and with the byte length of the array that
/// it took over, once, and only that array is settled. The byte length is the
/// count times the size of an element, up to whole turns of the address space.
pub proof fn a_buffer_is_released_as_it_was_taken_over<T, S: CLenDropped>(
    ptr: RawPtr<T>,
    count: usize,
    v: CVec<T, S>,
    byte_len: usize,
    counted: usize,
    empty: bool,
    dropping: &mut S::Heap,
)
    requires
        call_ensures(CVec::<T, S>::from_raw_parts, (ptr, count), Some(v)),
        call_ensures(CVec::<T, S>::byte_len, (&v,), byte_len),
        call_ensures(CVec::<T, S>::count, (&v,), counted),
        call_ensures(CVec::<T, S>::is_empty, (&v,), empty),
        call_ensures(CVec::<T, S>::drop, (v, dropping), ()),
    ensures
        counted == count,
        empty <==> count == 0,
        byte_len == (count * vstd::layout::size_of::<T>()) % (usize::MAX + 1),
        S::drop_step(*old(dropping), ptr@, byte_len, *final(dropping)),
        S::debts(*final(dropping)) == S::debts(*old(dropping)).remove((ptr@, byte_len)),
        S::debts(*old(dropping)).contains((ptr@, byte_len)) ==> call_requires(
            CVec::<T, S>::drop,
            (v, dropping),
        ),
{
    let n = count * vstd::layout::size_of::<T>();
    assert(0 <= n) by {
        assert(0 <= count * vstd::layout::size_of::<T>()) by (nonlinear_arith);
    }
    vstd::arithmetic::div_mod::lemma_mod_bound(n, usize::MAX + 1);
}

/// A buffer is copied by one copy of its bytes from its own address, and the copy
/// has its count and lies apart from every buffer of some bytes that is owed.
pub proof fn a_buffer_is_copied_from_its_address<T, S: CLenCloned>(
    ptr: RawPtr<T>,
    count: usize,
    v: CVec<T, S>,
    byte_len: usize,
    cloning: &mut S::Heap,
    copy: Option<CVec<T, S>>,
)
    requires
        call_ensures(CVec::<T, S>::from_raw_parts, (ptr, count), Some(v)),
        call_ensures(CVec::<T, S>::byte_len, (&v,), byte_len),
        call_ensures(CVec::<T, S>::try_clone, (&v, cloning), copy),
    ensures
        copy is None ==> S::clone_step(*old(cloning), ptr@, byte_len, None, *final(cloning)),
        copy is None ==> S::debts(*final(cloning)) == S::debts(*old(cloning)),
        copy matches Some(w) ==> {
            &&& S::clone_step(*old(cloning), ptr@, byte_len, Some(w.start()), *final(cloning))
            &&& S::debts(*final(cloning)) == S::debts(*old(cloning)).insert((w.start(), byte_len))
            &&& w.length() == count
            &&& S::bytes(*final(cloning), w.start(), byte_len) == S::bytes(
                *old(cloning),
                ptr@,
                byte_len,
            )
            &&& byte_len > 0 ==> forall|len: usize|
                len > 0 ==> !#[trigger] S::debts(*old(cloning)).contains((w.start(), len))
        },
        S::bytes(*final(cloning), ptr@, byte_len) == S::bytes(*old(cloning), ptr@, byte_len),
{
}

// Out-parameters, guards and back-references.
/// An out-parameter is the slot at its pointer: what it shows before is what the
/// slot held, and reading any slot afterwards gives what was written there and
/// what the slot held elsewhere. A null pointer gives none.
pub proof fn an_out_parameter_is_its_slot<'a, T>(
    b: NonNullPtr<T>,
    cells: Vec<CUninit<T>>,
    region: CRegion<T, CUninit<T>>,
    p: RawPtr<T>,
    k: int,
    writing: &'a mut CRegion<T, CUninit<T>>,
    out: &'a mut CUninit<T>,
    q: RawPtr<T>,
    j: int,
    read: &CUninit<T>,
)
    requires
        call_ensures(CRegion::<T, CUninit<T>>::new, (b, cells), region),
        vstd::layout::size_of::<T>() > 0,
        0 <= k,
        p@ == b@ + k * vstd::layout::size_of::<T>(),
        k < cells@.len(),
        *old(writing) == region,
        call_ensures(crate::borrowed_refs::from_ptr::<T>, (writing, p), Some(out)),
        0 <= j < cells@.len(),
        q@ == b@ + j * vstd::layout::size_of::<T>(),
        call_ensures(CRegion::<T, CUninit<T>>::get, (&*final(writing), q), read),
    ensures
        *old(out) == cells@[k],
        *read == (if j == k {
            *final(out)
        } else {
            cells@[j]
        }),
        b@ + cells@.len() * vstd::layout::size_of::<T>() <= usize::MAX ==> call_requires(
            crate::borrowed_refs::from_ptr::<T>,
            (writing, p),
        ),
{
    lemma_cell_of_address(b, cells, region, p@, k);
    lemma_cell_of_address(b, cells, region, q@, j);
    assert(final(writing).offset(q@) == region.offset(q@));
    if b@ + cells@.len() * vstd::layout::size_of::<T>() <= usize::MAX {
        assert(region.holds(p@, 1));
    }
}

/// A guard over a pointer guards the value at that pointer and is known by that
/// address; reading any value afterwards gives what became of it there and what
/// was held elsewhere.
pub proof fn a_guard_guards_the_value_at_its_pointer<'a, T: CValued + CCell>(
    b: NonNullPtr<T>,
    cells: Vec<T>,
    region: CRegion<T>,
    p: RawPtr<T>,
    k: int,
    guarding: &'a mut CRegion<T>,
    guard: CValGuard<'a, T>,
    value: &T,
    h: T::Ref<'_>,
    q: RawPtr<T>,
    j: int,
    read: &T,
)
    requires
        call_ensures(CRegion::<T, T>::new, (b, cells), region),
        vstd::layout::size_of::<T>() > 0,
        0 <= k,
        p@ == b@ + k * vstd::layout::size_of::<T>(),
        k < cells@.len(),
        *old(guarding) == region,
        call_ensures(CValGuard::<'a, T>::from_ptr, (guarding, p), Some(guard)),
        call_ensures(CValGuard::<'a, T>::get, (&guard,), value),
        call_ensures(CValGuard::<'a, T>::as_ref, (&guard,), h),
        0 <= j < cells@.len(),
        q@ == b@ + j * vstd::layout::size_of::<T>(),
        call_ensures(CRegion::<T, T>::get, (&*final(guarding), q), read),
    ensures
        *value == cells@[k],
        T::ref_addr(h) == p@,
        *read == (if j == k {
            *final(guard.value)
        } else {
            cells@[j]
        }),
{
    lemma_cell_of_address(b, cells, region, p@, k);
    lemma_cell_of_address(b, cells, region, q@, j);
    assert(final(guarding).offset(q@) == region.offset(q@));
}

/// A back-reference to a pointer is to the object there.
pub proof fn a_back_reference_reads_its_object<'this, T>(
    b: NonNullPtr<T>,
    cells: Vec<T>,
    region: CRegion<T>,
    p: RawPtr<T>,
    k: int,
    back: Option<SelfPtr<'this, T>>,
)
    requires
        call_ensures(CRegion::<T, T>::new, (b, cells), region),
        vstd::layout::size_of::<T>() > 0,
        0 <= k,
        p@ == b@ + k * vstd::layout::size_of::<T>(),
        k < cells@.len(),
        call_ensures(SelfPtr::<'this, T>::from_raw, (&region, p), back),
    ensures
        back is Some <==> p@ != 0,
        back matches Some(s) ==> forall|object: &'this T|
            call_ensures(SelfPtr::<'this, T>::get, (&s,), object) ==> *object == cells@[k],
{
    lemma_cell_of_address(b, cells, region, p@, k);
}

// Values in Rust's own storage.
/// The handles of a value that is held inline borrow the place where that value
/// lies: the address is one that asking where the value lies gives, for the very
/// value that the owner holds.
pub(crate) proof fn inline_handles_borrow_the_place_of_the_value<T: CValued + CCell>(
    inner: T,
    v: CVal<T>,
    value: &T,
    h: T::Ref<'_>,
    owner: &mut CVal<T>,
    m: T::Mut<'_>,
)
    requires
        call_ensures(CVal::<T>::new, (inner,), v),
        call_ensures(CVal::<T>::get, (&v,), value),
        call_ensures(CVal::<T>::as_ref, (&v,), h),
        *old(owner) == v,
        call_ensures(CVal::<T>::as_mut, (owner,), m),
    ensures
        *value == inner,
        call_ensures(crate::pointer::place_of::<T>, (value,), T::ref_addr(h)),
        call_ensures(crate::pointer::place_of::<T>, (value,), T::mut_addr(m)),
{
    crate::pointer::lemma_lies_at(value, T::ref_addr(h));
    crate::pointer::lemma_lies_at(value, T::mut_addr(m));
}

/// A guard over a borrowed value is known by the place where that value lies, and
/// its handle borrows that place.
pub(crate) proof fn a_guard_borrows_the_place_of_its_value<'a, T: CValued + CCell>(
    value: &'a mut T,
    guard: CValGuard<'a, T>,
    held: &T,
    h: T::Ref<'_>,
)
    requires
        call_ensures(CValGuard::<'a, T>::new, (value,), guard),
        call_ensures(CValGuard::<'a, T>::get, (&guard,), held),
        call_ensures(CValGuard::<'a, T>::as_ref, (&guard,), h),
    ensures
        *held == *old(value),
        call_ensures(crate::pointer::place_of::<T>, (&*old(value),), T::ref_addr(h)),
{
    crate::pointer::lemma_lies_at(&*old(value), T::ref_addr(h));
}

/// A back-reference points at the place of the object that it was made of.
pub(crate) proof fn a_back_reference_points_at_its_object<'this, T>(
    target: &'this T,
    s: SelfPtr<'this, T>,
    object: &'this T,
    p: RawPtr<T>,
)
    requires
        call_ensures(SelfPtr::<'this, T>::new, (target,), s),
        call_ensures(SelfPtr::<'this, T>::get, (&s,), object),
        call_ensures(SelfPtr::<'this, T>::as_ptr, (&s,), p),
    ensures
        *object == *target,
        call_ensures(crate::pointer::place_of::<T>, (target,), p@),
{
    crate::pointer::lemma_lies_at(target, p@);
}

/// The pointer to an initialised slot is to the place of what it holds.
pub(crate) proof fn a_slot_points_at_its_value<T>(
    value: T,
    made: CUninit<T>,
    slot: &mut CUninit<T>,
    p: RawPtr<T>,
    held: T,
)
    requires
        call_ensures(CUninit::<T>::new, (value,), made),
        *old(slot) == made,
        call_ensures(CUninit::<T>::as_mut_ptr, (slot,), p),
        call_ensures(CUninit::<T>::assume_init, (made,), held),
    ensures
        held == value,
        call_ensures(crate::pointer::place_of::<T>, (&value,), p@),
{
    crate::pointer::lemma_lies_at(&value, p@);
}

/// A place that is told is a place where the value can lie: not null, a multiple
/// of its alignment, and with room for it.
pub(crate) proof fn a_place_has_room_for_its_value<T>(value: &T, p: NonNullPtr<T>)
    requires
        call_ensures(crate::pointer::pointer_to::<T>, (value,), p),
    ensures
        call_ensures(crate::pointer::place_of::<T>, (value,), p@),
        p@ != 0,
        p@ as int % vstd::layout::align_of::<T>() as int == 0,
        p@ + vstd::layout::size_of::<T>() <= usize::MAX,
{
    crate::pointer::lemma_lies_at(value, p@);
    let size = vstd::layout::size_of::<T>();
    assert(1 * size == size);
}

/// The zero values of the plain types are zero.
pub proof fn zero_values_are_zero<T>(
    z_u8: u8,
    z_u16: u16,
    z_u32: u32,
    z_u64: u64,
    z_u128: u128,
    z_usize: usize,
    z_i8: i8,
    z_i16: i16,
    z_i32: i32,
    z_i64: i64,
    z_i128: i128,
    z_isize: isize,
    z_ptr: RawPtr<T>,
)
    requires
        call_ensures(<u8 as CZeroed>::zeroed, (), z_u8),
        call_ensures(<u16 as CZeroed>::zeroed, (), z_u16),
        call_ensures(<u32 as CZeroed>::zeroed, (), z_u32),
        call_ensures(<u64 as CZeroed>::zeroed, (), z_u64),
        call_ensures(<u128 as CZeroed>::zeroed, (), z_u128),
        call_ensures(<usize as CZeroed>::zeroed, (), z_usize),
        call_ensures(<i8 as CZeroed>::zeroed, (), z_i8),
        call_ensures(<i16 as CZeroed>::zeroed, (), z_i16),
        call_ensures(<i32 as CZeroed>::zeroed, (), z_i32),
        call_ensures(<i64 as CZeroed>::zeroed, (), z_i64),
        call_ensures(<i128 as CZeroed>::zeroed, (), z_i128),
        call_ensures(<isize as CZeroed>::zeroed, (), z_isize),
        call_ensures(<RawPtr<T> as CZeroed>::zeroed, (), z_ptr),
    ensures
        z_u8 == 0,
        z_u16 == 0,
        z_u32 == 0,
        z_u64 == 0,
        z_u128 == 0,
        z_usize == 0,
        z_i8 == 0,
        z_i16 == 0,
        z_i32 == 0,
        z_i64 == 0,
        z_i128 == 0,
        z_isize == 0,
        z_ptr@ == 0,
{
}

// The results of C routines.
/// A duplication that returned null is a failure, one that returned a pointer is
/// a handle to what it points at, and a routine is called on the object that the
/// handle holds.
pub proof fn a_duplicate_is_what_the_routine_returned<T: CCell>(
    dup: RawPtr<T::C>,
    r: Option<NonNullPtr<T>>,
    obj: NonNullPtr<T>,
    taken: RawPtr<T::C>,
)
    requires
        call_ensures(crate::register::dup_result::<T>, (dup,), r),
        call_ensures(crate::register::c_object::<T>, (obj,), taken),
    ensures
        r is None <==> dup@ == 0,
        r matches Some(p) ==> p@ == dup@,
        taken@ == obj@,
{
}

// Owners.
/// A box runs one teardown of the object that it took over, and settles one debt
/// of it.
pub proof fn a_box_tears_its_object_down<T: CDropped + CCell>(
    ptr: RawPtr<T::C>,
    b: CBox<T>,
    dropping: &mut T::Heap,
)
    requires
        call_ensures(CBox::<T>::from_raw, (ptr,), Some(b)),
        call_ensures(CBox::<T>::drop, (b, dropping), ()),
    ensures
        T::drop_step(*old(dropping), ptr@, *final(dropping)),
        T::debts(*final(dropping)) == T::debts(*old(dropping)).remove(ptr@),
        T::debts(*old(dropping)).contains(ptr@) ==> call_requires(
            CBox::<T>::drop,
            (b, dropping),
        ),
{
}

/// A box is cloned by one duplication of the object that it took over. The ledger
/// gains one debt, of the object that the clone points at, or none where there is
/// no clone.
pub proof fn a_box_is_cloned_from_its_object<T: CCloned + CCell>(
    ptr: RawPtr<T::C>,
    b: CBox<T>,
    cloning: &mut T::Heap,
    clone: Option<CBox<T>>,
)
    requires
        call_ensures(CBox::<T>::from_raw, (ptr,), Some(b)),
        call_ensures(CBox::<T>::try_clone, (&b, cloning), clone),
    ensures
        clone is None ==> T::clone_step(*old(cloning), ptr@, None, *final(cloning)),
        clone is None ==> T::debts(*final(cloning)) == T::debts(*old(cloning)),
        clone matches Some(c) ==> T::clone_step(
            *old(cloning),
            ptr@,
            Some(c@),
            *final(cloning),
        ),
        clone matches Some(c) ==> T::debts(*final(cloning)) == T::debts(*old(cloning)).insert(c@),
{
}

/// An erased owner runs one teardown, of its deleter class, at the address that
/// it took over.
pub proof fn an_erased_owner_tears_its_allocation_down<D: CDropped>(
    ptr: RawPtr<CVoid>,
    b: CVoidBox<D>,
    q: RawPtr<CVoid>,
    dropping: &mut D::Heap,
)
    requires
        call_ensures(CVoidBox::<D>::from_raw, (ptr,), Some(b)),
        call_ensures(CVoidBox::<D>::as_ptr, (&b,), q),
        call_ensures(CVoidBox::<D>::drop, (b, dropping), ()),
    ensures
        q@ == ptr@,
        D::drop_step(*old(dropping), ptr@, *final(dropping)),
        D::debts(*final(dropping)) == D::debts(*old(dropping)).remove(ptr@),
{
}

/// A string runs one teardown, of its deleter class, at the address that it took
/// over, and is copied from there.
pub proof fn a_string_is_copied_and_torn_down_at_its_address<D: CCloned>(
    ptr: RawPtr<CChar>,
    s: CrustifyStr<D>,
    q: RawPtr<CChar>,
    cloning: &mut D::Heap,
    copy: Option<CrustifyStr<D>>,
    dropping: &mut D::Heap,
)
    requires
        call_ensures(CrustifyStr::<D>::from_raw, (ptr,), Some(s)),
        call_ensures(CrustifyStr::<D>::as_ptr, (&s,), q),
        call_ensures(CrustifyStr::<D>::try_clone, (&s, cloning), copy),
        call_ensures(CrustifyStr::<D>::drop, (s, dropping), ()),
    ensures
        q@ == ptr@,
        copy is None ==> D::clone_step(*old(cloning), ptr@, None, *final(cloning)),
        copy is None ==> D::debts(*final(cloning)) == D::debts(*old(cloning)),
        copy matches Some(c) ==> D::clone_step(*old(cloning), ptr@, Some(c@), *final(cloning)),
        copy matches Some(c) ==> D::debts(*final(cloning)) == D::debts(*old(cloning)).insert(c@),
        D::drop_step(*old(dropping), ptr@, *final(dropping)),
        D::debts(*final(dropping)) == D::debts(*old(dropping)).remove(ptr@),
{
}

/// A box with a policy hands out the object and the policy that it took over, and
/// runs one teardown of that policy on that object.
pub proof fn a_policy_tears_its_object_down<T: CCell, D: CDropper<T>>(
    ptr: RawPtr<T::C>,
    dropper: D,
    b: CBoxWith<T, D>,
    q: RawPtr<T::C>,
    policy: &D,
    h: T::Ref<'_>,
    owner: &mut CBoxWith<T, D>,
    m: T::Mut<'_>,
    dropping: &mut D::Heap,
)
    requires
        call_ensures(CBoxWith::<T, D>::from_raw, (ptr, dropper), Some(b)),
        call_ensures(CBoxWith::<T, D>::as_ptr, (&b,), q),
        call_ensures(CBoxWith::<T, D>::dropper, (&b,), policy),
        call_ensures(CBoxWith::<T, D>::as_ref, (&b,), h),
        *old(owner) == b,
        call_ensures(CBoxWith::<T, D>::as_mut, (owner,), m),
        call_ensures(CBoxWith::<T, D>::drop, (b, dropping), ()),
    ensures
        q@ == ptr@,
        *policy == dropper,
        T::ref_addr(h) == ptr@,
        T::mut_addr(m) == ptr@,
        *final(owner) == b,
        dropper.drop_step(*old(dropping), ptr@, *final(dropping)),
        dropper.debts(*final(dropping)) == dropper.debts(*old(dropping)).remove(ptr@),
{
}

/// A slot that is being built hands out the allocation that it took over, and
/// frees that allocation alone.
pub proof fn a_slot_frees_its_allocation<T: CDroppedUninit + CCell>(
    ptr: RawPtr<CUninit<T>>,
    b: CBoxUninit<T>,
    q: RawPtr<T>,
    h: T::Ref<'_>,
    owner: &mut CBoxUninit<T>,
    m: T::Mut<'_>,
    dropping: &mut T::Heap,
)
    requires
        call_ensures(CBoxUninit::<T>::from_raw_uninit, (ptr,), Some(b)),
        call_ensures(CBoxUninit::<T>::as_ptr, (&b,), q),
        call_ensures(CBoxUninit::<T>::as_ref, (&b,), h),
        *old(owner) == b,
        call_ensures(CBoxUninit::<T>::as_mut, (owner,), m),
        call_ensures(CBoxUninit::<T>::drop, (b, dropping), ()),
    ensures
        q@ == ptr@,
        T::ref_addr(h) == ptr@,
        T::mut_addr(m) == ptr@,
        T::free_step(*old(dropping), ptr@, *final(dropping)),
        T::slots(*final(dropping)) == T::slots(*old(dropping)).remove(ptr@),
{
}

/// A view hands out the object that it was tethered to, and the owner that it was
/// given.
pub proof fn a_view_hands_out_its_object<T: CCell, O: Owner>(
    tethering: &mut O::Heap,
    ptr: RawPtr<T::C>,
    owner: O,
    view: CTethered<T, O>,
    q: RawPtr<T::C>,
    h: T::Ref<'_>,
    held: &O,
)
    requires
        call_ensures(CTethered::<T, O>::from_raw, (tethering, ptr, owner), Some(view)),
        call_ensures(CTethered::<T, O>::as_ptr, (&view,), q),
        call_ensures(CTethered::<T, O>::as_ref, (&view,), h),
        call_ensures(CTethered::<T, O>::owner, (&view,), held),
    ensures
        q@ == ptr@,
        T::ref_addr(h) == ptr@,
        *held == owner,
{
}

// Strings.
/// A string reads the bytes from its pointer up to the first NUL: `n` of them,
/// where the byte `n` places further on is the first that is zero. Its length,
/// whether it is empty, and the form with the terminator say the same, and every
/// terminated string can be read.
pub proof fn a_string_reads_its_cells_up_to_the_first_nul<D: CDropped>(
    b: NonNullPtr<CChar>,
    cells: Vec<CChar>,
    region: CRegion<CChar>,
    p: RawPtr<CChar>,
    k: int,
    n: int,
    s: CrustifyStr<D>,
    bytes: &[u8],
    c_str: &[CChar],
    len: usize,
    empty: bool,
)
    requires
        call_ensures(CRegion::<CChar, CChar>::new, (b, cells), region),
        0 <= k,
        p@ == b@ + k,
        0 <= n,
        k + n < cells@.len(),
        cells@[k + n] == 0,
        forall|i: int| k <= i < k + n ==> cells@[i] != 0,
        call_ensures(CrustifyStr::<D>::from_raw, (p,), Some(s)),
        call_ensures(CrustifyStr::<D>::as_bytes, (&s, &region), bytes),
        call_ensures(CrustifyStr::<D>::as_c_str, (&s, &region), c_str),
        call_ensures(CrustifyStr::<D>::len, (&s, &region), len),
        call_ensures(CrustifyStr::<D>::is_empty, (&s, &region), empty),
    ensures
        bytes@ == cells@.subrange(k, k + n),
        c_str@ == cells@.subrange(k, k + n + 1),
        len == n,
        empty <==> n == 0,
        b@ + cells@.len() <= usize::MAX ==> {
            &&& call_requires(CrustifyStr::<D>::as_bytes, (&s, &region))
            &&& call_requires(CrustifyStr::<D>::as_c_str, (&s, &region))
            &&& call_requires(CrustifyStr::<D>::len, (&s, &region))
            &&& call_requires(CrustifyStr::<D>::is_empty, (&s, &region))
            &&& call_requires(CrustifyStr::<D>::to_str, (&s, &region))
        },
{
    lemma_string_cells(b, cells, region, p, k, n, s);
    assert(c_str@ =~= cells@.subrange(k, k + n + 1));
}

/// Decoding a string decodes those bytes: it gives their text where they are
/// UTF-8, and otherwise reports the longest prefix of them that is, and a sequence
/// after it that lies in them, or that they end within three bytes of it.
pub proof fn a_string_decodes_its_cells<D: CDropped>(
    b: NonNullPtr<CChar>,
    cells: Vec<CChar>,
    region: CRegion<CChar>,
    p: RawPtr<CChar>,
    k: int,
    n: int,
    s: CrustifyStr<D>,
    r: Result<&str, StrError>,
)
    requires
        call_ensures(CRegion::<CChar, CChar>::new, (b, cells), region),
        0 <= k,
        p@ == b@ + k,
        0 <= n,
        k + n < cells@.len(),
        cells@[k + n] == 0,
        forall|i: int| k <= i < k + n ==> cells@[i] != 0,
        call_ensures(CrustifyStr::<D>::from_raw, (p,), Some(s)),
        call_ensures(CrustifyStr::<D>::to_str, (&s, &region), r),
    ensures
        r is Ok <==> vstd::utf8::valid_utf8(cells@.subrange(k, k + n)),
        r matches Ok(t) ==> vstd::utf8::encode_utf8(t@) == cells@.subrange(k, k + n),
        r matches Err(e) ==> {
            &&& e.valid_up_to < n
            &&& vstd::utf8::valid_utf8(cells@.subrange(k, k + e.valid_up_to))
            &&& forall|m: int|
                e.valid_up_to < m <= n ==> !vstd::utf8::valid_utf8(
                    #[trigger] cells@.subrange(k, k + m),
                )
            &&& e.error_len matches Some(l) ==> 1 <= l <= n - e.valid_up_to
            &&& e.error_len is None ==> n - e.valid_up_to <= 3
            &&& e.error_len == crate::owned_refs::crustify_str::utf8_error_len(
                cells@.subrange(k, k + n),
            )
        },
{
    lemma_string_cells(b, cells, region, p, k, n, s);
    let text = cells@.subrange(k, k + n);
    if let Err(e) = r {
        assert(text.take(e.valid_up_to as int) =~= cells@.subrange(k, k + e.valid_up_to));
        assert forall|m: int| e.valid_up_to < m <= n implies !vstd::utf8::valid_utf8(
            #[trigger] cells@.subrange(k, k + m),
        ) by {
            assert(text.take(m) =~= cells@.subrange(k, k + m));
        }
    }
}

/// The text of a string, in terms of the cells that hold it.
proof fn lemma_string_cells<D: CDropped>(
    b: NonNullPtr<CChar>,
    cells: Vec<CChar>,
    region: CRegion<CChar>,
    p: RawPtr<CChar>,
    k: int,
    n: int,
    s: CrustifyStr<D>,
)
    requires
        call_ensures(CRegion::<CChar, CChar>::new, (b, cells), region),
        0 <= k,
        p@ == b@ + k,
        0 <= n,
        k + n < cells@.len(),
        cells@[k + n] == 0,
        forall|i: int| k <= i < k + n ==> cells@[i] != 0,
        call_ensures(CrustifyStr::<D>::from_raw, (p,), Some(s)),
    ensures
        s.contents(region) == cells@.subrange(k, k + n),
        b@ + cells@.len() <= usize::MAX ==> s.within(region),
{
    broadcast use vstd::layout::layout_of_primitives;

    assert(vstd::layout::size_of::<CChar>() == 1);
    lemma_cell_of_address(b, cells, region, p@, k);
    let rest = region.tail(p@);
    assert(rest[n] == 0);
    assert forall|i: int| 0 <= i < n implies rest[i] != 0 by {
        assert(rest[i] == cells@[k + i]);
    }
    crate::owned_refs::crustify_str::lemma_strlen(rest, n);
    assert(s.contents(region) =~= cells@.subrange(k, k + n));
    if b@ + cells@.len() <= usize::MAX {
        assert(region.holds(p@, 0));
        assert(rest.contains(0));
    }
}

// What a call asks for.
/// A run lies in the address space where its end does, and an address is aligned
/// where it is a multiple of the alignment; a run of elements there can be
/// borrowed, and its elements be pointed at.
pub proof fn a_run_asks_for_room<'a, T>(p: NonNullPtr<T>, len: usize, i: usize)
    ensures
        crate::pointer::fits::<T>(p@, len as nat) <==> p@ + len * vstd::layout::size_of::<T>()
            <= usize::MAX,
        crate::pointer::aligned::<T>(p@) <==> p@ as int % vstd::layout::align_of::<T>() as int
            == 0,
        p@ + len * vstd::layout::size_of::<T>() <= usize::MAX ==> {
            &&& call_requires(CSlice::<'a, T>::from_raw_parts, (p, len))
            &&& call_requires(CSliceMut::<'a, T>::from_raw_parts, (p, len))
        },
        p@ + i * vstd::layout::size_of::<T>() <= usize::MAX ==> call_requires(
            NonNullPtr::<T>::element,
            (p, i),
        ),
{
}

/// An owner can be released where its teardown is owed.
pub proof fn a_release_asks_for_its_debt<
    T: CDropped + CCell,
    D: CDropped,
    U: CDroppedUninit + CCell,
    W: CCell,
    P: CDropper<W>,
    O: Owner,
    V: CValued + CCell,
>(
    boxed: CBox<T>,
    t: &mut T::Heap,
    erased: CVoidBox<D>,
    string: CrustifyStr<D>,
    d: &mut D::Heap,
    slot: CBoxUninit<U>,
    u: &mut U::Heap,
    with: CBoxWith<W, P>,
    p: &mut P::Heap,
    keep: CKeepalive<T>,
    view: CTethered<W, O>,
    ptr: RawPtr<W::C>,
    owner: O,
    o: &mut O::Heap,
    value: CVal<V>,
    v: &mut V::Heap,
)
    ensures
        T::debts(*old(t)).contains(boxed@) ==> call_requires(CBox::<T>::drop, (boxed, t)),
        T::debts(*old(t)).contains(keep@) ==> call_requires(CKeepalive::<T>::drop, (keep, t)),
        D::debts(*old(d)).contains(erased@) ==> call_requires(CVoidBox::<D>::drop, (erased, d)),
        D::debts(*old(d)).contains(string@) ==> call_requires(CrustifyStr::<D>::drop, (string, d)),
        U::slots(*old(u)).contains(slot@) ==> call_requires(CBoxUninit::<U>::drop, (slot, u)),
        with.policy().debts(*old(p)).contains(with@) ==> call_requires(
            CBoxWith::<W, P>::drop,
            (with, p),
        ),
        view.holder().owes(*old(o)) ==> call_requires(CTethered::<W, O>::drop, (view, o)),
        ptr@ != 0 || owner.owes(*old(o)) ==> call_requires(
            CTethered::<W, O>::from_raw,
            (o, ptr, owner),
        ),
        V::is_live(*old(v), value@) ==> call_requires(CVal::<V>::drop, (value, v)),
{
}

/// An owner can be cloned where its teardown is owed: fallibly always, and with
/// a result for certain where the C routine cannot fail.
pub proof fn a_clone_asks_for_its_debt<
    T: CCloned + CCell,
    D: CCloned,
    E,
    S: CLenCloned,
    W: CCell,
    P: CCloner<W> + Clone,
>(
    boxed: CBox<T>,
    t: &mut T::Heap,
    string: CrustifyStr<D>,
    d: &mut D::Heap,
    ptr: RawPtr<E>,
    count: usize,
    buffer: CVec<E, S>,
    byte_len: usize,
    s: &mut S::Heap,
    with: CBoxWith<W, P>,
    p: &mut P::Heap,
)
    requires
        call_ensures(CVec::<E, S>::from_raw_parts, (ptr, count), Some(buffer)),
        call_ensures(CVec::<E, S>::byte_len, (&buffer,), byte_len),
    ensures
        T::debts(*old(t)).contains(boxed@) ==> {
            &&& call_requires(CBox::<T>::try_clone, (&boxed, t))
            &&& (forall|r: Option<usize>, after: T::Heap| #[trigger]
                T::clone_step(*old(t), boxed@, r, after) ==> r is Some) ==> call_requires(
                CBox::<T>::clone,
                (&boxed, t),
            )
        },
        D::debts(*old(d)).contains(string@) ==> {
            &&& call_requires(CrustifyStr::<D>::try_clone, (&string, d))
            &&& (forall|r: Option<usize>, after: D::Heap| #[trigger]
                D::clone_step(*old(d), string@, r, after) ==> r is Some) ==> call_requires(
                CrustifyStr::<D>::clone,
                (&string, d),
            )
        },
        S::debts(*old(s)).contains((ptr@, byte_len)) ==> {
            &&& call_requires(CVec::<E, S>::try_clone, (&buffer, s))
            &&& (forall|r: Option<usize>, after: S::Heap| #[trigger]
                S::clone_step(*old(s), ptr@, byte_len, r, after) ==> r is Some)
                ==> call_requires(CVec::<E, S>::clone, (&buffer, s))
        },
        with.policy().debts(*old(p)).contains(with@) ==> {
            &&& call_requires(CBoxWith::<W, P>::try_clone, (&with, p))
            &&& (forall|r: Option<usize>, after: P::Heap| #[trigger]
                with.policy().clone_step(*old(p), with@, r, after) ==> r is Some)
                ==> call_requires(CBoxWith::<W, P>::clone, (&with, p))
        },
        crate::traits::clones_alike::<W, P>(with.policy()) <==> forall|other: P, h: P::Heap|
            cloned::<P>(with.policy(), other) ==> #[trigger] other.debts(h)
                == with.policy().debts(h),
{
}

/// A box with a policy is cloned by one duplication under its policy, and the
/// ledger gains one debt, of the object that the clone points at, or none where
/// there is no clone.
pub proof fn a_policy_box_is_cloned_from_its_object<T: CCell, D: CCloner<T> + Clone>(
    ptr: RawPtr<T::C>,
    policy: D,
    b: CBoxWith<T, D>,
    cloning: &mut D::Heap,
    clone: Option<CBoxWith<T, D>>,
)
    requires
        call_ensures(CBoxWith::<T, D>::from_raw, (ptr, policy), Some(b)),
        call_ensures(CBoxWith::<T, D>::try_clone, (&b, cloning), clone),
    ensures
        clone is None ==> policy.clone_step(*old(cloning), ptr@, None, *final(cloning)),
        clone is None ==> policy.debts(*final(cloning)) == policy.debts(*old(cloning)),
        clone matches Some(c) ==> {
            &&& policy.clone_step(*old(cloning), ptr@, Some(c@), *final(cloning))
            &&& policy.debts(*final(cloning)) == policy.debts(*old(cloning)).insert(c@)
            &&& cloned::<D>(policy, c.policy())
        },
{
}

/// Two pointers are equal where their addresses are.
pub proof fn pointers_are_equal_by_address<T>(a: usize, p: RawPtr<T>, b: usize, q: RawPtr<T>)
    requires
        call_ensures(RawPtr::<T>::new, (a,), p),
        call_ensures(RawPtr::<T>::new, (b,), q),
    ensures
        vstd::std_specs::cmp::PartialEqSpec::eq_spec(&p, &q) <==> a == b,
{
}

} // verus!
