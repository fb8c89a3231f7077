//! What holds of sequences of calls.
//!
//! A law about a function speaks of it through `call_ensures`: whatever the
//! function may return, and whatever it may leave in a heap or a region that it
//! was handed exclusively. Where several calls follow one another, the heap that
//! one call leaves is the heap that the next one finds.
use crate::borrowed_refs::{CSlice, CSliceMut};
use crate::c_type::{CCell, CMut, CRef, CType};
use crate::owned_refs::{
    give_up_share, release_last, CBox, CBoxUninit, CBoxWith, CKeepalive, CTethered, CVal,
    CValGuard, CVec, CVoidBox, CrustifyStr, StrError,
};
use crate::pointer::{CChar, CVoid, RawPtr};
use crate::region::CRegion;
use crate::traits::{
    CCloned, CCloner, CDropped, CDroppedUninit, CDropper, CElem, CLenCloned, CLenDropped, CValued,
    Owner,
};
use crate::uninit::CUninit;
use std::sync::Arc;
use vstd::multiset::Multiset;
use vstd::prelude::*;
use vstd::string::*;

verus! {

// Giving an owner up and taking it back.
/// A box that is given up for its pointer is recovered from it. No heap is
/// involved, so nothing is torn down on the way.
pub proof fn cbox_round_trips<T: CDropped + CCell>(
    b: CBox<T>,
    raw: RawPtr<T::C>,
    back: Option<CBox<T>>,
)
    requires
        call_ensures(CBox::<T>::into_raw, (b,), raw),
        call_ensures(CBox::<T>::from_raw, (raw,), back),
    ensures
        back matches Some(c) && c@ == b@,
{
}

/// An erased owner that is given up for its `void *` is recovered from it.
pub proof fn cvoid_box_round_trips<D: CDropped>(
    b: CVoidBox<D>,
    raw: RawPtr<CVoid>,
    back: Option<CVoidBox<D>>,
)
    requires
        call_ensures(CVoidBox::<D>::into_raw, (b,), raw),
        call_ensures(CVoidBox::<D>::from_raw, (raw,), back),
    ensures
        back matches Some(c) && c@ == b@,
{
}

/// A string that is given up for its pointer is recovered from it, with the
/// same text in every region.
pub proof fn crustify_str_round_trips<D: CDropped>(
    s: CrustifyStr<D>,
    raw: RawPtr<CChar>,
    back: Option<CrustifyStr<D>>,
    region: CRegion<CChar>,
)
    requires
        call_ensures(CrustifyStr::<D>::into_raw, (s,), raw),
        call_ensures(CrustifyStr::<D>::from_raw, (raw,), back),
    ensures
        back matches Some(t) && t@ == s@ && t.contents(region) == s.contents(region),
{
}

/// A buffer that is given up for pointer and count is recovered from them, and
/// owes the same release.
pub proof fn cvec_round_trips<T, S: CLenDropped>(
    v: CVec<T, S>,
    parts: (RawPtr<T>, usize),
    back: Option<CVec<T, S>>,
)
    requires
        call_ensures(CVec::<T, S>::into_raw_parts, (v,), parts),
        call_ensures(CVec::<T, S>::from_raw_parts, (parts.0, parts.1), back),
    ensures
        back matches Some(w) && w.start() == v.start() && w.length() == v.length() && w.debt()
            == v.debt(),
{
}

/// A box that is given up for pointer and policy is recovered from them.
pub proof fn cbox_with_round_trips<T: CCell, D: CDropper<T>>(
    b: CBoxWith<T, D>,
    parts: (RawPtr<T::C>, D),
    back: Option<CBoxWith<T, D>>,
)
    requires
        call_ensures(CBoxWith::<T, D>::into_raw, (b,), parts),
        call_ensures(CBoxWith::<T, D>::from_raw, (parts.0, parts.1), back),
    ensures
        back matches Some(c) && c@ == b@ && c.policy() == b.policy(),
{
}

/// A slot that is given up for its pointer is recovered from it.
pub proof fn cbox_uninit_round_trips<T: CDroppedUninit + CCell>(
    b: CBoxUninit<T>,
    raw: RawPtr<CUninit<T>>,
    back: Option<CBoxUninit<T>>,
)
    requires
        call_ensures(CBoxUninit::<T>::into_raw_uninit, (b,), raw),
        call_ensures(CBoxUninit::<T>::from_raw_uninit, (raw,), back),
    ensures
        back matches Some(c) && c@ == b@,
{
}

// Debt.
/// A clone that is released again leaves the ledger as it was, whether it was a
/// copy or a count.
pub proof fn a_released_clone_leaves_no_debt<T: CCloned + CCell>(
    b: CBox<T>,
    cloning: &mut T::Heap,
    clone: CBox<T>,
    dropping: &mut T::Heap,
)
    requires
        call_ensures(CBox::<T>::try_clone, (&b, cloning), Some(clone)),
        *dropping == *final(cloning),
        call_ensures(CBox::<T>::drop, (clone, dropping), ()),
    ensures
        T::debts(*final(dropping)) == T::debts(*old(cloning)),
{
}

/// A handle and its clone each owe one release of their own. Either may go
/// first, the other is still owed then, and the two together settle what the
/// handle alone owed before.
pub proof fn a_clone_and_its_original_release_in_either_order<T: CCloned + CCell>(
    b: CBox<T>,
    cloning: &mut T::Heap,
    clone: CBox<T>,
)
    requires
        T::debts(*old(cloning)).contains(b@),
        call_ensures(CBox::<T>::try_clone, (&b, cloning), Some(clone)),
    ensures
        T::debts(*final(cloning)).contains(b@),
        T::debts(*final(cloning)).contains(clone@),
        T::debts(*final(cloning)).remove(b@).contains(clone@),
        T::debts(*final(cloning)).remove(clone@).contains(b@),
        T::debts(*final(cloning)).remove(b@).remove(clone@) == T::debts(*old(cloning)).remove(b@),
        T::debts(*final(cloning)).remove(clone@).remove(b@) == T::debts(*old(cloning)).remove(b@),
{
}

/// A clone that failed created no handle and no debt.
pub proof fn a_failed_clone_adds_no_debt<T: CCloned + CCell>(b: CBox<T>, cloning: &mut T::Heap)
    requires
        call_ensures(CBox::<T>::try_clone, (&b, cloning), None),
    ensures
        T::debts(*final(cloning)) == T::debts(*old(cloning)),
{
}

/// A copy of a string that is released again leaves the ledger as it was.
pub proof fn a_released_string_copy_leaves_no_debt<D: CCloned>(
    s: CrustifyStr<D>,
    cloning: &mut D::Heap,
    copy: CrustifyStr<D>,
    dropping: &mut D::Heap,
)
    requires
        call_ensures(CrustifyStr::<D>::try_clone, (&s, cloning), Some(copy)),
        *dropping == *final(cloning),
        call_ensures(CrustifyStr::<D>::drop, (copy, dropping), ()),
    ensures
        D::debts(*final(dropping)) == D::debts(*old(cloning)),
{
}

/// A copy of a buffer that is released again leaves the ledger as it was.
pub proof fn a_released_buffer_copy_leaves_no_debt<T, S: CLenCloned>(
    v: CVec<T, S>,
    cloning: &mut S::Heap,
    copy: CVec<T, S>,
    dropping: &mut S::Heap,
)
    requires
        call_ensures(CVec::<T, S>::try_clone, (&v, cloning), Some(copy)),
        *dropping == *final(cloning),
        call_ensures(CVec::<T, S>::drop, (copy, dropping), ()),
    ensures
        S::debts(*final(dropping)) == S::debts(*old(cloning)),
{
}

/// A clone owes one release by its own policy, which is a clone of the policy it
/// was made under, and leaves the ledger as it was when it is released again.
/// The policy has to clone alike, as one that objects are cloned under must.
pub proof fn a_released_policy_clone_leaves_no_debt<T: CCell, D: CCloner<T> + Clone>(
    b: CBoxWith<T, D>,
    cloning: &mut D::Heap,
    clone: CBoxWith<T, D>,
    dropping: &mut D::Heap,
)
    requires
        crate::traits::clones_alike::<T, D>(b.policy()),
        call_ensures(CBoxWith::<T, D>::try_clone, (&b, cloning), Some(clone)),
        *dropping == *final(cloning),
        call_ensures(CBoxWith::<T, D>::drop, (clone, dropping), ()),
    ensures
        clone.policy().debts(*old(dropping)).contains(clone@),
        b.policy().debts(*final(dropping)) == b.policy().debts(*old(cloning)),
{
}

/// What is left of the ledger `debts` when the objects at `order` are released
/// one after the other.
pub open spec fn settled(debts: Multiset<usize>, order: Seq<usize>) -> Multiset<usize>
    decreases order.len(),
{
    if order.len() == 0 {
        debts
    } else {
        settled(debts.remove(order.first()), order.drop_first())
    }
}

/// Whether each of the releases in `order` finds its debt on the ledger.
pub open spec fn all_owed(debts: Multiset<usize>, order: Seq<usize>) -> bool
    decreases order.len(),
{
    order.len() == 0 || (debts.contains(order.first()) && all_owed(
        debts.remove(order.first()),
        order.drop_first(),
    ))
}

/// As many releases can be made of an object as handles to it are owed, in any
/// order among all handles, and what is left is what was owed beyond them: an
/// object that `n` handles share is torn down to nothing by exactly `n`
/// releases.
pub proof fn releases_settle_what_is_owed(debts: Multiset<usize>, order: Seq<usize>)
    ensures
        all_owed(debts, order) <==> order.to_multiset().subset_of(debts),
        all_owed(debts, order) ==> settled(debts, order) == debts.sub(order.to_multiset()),
    decreases order.len(),
{
    broadcast use vstd::multiset::group_multiset_axioms;

    order.to_multiset_ensures();
    if order.len() == 0 {
        assert(order.to_multiset() =~= Multiset::empty());
        assert(debts.sub(order.to_multiset()) =~= debts);
    } else {
        let a = order.first();
        let rest = order.drop_first();
        assert(rest =~= order.remove(0));
        assert(rest.to_multiset() =~= order.to_multiset().remove(a));
        assert(order.contains(order[0]));
        releases_settle_what_is_owed(debts.remove(a), rest);
        assert(order.to_multiset().count(a) > 0);
        if order.to_multiset().subset_of(debts) {
            assert(debts.count(a) >= order.to_multiset().count(a));
            assert(rest.to_multiset().subset_of(debts.remove(a)));
        }
        if all_owed(debts, order) {
            assert forall|x: usize| order.to_multiset().count(x) <= debts.count(x) by {
                assert(rest.to_multiset().count(x) <= debts.remove(a).count(x));
            }
            assert(debts.remove(a).sub(rest.to_multiset()) =~= debts.sub(order.to_multiset()));
        }
    }
}

/// The order in which handles are released does not matter to the ledger.
pub proof fn the_order_of_releases_does_not_matter(
    debts: Multiset<usize>,
    one: Seq<usize>,
    other: Seq<usize>,
)
    requires
        one.to_multiset() == other.to_multiset(),
        all_owed(debts, one),
    ensures
        all_owed(debts, other),
        settled(debts, one) == settled(debts, other),
{
    releases_settle_what_is_owed(debts, one);
    releases_settle_what_is_owed(debts, other);
}

// The construction phase.
/// An object that is built under a policy and promoted is torn down by its own
/// destructor, at the address that was wrapped, and by nothing else.
pub proof fn a_promoted_object_runs_its_own_destructor<T: CDropped + CCell, D: CDropper<T>>(
    ptr: RawPtr<T::C>,
    policy: D,
    slot: CBoxWith<T, D>,
    formed: CBox<T>,
    dropping: &mut <T as CDropped>::Heap,
)
    requires
        call_ensures(CBoxWith::<T, D>::from_raw, (ptr, policy), Some(slot)),
        call_ensures(CBoxWith::<T, D>::into_box, (slot,), formed),
        call_ensures(CBox::<T>::drop, (formed, dropping), ()),
    ensures
        T::drop_step(*old(dropping), ptr@, *final(dropping)),
{
}

/// An object that is abandoned while it is built is torn down by the policy, at
/// the address that was wrapped, and by nothing else.
pub proof fn an_abandoned_object_runs_the_policy<T: CCell, D: CDropper<T>>(
    ptr: RawPtr<T::C>,
    policy: D,
    slot: CBoxWith<T, D>,
    dropping: &mut D::Heap,
)
    requires
        call_ensures(CBoxWith::<T, D>::from_raw, (ptr, policy), Some(slot)),
        call_ensures(CBoxWith::<T, D>::drop, (slot, dropping), ()),
    ensures
        policy.drop_step(*old(dropping), ptr@, *final(dropping)),
{
}

/// A slot that is initialised and promoted is torn down by the destructor of
/// the object, at the address that was wrapped.
pub proof fn an_initialised_slot_runs_the_destructor<T: CDropped + CDroppedUninit + CCell>(
    ptr: RawPtr<CUninit<T>>,
    slot: CBoxUninit<T>,
    formed: CBox<T>,
    dropping: &mut <T as CDropped>::Heap,
)
    requires
        call_ensures(CBoxUninit::<T>::from_raw_uninit, (ptr,), Some(slot)),
        call_ensures(CBoxUninit::<T>::assume_init, (slot,), formed),
        call_ensures(CBox::<T>::drop, (formed, dropping), ()),
    ensures
        T::drop_step(*old(dropping), ptr@, *final(dropping)),
{
}

/// A slot that is abandoned has its storage freed and nothing else.
pub proof fn an_abandoned_slot_frees_its_storage<T: CDroppedUninit + CCell>(
    ptr: RawPtr<CUninit<T>>,
    slot: CBoxUninit<T>,
    dropping: &mut T::Heap,
)
    requires
        call_ensures(CBoxUninit::<T>::from_raw_uninit, (ptr,), Some(slot)),
        call_ensures(CBoxUninit::<T>::drop, (slot, dropping), ()),
    ensures
        T::free_step(*old(dropping), ptr@, *final(dropping)),
{
}

/// A value that is wrapped and released is disposed, as it was wrapped.
pub proof fn a_wrapped_value_is_disposed<T: CValued + CCell>(
    value: T,
    owner: CVal<T>,
    dropping: &mut T::Heap,
)
    requires
        call_ensures(CVal::<T>::new, (value,), owner),
        call_ensures(CVal::<T>::drop, (owner, dropping), ()),
    ensures
        exists|to: T| #[trigger] T::dispose_step(*old(dropping), value, *final(dropping), to),
{
}

/// A dismissed guard leaves the value as it was; an armed one disposes it where
/// it is.
pub proof fn a_guard_disposes_unless_dismissed<'a, T: CValued + CCell>(
    value: &'a mut T,
    guard: CValGuard<'a, T>,
    heap: &mut T::Heap,
)
    requires
        call_ensures(CValGuard::<'a, T>::new, (value,), guard),
    ensures
        call_ensures(CValGuard::<'a, T>::dismiss, (guard,), ()) ==> *final(value) == *old(value),
        call_ensures(CValGuard::<'a, T>::drop, (guard, heap), ()) ==> T::dispose_step(
            *old(heap),
            *old(value),
            *final(heap),
            *final(value),
        ),
{
}

// Views into an object that something else owns.
/// A view releases the owner that it was tethered to when it is released, once,
/// and tethering releases nothing.
pub proof fn a_tethered_owner_is_released_with_its_view<T: CCell, O: Owner>(
    tethering: &mut O::Heap,
    ptr: RawPtr<T::C>,
    owner: O,
    view: CTethered<T, O>,
    dropping: &mut O::Heap,
)
    requires
        call_ensures(CTethered::<T, O>::from_raw, (tethering, ptr, owner), Some(view)),
        call_ensures(CTethered::<T, O>::drop, (view, dropping), ()),
    ensures
        *final(tethering) == *old(tethering),
        owner.release_step(*old(dropping), *final(dropping)),
{
}

/// Releasing a keepalive is one teardown of the object that was handed to it.
pub proof fn a_keepalive_owes_what_its_box_owed<P: CDropped + CCell>(
    parent: CBox<P>,
    keep: CKeepalive<P>,
    before: P::Heap,
    after: P::Heap,
)
    requires
        call_ensures(CKeepalive::<P>::new, (parent,), keep),
    ensures
        keep.owes(before) <==> P::debts(before).contains(parent@),
        keep.release_step(before, after) <==> P::drop_step(before, parent@, after) && P::debts(
            after,
        ) == P::debts(before).remove(parent@),
{
}

/// Recovering the owner of a view gives back the owner that was tethered, still
/// unreleased.
pub proof fn a_tethered_owner_is_recovered<T: CCell, O: Owner>(
    tethering: &mut O::Heap,
    ptr: RawPtr<T::C>,
    owner: O,
    view: CTethered<T, O>,
    back: O,
)
    requires
        call_ensures(CTethered::<T, O>::from_raw, (tethering, ptr, owner), Some(view)),
        call_ensures(CTethered::<T, O>::into_owner, (view,), back),
    ensures
        back == owner,
        *final(tethering) == *old(tethering),
{
}

/// Giving up a share of an owner releases the owner where it was the last share,
/// and otherwise leaves the heap as it was, so that the next share finds what
/// this one found.
pub proof fn a_share_releases_its_owner_or_nothing<O: Owner>(
    share: Arc<O>,
    last: Option<O>,
    releasing: &mut O::Heap,
)
    requires
        call_ensures(give_up_share::<O>, (share,), last),
        call_ensures(release_last::<O>, (last, releasing), ()),
    ensures
        last is None ==> *final(releasing) == *old(releasing),
        last is None && share.owes(*old(releasing)) ==> share.owes(*final(releasing)),
        last is Some ==> (*share).release_step(*old(releasing), *final(releasing)),
{
}

/// Of the shares of a keepalive, the one that hands the owner back settles one
/// debt of the object that is kept, and those that hand nothing back settle
/// none.
pub proof fn the_last_share_settles_one_debt<P: CDropped + CCell>(
    share: Arc<CKeepalive<P>>,
    last: Option<CKeepalive<P>>,
    releasing: &mut <CKeepalive<P> as Owner>::Heap,
)
    requires
        call_ensures(give_up_share::<CKeepalive<P>>, (share,), last),
        call_ensures(release_last::<CKeepalive<P>>, (last, releasing), ()),
    ensures
        last is None ==> P::debts(*final(releasing)) == P::debts(*old(releasing)),
        last is Some ==> P::drop_step(*old(releasing), share@, *final(releasing)),
        last is Some ==> P::debts(*final(releasing)) == P::debts(*old(releasing)).remove(share@),
{
    a_share_releases_its_owner_or_nothing::<CKeepalive<P>>(share, last, releasing);
}

// Pointers.
/// A value that is wrapped is read back as it was: by reference, by value, and
/// through the pointer to the value that a pointer to the wrapper is cast into,
/// in memory where wrappers take the place of the values.
pub proof fn a_wrapped_value_reads_back<T>(
    value: T,
    wrapper: CType<T>,
    slot: CRegion<T, CType<T>>,
    wrapped: RawPtr<CType<T>>,
    p: RawPtr<T>,
    cell: &CType<T>,
    by_pointer: &T,
    by_ref: &T,
    by_value: T,
)
    requires
        call_ensures(CType::<T>::new, (value,), wrapper),
        call_ensures(CType::<T>::get, (&wrapper,), by_ref),
        call_ensures(CType::<T>::into_inner, (wrapper,), by_value),
        slot.holds(wrapped@, 1),
        slot.run(wrapped@, 1)[0] == wrapper,
        call_ensures(CType::<T>::cast_into, (wrapped,), p),
        call_ensures(CRegion::<T, CType<T>>::get, (&slot, p), cell),
        call_ensures(CType::<T>::get, (cell,), by_pointer),
    ensures
        *by_ref == value,
        by_value == value,
        *by_pointer == value,
{
}

/// Wrapping and unwrapping a pointer to a C object is a change of type: there
/// and back again is the same pointer.
pub proof fn wrapper_casts_round_trip<T>(
    p: RawPtr<T>,
    wrapped: RawPtr<CType<T>>,
    back: RawPtr<T>,
    back_mut: RawPtr<T>,
)
    requires
        call_ensures(CType::<T>::cast_from, (p,), wrapped),
        call_ensures(CType::<T>::cast_into, (wrapped,), back),
        call_ensures(CType::<T>::cast_into_mut, (wrapped,), back_mut),
    ensures
        back@ == p@,
        back_mut@ == p@,
{
}

/// A handle that is erased to a `void *` and borrowed back is a handle to the
/// same object.
pub proof fn the_void_seam_round_trips<'a, T: CCell>(
    h: CRef<'a, T>,
    erased: RawPtr<CVoid>,
    back: Option<CRef<'a, T>>,
)
    requires
        call_ensures(CRef::<'a, T>::as_void_ptr, (&h,), erased),
        call_ensures(CRef::<'a, T>::from_void_ptr, (erased,), back),
    ensures
        back matches Some(g) && g@ == h@,
{
}

/// The shared handle of an exclusive one borrows the same object.
pub proof fn a_reborrow_reaches_the_same_object<'a, T: CCell>(
    m: CMut<'a, T>,
    h: CRef<'a, T>,
    p: RawPtr<T::C>,
)
    requires
        call_ensures(CMut::<'a, T>::as_ref, (&m,), h),
        call_ensures(CRef::<'a, T>::as_ptr, (&h,), p),
    ensures
        p@ == m@,
{
}

// Runs of elements.
/// Elements of a run are apart: where `i` comes before `j`, element `i` ends
/// where element `j` starts or earlier, and every element ends within the run.
pub proof fn elements_do_not_overlap<'a, T>(run: CSlice<'a, T>, i: int, j: int)
    requires
        0 <= i < j < run.count(),
    ensures
        run.start() <= run.addr_of(i),
        run.addr_of(i) + vstd::layout::size_of::<T>() <= run.addr_of(j),
        run.addr_of(j) + vstd::layout::size_of::<T>() <= run.addr_of(run.count() as int),
{
    let size = vstd::layout::size_of::<T>();
    let n = run.count();
    assert(0 <= i * size && (i + 1) * size <= j * size && (j + 1) * size <= n * size)
        by (nonlinear_arith)
        requires
            0 <= i < j < n,
            0 <= size,
    ;
    assert((i + 1) * size == i * size + size) by (nonlinear_arith);
    assert((j + 1) * size == j * size + size) by (nonlinear_arith);
}

/// The handles of an exclusive run can be held at once: no two of them address
/// the same element.
pub proof fn exclusive_handles_are_distinct<'a, 's, T: CCell>(
    run: &'s mut CSliceMut<'a, T>,
    handles: Vec<T::Mut<'s>>,
    i: int,
    j: int,
)
    requires
        call_ensures(CSliceMut::<'a, T>::iter_mut, (run,), handles),
        vstd::layout::size_of::<T>() > 0,
        0 <= i < j < old(run).count(),
    ensures
        T::mut_addr(handles@[i]) < T::mut_addr(handles@[j]),
{
    let size = vstd::layout::size_of::<T>();
    assert(T::mut_addr(handles@[i]) == old(run).addr_of(i));
    assert(T::mut_addr(handles@[j]) == old(run).addr_of(j));
    assert(i * size < j * size) by (nonlinear_arith)
        requires
            i < j,
            0 < size,
    ;
}

/// Walking a run and indexing it reach the same elements in the same order.
pub proof fn iteration_agrees_with_indexing<'a, T: CCell>(
    run: CSlice<'a, T>,
    handles: Vec<T::Ref<'a>>,
    i: usize,
    at: Option<T::Ref<'a>>,
)
    requires
        call_ensures(CSlice::<'a, T>::iter, (&run,), handles),
        call_ensures(CSlice::<'a, T>::get, (&run, i), at),
    ensures
        at is Some <==> i < handles@.len(),
        at matches Some(h) ==> T::ref_addr(handles@[i as int]) == T::ref_addr(h),
{
    if at is Some {
        assert(T::ref_addr(handles@[i as int]) == run.addr_of(i as int));
    }
}

/// Reading a run as a whole and element by element gives the same values.
pub proof fn whole_reads_agree_with_element_reads<'a, T: CElem + Copy>(
    run: CSlice<'a, T>,
    region: CRegion<T>,
    values: Vec<T>,
    i: usize,
    at: Option<T>,
)
    requires
        run.within(region),
        call_ensures(CSlice::<'a, T>::elems, (&run, &region), values),
        call_ensures(CSlice::<'a, T>::elem, (&run, &region, i), at),
    ensures
        at == (if i < values@.len() {
            Some(values@[i as int])
        } else {
            None
        }),
{
    crate::region::lemma_offset_non_negative(region, run.start());
}

/// A region in which the elements at `addr` were replaced is as large as it
/// was, holds the new elements there, and every other element is untouched.
pub proof fn a_replaced_run_reads_back<T, C>(
    before: CRegion<T, C>,
    after: CRegion<T, C>,
    addr: usize,
    elems: Seq<C>,
)
    requires
        before.holds(addr, elems.len()),
        after.replaces(before, addr, elems),
    ensures
        after.holds(addr, elems.len()),
        after.run(addr, elems.len()) == elems,
        after@.len() == before@.len(),
        forall|k: int|
            0 <= k < before@.len() && !(before.offset(addr) <= k < before.offset(addr)
                + elems.len()) ==> after@[k] == before@[k],
{
    crate::region::lemma_offset_non_negative(before, addr);
    assert(after.offset(addr) == before.offset(addr));
    assert(after.run(addr, elems.len()) =~= elems);
}

/// An element that was written is read back, and every other element of the run
/// keeps its value.
pub proof fn a_written_element_reads_back<'a, T: CElem + Copy>(
    run: &mut CSliceMut<'a, T>,
    writing: &mut CRegion<T>,
    i: usize,
    v: T,
    j: usize,
    read: Option<T>,
)
    requires
        old(run).within(*old(writing)),
        call_ensures(CSliceMut::<'a, T>::set_elem, (run, writing, i, v), true),
        call_ensures(CSliceMut::<'a, T>::elem, (&*final(run), &*final(writing), j), read),
    ensures
        old(run).within(*final(writing)),
        j == i ==> read == Some(v),
        j != i && j < old(run).count() ==> read == Some(
            old(run).contents(*old(writing))[j as int],
        ),
        j >= old(run).count() ==> read is None,
{
    let elems = old(run).contents(*old(writing)).update(i as int, v);
    crate::region::lemma_offset_non_negative(*old(writing), old(run).start());
    a_replaced_run_reads_back(*old(writing), *final(writing), old(run).start(), elems);
}

/// A run that was overwritten from a slice reads back as that slice.
pub proof fn an_overwritten_run_reads_back<'a, T: CElem + Copy>(
    run: &mut CSliceMut<'a, T>,
    writing: &mut CRegion<T>,
    src: &[T],
)
    requires
        old(run).within(*old(writing)),
        call_ensures(CSliceMut::<'a, T>::copy_from_slice, (run, writing, src), true),
    ensures
        old(run).within(*final(writing)),
        old(run).contents(*final(writing)) == src@,
{
    a_replaced_run_reads_back(*old(writing), *final(writing), old(run).start(), src@);
}

/// What is written through an out-parameter is found in its slot, and no other
/// slot changes.
pub proof fn an_out_parameter_writes_its_slot<'a, T>(
    region: &'a mut CRegion<T, CUninit<T>>,
    ptr: RawPtr<T>,
    out: &'a mut CUninit<T>,
    writing: &mut CUninit<T>,
    value: T,
)
    requires
        old(region).holds(ptr@, 1),
        call_ensures(
            crate::borrowed_refs::from_ptr::<T>,
            (region, ptr),
            Some(out),
        ),
        call_ensures(CUninit::<T>::write, (writing, value), ()),
        *final(out) == *final(writing),
    ensures
        final(region).run(ptr@, 1)[0]@ == Some(value),
        final(region)@.len() == old(region)@.len(),
        forall|k: int|
            0 <= k < old(region)@.len() && k != old(region).offset(ptr@) ==> final(region)@[k]
                == old(region)@[k],
{
    a_replaced_run_reads_back(*old(region), *final(region), ptr@, seq![*final(out)]);
}

/// A buffer and its copy are apart: releasing one leaves the other owed.
pub proof fn a_buffer_and_its_copy_are_apart<T, S: CLenCloned>(
    v: CVec<T, S>,
    cloning: &mut S::Heap,
    copy: CVec<T, S>,
)
    requires
        S::debts(*old(cloning)).contains(v.debt()),
        call_ensures(CVec::<T, S>::try_clone, (&v, cloning), Some(copy)),
    ensures
        v.debt().1 > 0 ==> copy.start() != v.start(),
        S::debts(*final(cloning)).remove(v.debt()).contains(copy.debt()),
        S::debts(*final(cloning)).remove(copy.debt()).contains(v.debt()),
{
}

/// A copy of a buffer reads as the buffer does, and the buffer still reads as it
/// did: for any way `encode` of laying elements out in bytes that tells different
/// elements apart, where the regions `source` and `copied` show the bytes that
/// the heap holds for the two.
pub proof fn a_copy_reads_as_its_source<T, S: CLenCloned>(
    v: CVec<T, S>,
    cloning: &mut S::Heap,
    copy: CVec<T, S>,
    encode: spec_fn(Seq<T>) -> Seq<u8>,
    source: CRegion<T>,
    kept: CRegion<T>,
    copied: CRegion<T>,
)
    requires
        call_ensures(CVec::<T, S>::try_clone, (&v, cloning), Some(copy)),
        forall|a: Seq<T>, b: Seq<T>| #[trigger] encode(a) == #[trigger] encode(b) ==> a == b,
        encode(v.contents(source)) == S::bytes(*old(cloning), v.debt().0, v.debt().1),
        encode(v.contents(kept)) == S::bytes(*final(cloning), v.debt().0, v.debt().1),
        encode(copy.contents(copied)) == S::bytes(
            *final(cloning),
            copy.debt().0,
            copy.debt().1,
        ),
    ensures
        copy.contents(copied) == v.contents(source),
        v.contents(kept) == v.contents(source),
{
}

/// A buffer whose size fits in memory is released with exactly its size in
/// bytes, and so is every copy of it.
pub proof fn a_buffer_is_released_with_its_size<T, S: CLenCloned>(
    v: CVec<T, S>,
    cloning: &mut S::Heap,
    copy: CVec<T, S>,
    byte_len: usize,
)
    requires
        v.length() * vstd::layout::size_of::<T>() <= usize::MAX,
        call_ensures(CVec::<T, S>::byte_len, (&v,), byte_len),
        call_ensures(CVec::<T, S>::try_clone, (&v, cloning), Some(copy)),
    ensures
        byte_len == v.length() * vstd::layout::size_of::<T>(),
        v.debt() == (v.start(), byte_len),
        copy.debt() == (copy.start(), byte_len),
{
    crate::owned_refs::cvec::lemma_byte_size_exact::<T>(v.length());
}

// Strings.
/// The bytes of a string hold no NUL, are followed by one, and are all there is
/// to it: the length is their number, and the string is empty where there are
/// none.
pub proof fn a_string_ends_at_its_first_nul<D: CDropped>(
    s: CrustifyStr<D>,
    region: CRegion<CChar>,
    bytes: &[u8],
    c_str: &[CChar],
    len: usize,
    empty: bool,
)
    requires
        s.within(region),
        call_ensures(CrustifyStr::<D>::as_bytes, (&s, &region), bytes),
        call_ensures(CrustifyStr::<D>::as_c_str, (&s, &region), c_str),
        call_ensures(CrustifyStr::<D>::len, (&s, &region), len),
        call_ensures(CrustifyStr::<D>::is_empty, (&s, &region), empty),
    ensures
        !bytes@.contains(0),
        c_str@ == bytes@.push(0),
        len == bytes@.len(),
        empty == (len == 0),
        c_str@ == region.tail(s@).take(len + 1),
{
    let rest = region.tail(s@);
    crate::owned_refs::crustify_str::lemma_has_strlen(rest);
    assert forall|i: int| 0 <= i < bytes@.len() implies bytes@[i] != 0 by {
        assert(bytes@[i] == rest[i]);
    }
    assert(c_str@ =~= rest.take(len + 1));
}

/// Text without a NUL that is stored with one behind it is read back as it was
/// stored, whatever follows in memory.
pub proof fn a_stored_string_reads_back<D: CDropped>(
    s: CrustifyStr<D>,
    region: CRegion<CChar>,
    stored: Seq<u8>,
)
    requires
        region.holds(s@, stored.len() + 1),
        region.run(s@, stored.len() + 1) == stored.push(0),
        !stored.contains(0),
    ensures
        s.within(region),
        s.contents(region) == stored,
{
    let rest = region.tail(s@);
    let run = region.run(s@, stored.len() + 1);
    crate::region::lemma_holds_fewer(region, s@, 0, stored.len() + 1);
    crate::region::lemma_offset_non_negative(region, s@);
    assert forall|i: int| 0 <= i < run.len() implies rest[i] == run[i] by {}
    assert(run[stored.len() as int] == 0);
    assert forall|i: int| 0 <= i < stored.len() implies rest[i] != 0 by {
        assert(run[i] == stored[i]);
        assert(stored.contains(stored[i]));
    }
    assert(crate::owned_refs::crustify_str::is_strlen(rest, stored.len() as int));
    crate::owned_refs::crustify_str::lemma_strlen(rest, stored.len() as int);
    assert(rest.contains(0)) by {
        assert(rest[stored.len() as int] == 0);
    }
    assert(s.contents(region) =~= stored);
}

/// A string that holds the UTF-8 of `text` decodes to `text`.
pub proof fn utf8_text_decodes<D: CDropped>(
    s: CrustifyStr<D>,
    region: CRegion<CChar>,
    text: &str,
    r: Result<&str, StrError>,
)
    requires
        s.within(region),
        s.contents(region) == text.spec_bytes(),
        call_ensures(CrustifyStr::<D>::to_str, (&s, &region), r),
    ensures
        r matches Ok(t) && t@ == text@,
{
    vstd::utf8::encode_utf8_valid_utf8(text@);
    vstd::utf8::encode_utf8_decode_utf8(text@);
    if let Ok(t) = r {
        vstd::utf8::encode_utf8_decode_utf8(t@);
    }
}

} // verus!
