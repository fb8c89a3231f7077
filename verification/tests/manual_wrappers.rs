//! Wrappers with type parameters, written by hand against `CCell`, and the
//! owner that carries its teardown policy.

use core::marker::PhantomData;
use core::mem::size_of;
use core::ops::Deref;
use std::collections::BTreeMap;

use ffibox::{
    CBox, CBoxUninit, CBoxWith, CCell, CCloner, CDropped, CDroppedUninit, CDropper, CMut, CPtr,
    CRef, CRegion, CType, CVoid, CZeroed, NonNullPtr, RawPtr,
};

struct FooSt {
    a: u64,
    p: RawPtr<u8>,
}

struct FooFull {
    inner: CType<FooSt>,
}

impl CCell for FooFull {
    type C = FooSt;
    type Ref<'a> = CRef<'a, FooFull>;
    type Mut<'a> = CMut<'a, FooFull>;

    fn ref_from_raw<'a>(p: NonNullPtr<Self>) -> CRef<'a, FooFull> {
        CRef::new(CPtr::new(p))
    }

    fn mut_from_raw<'a>(p: NonNullPtr<Self>) -> CMut<'a, FooFull> {
        CMut::new(CRef::new(CPtr::new(p)))
    }
}

// --- Hand-written type-generic wrapper: Stack<T, S> ---
struct StackSt {
    num: i32,
    data: RawPtr<RawPtr<CVoid>>,
}

impl CZeroed for StackSt {
    fn zeroed() -> Self {
        StackSt { num: CZeroed::zeroed(), data: CZeroed::zeroed() }
    }
}

// Free strategies.
struct Borrowed;
struct Owned<D>(PhantomData<D>);
struct X509;
struct X509Free;

struct Stack<T, S> {
    inner: CType<StackSt>,
    _params: PhantomData<(T, S)>,
}

/// The hand-written shared handle. The generic parameters ride along.
struct StackRef<'a, T, S>(CPtr<'a, Stack<T, S>>);

impl<T, S> Clone for StackRef<'_, T, S> {
    fn clone(&self) -> Self {
        *self
    }
}

impl<T, S> Copy for StackRef<'_, T, S> {}

/// The hand-written exclusive handle.
struct StackMut<'a, T, S>(StackRef<'a, T, S>);

impl<T, S> CCell for Stack<T, S> {
    type C = StackSt;
    type Ref<'a> = StackRef<'a, T, S>;
    type Mut<'a> = StackMut<'a, T, S>;

    fn ref_from_raw<'a>(p: NonNullPtr<Self>) -> StackRef<'a, T, S> {
        StackRef(CPtr::new(p))
    }

    fn mut_from_raw<'a>(p: NonNullPtr<Self>) -> StackMut<'a, T, S> {
        StackMut(StackRef(CPtr::new(p)))
    }
}

impl<T, S> Stack<T, S> {
    fn zeroed() -> Self {
        Stack { inner: CType::zeroed(), _params: PhantomData }
    }
}

impl<'a, T, S> StackRef<'a, T, S> {
    fn from_ptr(p: RawPtr<StackSt>) -> Option<Self> {
        NonNullPtr::new(p.cast::<Stack<T, S>>()).map(|p| StackRef(CPtr::new(p)))
    }

    fn as_ptr(&self) -> RawPtr<StackSt> {
        self.0.as_non_null().as_ptr().cast()
    }

    fn num(&self, memory: &CRegion<StackSt>) -> i32 {
        memory.get(self.as_ptr()).num
    }
}

impl<'a, T, S> StackMut<'a, T, S> {
    fn as_mut_ptr(&mut self) -> RawPtr<StackSt> {
        self.0 .0.as_non_null().as_ptr().cast()
    }

    fn set_num(&mut self, memory: &mut CRegion<StackSt>, v: i32) {
        memory.get_mut(self.as_mut_ptr()).num = v;
    }
}

impl<'a, T, S> Deref for StackMut<'a, T, S> {
    type Target = StackRef<'a, T, S>;

    fn deref(&self) -> &StackRef<'a, T, S> {
        &self.0
    }
}

type StackOfX509Owned = Stack<X509, Owned<X509Free>>;

#[test]
fn layout_and_niche() {
    // The layout newtype keeps the C struct's size, so it embeds by value.
    assert_eq!(size_of::<FooFull>(), size_of::<FooSt>());
    assert_eq!(size_of::<Stack<X509, Borrowed>>(), size_of::<StackSt>());
    assert_eq!(size_of::<StackOfX509Owned>(), size_of::<StackSt>());

    // The handles are one pointer regardless of the generics, with the niche.
    assert_eq!(size_of::<StackRef<'_, X509, Borrowed>>(), size_of::<&StackSt>());
    assert_eq!(size_of::<StackMut<'_, X509, Borrowed>>(), size_of::<&StackSt>());
    assert_eq!(size_of::<Option<StackRef<'_, X509, Borrowed>>>(), size_of::<&StackSt>());
    assert_eq!(size_of::<Option<CBox<FooFull>>>(), size_of::<&FooSt>());
}

// Covariance: a longer borrow is usable where a shorter one is expected.
fn covariant<'a>(x: StackRef<'static, X509, Borrowed>, _: &'a u8) -> StackRef<'a, X509, Borrowed> {
    x
}

#[test]
fn the_hand_written_seam_reads_and_writes() {
    let base: NonNullPtr<StackSt> = NonNullPtr::new(RawPtr::new(0x1000)).unwrap();
    let mut memory = CRegion::new(base, vec![StackSt { num: 3, data: RawPtr::null() }]);
    let raw = base.as_ptr();

    let r: StackRef<'_, X509, Borrowed> = StackRef::from_ptr(raw).unwrap();
    assert_eq!(r.num(&memory), 3);
    assert!(memory.get(r.as_ptr()).data.is_null());

    let mut m: StackMut<'_, X509, Borrowed> =
        Stack::mut_from_raw(NonNullPtr::new(raw.cast()).unwrap());
    m.set_num(&mut memory, 7);
    // Getters reach through `Deref` to the shared handle.
    assert_eq!(m.num(&memory), 7);

    // `zeroed` builds a value for inline storage.
    let inline: Stack<X509, Borrowed> = Stack::zeroed();
    assert_eq!(size_of_wrapped(&inline.inner), size_of::<StackSt>());
    assert_eq!(inline.inner.get().num, 0);
    assert!(inline.inner.get().data.is_null());

    let x = 0u8;
    let longer: StackRef<'static, X509, Borrowed> = StackRef::from_ptr(raw).unwrap();
    assert!(covariant(longer, &x).as_ptr() == raw);
}

fn size_of_wrapped<T>(_: &CType<T>) -> usize {
    size_of::<CType<T>>()
}

#[test]
fn owning_handles_hand_out_handles_not_references() {
    let base: NonNullPtr<FooSt> = NonNullPtr::new(RawPtr::new(0x1000)).unwrap();
    let mut memory = CRegion::new(base, vec![FooSt { a: 1, p: RawPtr::null() }]);
    let mut b = CBox::<FooFull>::from_raw(base.as_ptr()).unwrap();

    let _shared: CRef<'_, FooFull> = b.as_ref();
    let mut excl: CMut<'_, FooFull> = b.as_mut();
    memory.get_mut(excl.as_mut_ptr()).a = 9;
    assert_eq!(memory.get(b.as_ref().as_ptr()).a, 9);
    assert!(memory.get(b.as_ref().as_ptr()).p.is_null());

    assert!(b.into_raw() == base.as_ptr());
}

// ---------------------------------------------------------------------------
// CBoxWith<T, D>: the owner that carries its teardown policy
// ---------------------------------------------------------------------------

struct StackHeap {
    live: BTreeMap<usize, StackSt>,
    next: usize,
    pop_free_calls: usize,
    elem_fn_seen: Option<fn(RawPtr<CVoid>)>,
    dup_fails: bool,
}

impl StackHeap {
    fn new() -> Self {
        let mut live = BTreeMap::new();
        live.insert(0x1000, StackSt { num: 0, data: RawPtr::null() });
        StackHeap { live, next: 0x2000, pop_free_calls: 0, elem_fn_seen: None, dup_fails: false }
    }
}

fn x509_free_mock(_p: RawPtr<CVoid>) {}

/// The dropper IS the runtime state: the caller-supplied element-free function.
#[derive(Clone, Copy)]
struct ElemFree(fn(RawPtr<CVoid>));

impl CDropper<Stack<X509, Borrowed>> for ElemFree {
    type Heap = StackHeap;

    fn c_drop(&self, heap: &mut StackHeap, ptr: NonNullPtr<Stack<X509, Borrowed>>) {
        heap.pop_free_calls += 1;
        heap.elem_fn_seen = Some(self.0);
        heap.live.remove(&ptr.as_ptr().addr()).expect("freed once");
    }
}

impl CCloner<Stack<X509, Borrowed>> for ElemFree {
    fn c_clone(
        &self,
        heap: &mut StackHeap,
        ptr: NonNullPtr<Stack<X509, Borrowed>>,
    ) -> Option<NonNullPtr<Stack<X509, Borrowed>>> {
        if heap.dup_fails {
            return None;
        }
        let num = heap.live[&ptr.as_ptr().addr()].num;
        let addr = heap.next;
        heap.next += 0x10;
        heap.live.insert(addr, StackSt { num, data: RawPtr::null() });
        NonNullPtr::new(RawPtr::new(addr))
    }
}

fn same_fn(a: fn(RawPtr<CVoid>), b: fn(RawPtr<CVoid>)) -> bool {
    core::ptr::fn_addr_eq(a, b)
}

#[test]
fn cboxwith_runs_dropper_with_runtime_state() {
    let mut heap = StackHeap::new();

    // The free function is fixed HERE, at the seam.
    let owned = CBoxWith::<Stack<X509, Borrowed>, ElemFree>::from_raw(
        RawPtr::new(0x1000),
        ElemFree(x509_free_mock),
    )
    .unwrap();
    owned.drop(&mut heap);

    assert_eq!(heap.pop_free_calls, 1);
    assert!(
        same_fn(heap.elem_fn_seen.unwrap(), x509_free_mock),
        "the dropper must carry the runtime free fn into teardown",
    );
}

#[test]
fn cboxwith_from_null_is_none() {
    assert!(CBoxWith::<Stack<X509, Borrowed>, ElemFree>::from_raw(
        RawPtr::null(),
        ElemFree(x509_free_mock)
    )
    .is_none());
}

#[test]
fn cboxwith_into_raw_recovers_pointer_and_state() {
    let mut heap = StackHeap::new();
    let owned = CBoxWith::<Stack<X509, Borrowed>, ElemFree>::from_raw(
        RawPtr::new(0x1000),
        ElemFree(x509_free_mock),
    )
    .unwrap();
    assert_eq!(owned.as_ptr().addr(), 0x1000);
    assert_eq!(owned.as_ref().as_ptr().addr(), 0x1000);
    assert!(same_fn(owned.dropper().0, x509_free_mock));

    let (raw, dropper) = owned.into_raw();
    assert_eq!(heap.pop_free_calls, 0);
    let restored = CBoxWith::<Stack<X509, Borrowed>, ElemFree>::from_raw(raw, dropper).unwrap();
    restored.drop(&mut heap);
    assert_eq!(heap.pop_free_calls, 1);
}

#[test]
fn cboxwith_clone_copies_object_and_state() {
    let mut heap = StackHeap::new();
    heap.live.get_mut(&0x1000).unwrap().num = 4;
    let a = CBoxWith::<Stack<X509, Borrowed>, ElemFree>::from_raw(
        RawPtr::new(0x1000),
        ElemFree(x509_free_mock),
    )
    .unwrap();
    let b = a.clone(&mut heap);
    assert!(a.as_ptr() != b.as_ptr());
    assert_eq!(heap.live[&b.as_ptr().addr()].num, 4);
    assert!(same_fn(b.dropper().0, x509_free_mock));

    heap.dup_fails = true;
    assert!(a.try_clone(&mut heap).is_none());

    a.drop(&mut heap);
    b.drop(&mut heap);
    assert_eq!(heap.pop_free_calls, 2);
    assert!(heap.live.is_empty());
}

// The construction phase: hold the allocation under a storage-only policy while
// filling it, then promote.
struct FooHeap {
    memory: CRegion<FooSt>,
    storage_frees: usize,
    full_frees: usize,
}

impl FooHeap {
    fn new() -> Self {
        let base: NonNullPtr<FooSt> = NonNullPtr::new(RawPtr::new(0x1000)).unwrap();
        FooHeap {
            memory: CRegion::new(base, vec![FooSt { a: 0, p: RawPtr::null() }]),
            storage_frees: 0,
            full_frees: 0,
        }
    }
}

struct StorageFree;

impl CDropper<FooFull> for StorageFree {
    type Heap = FooHeap;

    fn c_drop(&self, heap: &mut FooHeap, ptr: NonNullPtr<FooFull>) {
        assert_eq!(ptr.as_ptr().addr(), 0x1000);
        heap.storage_frees += 1;
    }
}

impl CDropped for FooFull {
    type Heap = FooHeap;

    fn c_drop(heap: &mut FooHeap, obj: NonNullPtr<Self>) {
        assert_eq!(obj.as_ptr().addr(), 0x1000);
        heap.full_frees += 1;
    }
}

impl CDroppedUninit for FooFull {
    type Heap = FooHeap;

    fn c_drop_uninit(heap: &mut FooHeap, obj: NonNullPtr<Self>) {
        assert_eq!(obj.as_ptr().addr(), 0x1000);
        heap.storage_frees += 1;
    }
}

#[test]
fn construction_phase_promotes_with_exactly_one_teardown() {
    let mut heap = FooHeap::new();

    let raw: RawPtr<FooSt> = RawPtr::new(0x1000);
    let mut slot = CBoxWith::<FooFull, StorageFree>::from_raw(raw, StorageFree).unwrap();
    heap.memory.get_mut(slot.as_mut().as_mut_ptr()).a = 42;

    // Promote: the storage policy is forgotten, the full destructor takes over.
    let formed: CBox<FooFull> = slot.into_box();
    assert_eq!(heap.memory.get(formed.as_ref().as_ptr()).a, 42);
    assert_eq!(heap.storage_frees, 0);

    formed.drop(&mut heap);
    assert_eq!(heap.full_frees, 1);
    assert_eq!(
        heap.storage_frees, 0,
        "the construction-phase teardown must not run on a promoted object"
    );
}

#[test]
fn construction_phase_bails_with_storage_only_teardown() {
    let mut heap = FooHeap::new();

    let raw: RawPtr<FooSt> = RawPtr::new(0x1000);
    let slot = CBoxWith::<FooFull, StorageFree>::from_raw(raw, StorageFree).unwrap();
    // Released without promoting: the construction-failure path.
    slot.drop(&mut heap);
    assert_eq!(heap.storage_frees, 1);
    assert_eq!(heap.full_frees, 0, "the real destructor must not run over a half-built object");
}

#[test]
fn cboxwith_layout_thin_vs_fat() {
    // A zero-sized policy keeps the owner pointer-sized.
    assert_eq!(size_of::<CBoxWith<FooFull, StorageFree>>(), size_of::<&FooSt>());
    assert_eq!(size_of::<Option<CBoxWith<FooFull, StorageFree>>>(), size_of::<&FooSt>());
    // With real state it is the pointer and the state.
    assert_eq!(
        size_of::<CBoxWith<Stack<X509, Borrowed>, ElemFree>>(),
        size_of::<&StackSt>() + size_of::<ElemFree>(),
    );
    let embedded = FooFull { inner: CType::new(FooSt { a: 0, p: RawPtr::null() }) };
    assert_eq!(size_of::<FooFull>(), size_of_wrapped(&embedded.inner));
}

#[test]
fn uninit_slot_promotes_or_frees_its_storage() {
    let mut heap = FooHeap::new();
    assert!(CBoxUninit::<FooFull>::from_raw_uninit(RawPtr::null()).is_none());

    let mut slot = CBoxUninit::<FooFull>::from_raw_uninit(RawPtr::new(0x1000)).unwrap();
    assert_eq!(slot.as_mut_ptr().addr(), 0x1000);
    assert_eq!(slot.as_ptr().addr(), 0x1000);
    assert_eq!(slot.as_ref().as_ptr().addr(), 0x1000);
    heap.memory.get_mut(slot.as_mut().as_mut_ptr()).a = 8;
    let formed = slot.assume_init();
    assert_eq!(heap.memory.get(formed.as_ref().as_ptr()).a, 8);
    formed.drop(&mut heap);
    assert_eq!((heap.full_frees, heap.storage_frees), (1, 0));

    let slot = CBoxUninit::<FooFull>::from_raw_uninit(RawPtr::new(0x1000)).unwrap();
    let raw = slot.into_raw_uninit();
    assert_eq!(raw.addr(), 0x1000);
    assert_eq!((heap.full_frees, heap.storage_frees), (1, 0));

    let slot = CBoxUninit::<FooFull>::from_raw_uninit(raw).unwrap();
    slot.drop(&mut heap);
    assert_eq!((heap.full_frees, heap.storage_frees), (1, 1));
}
