//! The owners over mock C types: each heap counts the calls of its routines and
//! holds the objects by address.

use std::collections::BTreeMap;

use ffibox::register::c_object;
use ffibox::{
    CBox, CCell, CCloned, CDropped, CLenCloned, CLenDropped, CMut, CPtr, CRef, CRegion, CSlice,
    CSliceMut, CType, CVal, CValGuard, CValued, CVec, CVoid, CVoidBox, CZeroed, NonNullPtr, RawPtr,
};

// ---------------------------------------------------------------------------
// Mock memory and mock handles
// ---------------------------------------------------------------------------

/// Objects of one C type, by address.
struct Objects<T> {
    live: BTreeMap<usize, T>,
    next: usize,
}

impl<T> Objects<T> {
    fn new() -> Self {
        Objects { live: BTreeMap::new(), next: 0x1000 }
    }

    fn allocate(&mut self, value: T) -> usize {
        let addr = self.next;
        self.next += 0x40;
        self.live.insert(addr, value);
        addr
    }

    fn at(&self, addr: usize) -> &T {
        &self.live[&addr]
    }

    fn at_mut(&mut self, addr: usize) -> &mut T {
        self.live.get_mut(&addr).expect("live")
    }

    fn free(&mut self, addr: usize) -> T {
        self.live.remove(&addr).expect("freed once")
    }
}

/// Mock shared handle: one pointer, `Copy`.
struct MockRef<'a, T>(CPtr<'a, T>);

impl<T> Clone for MockRef<'_, T> {
    fn clone(&self) -> Self {
        *self
    }
}

impl<T> Copy for MockRef<'_, T> {}

impl<T> MockRef<'_, T> {
    fn addr(&self) -> usize {
        self.0.as_non_null().as_ptr().addr()
    }
}

/// Mock exclusive handle: move-only.
struct MockMut<'a, T>(MockRef<'a, T>);

impl<T> MockMut<'_, T> {
    fn addr(&mut self) -> usize {
        self.0.addr()
    }
}

// ---------------------------------------------------------------------------
// Refcounted mock: c_drop is the down-ref and c_clone the up_ref
// ---------------------------------------------------------------------------

struct Refcounted {
    rc: usize,
}

struct RefcountedHeap {
    objects: Objects<Refcounted>,
    up_ref_calls: usize,
    down_ref_calls: usize,
    freed: usize,
}

impl RefcountedHeap {
    fn new() -> Self {
        RefcountedHeap { objects: Objects::new(), up_ref_calls: 0, down_ref_calls: 0, freed: 0 }
    }

    fn rc(&self, b: &CBox<Refcounted>) -> usize {
        self.objects.at(b.as_ref().addr()).rc
    }
}

impl CCell for Refcounted {
    type C = Refcounted;
    type Ref<'a> = MockRef<'a, Refcounted>;
    type Mut<'a> = MockMut<'a, Refcounted>;

    fn ref_from_raw<'a>(p: NonNullPtr<Self>) -> MockRef<'a, Refcounted> {
        MockRef(CPtr::new(p))
    }

    fn mut_from_raw<'a>(p: NonNullPtr<Self>) -> MockMut<'a, Refcounted> {
        MockMut(MockRef(CPtr::new(p)))
    }
}

impl CDropped for Refcounted {
    type Heap = RefcountedHeap;

    fn c_drop(heap: &mut RefcountedHeap, obj: NonNullPtr<Self>) {
        heap.down_ref_calls += 1;
        let addr = obj.as_ptr().addr();
        let this = heap.objects.at_mut(addr);
        this.rc -= 1;
        if this.rc == 0 {
            heap.freed += 1;
            heap.objects.free(addr);
        }
    }
}

impl CCloned for Refcounted {
    fn c_clone(heap: &mut RefcountedHeap, obj: NonNullPtr<Self>) -> Option<NonNullPtr<Self>> {
        heap.up_ref_calls += 1;
        heap.objects.at_mut(obj.as_ptr().addr()).rc += 1;
        Some(obj)
    }
}

fn make_refcounted(heap: &mut RefcountedHeap) -> CBox<Refcounted> {
    let addr = heap.objects.allocate(Refcounted { rc: 1 });
    CBox::from_raw(RawPtr::new(addr)).unwrap()
}

#[test]
fn refcounted_cbox_clone_calls_up_ref() {
    let mut heap = RefcountedHeap::new();

    let a = make_refcounted(&mut heap);
    assert_eq!(heap.rc(&a), 1);

    let b = a.clone(&mut heap);
    assert_eq!(heap.up_ref_calls, 1);
    assert_eq!(heap.rc(&a), 2);
    assert_eq!(heap.rc(&b), 2);

    let c = b.clone(&mut heap);
    assert_eq!(heap.up_ref_calls, 2);
    assert_eq!(heap.rc(&c), 3);

    // Pointers should all be equal (same object, just more refs).
    assert!(a.as_ptr() == b.as_ptr());
    assert!(b.as_ptr() == c.as_ptr());

    a.drop(&mut heap);
    b.drop(&mut heap);
    assert_eq!(heap.freed, 0);
    c.drop(&mut heap);
    assert_eq!(heap.down_ref_calls, 3);
    assert_eq!(heap.freed, 1);
}

#[test]
fn refcounted_cbox_into_raw_preserves_refcount() {
    let mut heap = RefcountedHeap::new();

    let a = make_refcounted(&mut heap);
    let raw = a.into_raw();
    assert_eq!(heap.down_ref_calls, 0);

    let restored = CBox::<Refcounted>::from_raw(raw).unwrap();
    restored.drop(&mut heap);
    assert_eq!(heap.down_ref_calls, 1);
    assert_eq!(heap.freed, 1);
}

#[test]
fn refcounted_cbox_from_raw_null_returns_none() {
    let v: Option<CBox<Refcounted>> = CBox::from_raw(RawPtr::null());
    assert!(v.is_none());
}

// Either handle of a shared object may go first: the object is freed with the
// last one and never before.
#[test]
fn handles_release_in_either_order() {
    for original_first in [true, false] {
        let mut heap = RefcountedHeap::new();
        let a = make_refcounted(&mut heap);
        let b = a.clone(&mut heap);
        let (first, second) = if original_first { (a, b) } else { (b, a) };
        first.drop(&mut heap);
        assert_eq!(heap.freed, 0);
        assert_eq!(heap.rc(&second), 1);
        second.drop(&mut heap);
        assert_eq!(heap.freed, 1);
        assert!(heap.objects.live.is_empty());
    }
}

// ---------------------------------------------------------------------------
// try_clone: the clone of a refcount that can overflow
// ---------------------------------------------------------------------------

const SATURATING_MAX: usize = 3;

struct Saturating {
    rc: usize,
}

impl CCell for Saturating {
    type C = Saturating;
    type Ref<'a> = MockRef<'a, Saturating>;
    type Mut<'a> = MockMut<'a, Saturating>;

    fn ref_from_raw<'a>(p: NonNullPtr<Self>) -> MockRef<'a, Saturating> {
        MockRef(CPtr::new(p))
    }

    fn mut_from_raw<'a>(p: NonNullPtr<Self>) -> MockMut<'a, Saturating> {
        MockMut(MockRef(CPtr::new(p)))
    }
}

impl CDropped for Saturating {
    type Heap = Objects<Saturating>;

    fn c_drop(heap: &mut Objects<Saturating>, obj: NonNullPtr<Self>) {
        let addr = obj.as_ptr().addr();
        let this = heap.at_mut(addr);
        this.rc -= 1;
        if this.rc == 0 {
            heap.free(addr);
        }
    }
}

impl CCloned for Saturating {
    fn c_clone(heap: &mut Objects<Saturating>, obj: NonNullPtr<Self>) -> Option<NonNullPtr<Self>> {
        let this = heap.at_mut(obj.as_ptr().addr());
        if this.rc >= SATURATING_MAX {
            return None;
        }
        this.rc += 1;
        Some(obj)
    }
}

fn make_saturating(heap: &mut Objects<Saturating>) -> CBox<Saturating> {
    let addr = heap.allocate(Saturating { rc: 1 });
    CBox::from_raw(RawPtr::new(addr)).unwrap()
}

fn saturating_rc(heap: &Objects<Saturating>, b: &CBox<Saturating>) -> usize {
    heap.at(b.as_ref().addr()).rc
}

#[test]
fn try_clone_succeeds_below_overflow() {
    let mut heap = Objects::new();
    let a = make_saturating(&mut heap);
    assert_eq!(saturating_rc(&heap, &a), 1);

    let b = a.try_clone(&mut heap).expect("try_clone should succeed below MAX");
    assert_eq!(saturating_rc(&heap, &a), 2);
    assert!(a.as_ptr() == b.as_ptr()); // same object

    let c = a.try_clone(&mut heap).expect("try_clone should succeed at MAX-1");
    assert_eq!(saturating_rc(&heap, &a), 3);

    b.drop(&mut heap);
    c.drop(&mut heap);
    assert_eq!(saturating_rc(&heap, &a), 1);
    a.drop(&mut heap);
}

#[test]
fn try_clone_returns_none_on_overflow() {
    let mut heap = Objects::new();
    let a = make_saturating(&mut heap);

    // Bump to the limit.
    let b = a.try_clone(&mut heap).unwrap(); // rc = 2
    let c = a.try_clone(&mut heap).unwrap(); // rc = 3 = SATURATING_MAX

    // Next try_clone must return None: up_ref reports overflow.
    let overflow = a.try_clone(&mut heap);
    assert!(overflow.is_none(), "try_clone must return None when up_ref signals overflow");

    // Object is still live and its refcount is unchanged.
    assert_eq!(saturating_rc(&heap, &a), SATURATING_MAX);
    c.drop(&mut heap);
    b.drop(&mut heap);
    a.drop(&mut heap);
    assert!(heap.live.is_empty());
}

#[test]
fn try_clone_none_does_not_create_phantom_handle() {
    let mut heap = Objects::new();
    let a = make_saturating(&mut heap);
    let b = a.try_clone(&mut heap).unwrap(); // rc = 2
    let c = a.try_clone(&mut heap).unwrap(); // rc = 3 = SATURATING_MAX

    let phantom = a.try_clone(&mut heap); // None: no new handle
    assert!(phantom.is_none());

    // Each release decrements once; a phantom handle would have made one more.
    c.drop(&mut heap);
    assert_eq!(saturating_rc(&heap, &a), 2);
    b.drop(&mut heap);
    assert_eq!(saturating_rc(&heap, &a), 1);
    a.drop(&mut heap);
    assert!(heap.live.is_empty());
}

// ---------------------------------------------------------------------------
// Unique-owned mock, whose c_drop tests whether to free
// ---------------------------------------------------------------------------

struct Boxed {
    payload: u32,
    should_free: bool,
}

struct BoxedHeap {
    objects: Objects<Boxed>,
    free_calls: usize,
}

impl CCell for Boxed {
    type C = Boxed;
    type Ref<'a> = MockRef<'a, Boxed>;
    type Mut<'a> = MockMut<'a, Boxed>;

    fn ref_from_raw<'a>(p: NonNullPtr<Self>) -> MockRef<'a, Boxed> {
        MockRef(CPtr::new(p))
    }

    fn mut_from_raw<'a>(p: NonNullPtr<Self>) -> MockMut<'a, Boxed> {
        MockMut(MockRef(CPtr::new(p)))
    }
}

impl CDropped for Boxed {
    type Heap = BoxedHeap;

    fn c_drop(heap: &mut BoxedHeap, obj: NonNullPtr<Self>) {
        heap.free_calls += 1;
        let addr = obj.as_ptr().addr();
        if heap.objects.at(addr).should_free {
            heap.objects.free(addr);
        }
    }
}

fn make_boxed(heap: &mut BoxedHeap, should_free: bool) -> CBox<Boxed> {
    let addr = heap.objects.allocate(Boxed { payload: 42, should_free });
    CBox::from_raw(RawPtr::new(addr)).unwrap()
}

#[test]
fn cbox_drop_calls_c_drop() {
    let mut heap = BoxedHeap { objects: Objects::new(), free_calls: 0 };

    let b = make_boxed(&mut heap, true);
    assert_eq!(heap.objects.at(b.as_ref().addr()).payload, 42);
    b.drop(&mut heap);
    assert_eq!(heap.free_calls, 1);
}

#[test]
fn cbox_always_calls_c_drop_gate_folds_internally() {
    let mut heap = BoxedHeap { objects: Objects::new(), free_calls: 0 };

    // `should_free = false`: c_drop is still called, but its own condition
    // declines to reclaim, leaving the storage to us.
    let b = make_boxed(&mut heap, false);
    let raw = b.as_ptr();
    b.drop(&mut heap);
    assert_eq!(
        heap.free_calls, 1,
        "a release must call c_drop unconditionally; whether to skip is decided inside c_drop"
    );
    // Reclaim the object (c_drop declined to).
    assert!(!heap.objects.free(raw.addr()).should_free);
}

#[test]
fn cbox_into_raw_suppresses_drop() {
    let mut heap = BoxedHeap { objects: Objects::new(), free_calls: 0 };

    let b = make_boxed(&mut heap, true);
    let raw = b.into_raw();
    assert_eq!(heap.free_calls, 0);

    let restored = CBox::<Boxed>::from_raw(raw).unwrap();
    restored.drop(&mut heap);
    assert_eq!(heap.free_calls, 1);
}

#[test]
fn cbox_exclusive_handle_addresses_the_object() {
    let mut heap = BoxedHeap { objects: Objects::new(), free_calls: 0 };

    let mut b = make_boxed(&mut heap, true);
    let addr = b.as_mut().addr();
    heap.objects.at_mut(addr).payload = 43;
    assert_eq!(heap.objects.at(b.as_ptr().addr()).payload, 43);
    b.drop(&mut heap);
}

// ---------------------------------------------------------------------------
// CCloned as a deep clone
// ---------------------------------------------------------------------------

struct Dupable {
    payload: u32,
}

struct DupableHeap {
    objects: Objects<Dupable>,
    free_calls: usize,
    dup_calls: usize,
    /// When non-zero, the next `c_clone` fails and decrements this.
    dup_failures: usize,
}

impl DupableHeap {
    fn new(dup_failures: usize) -> Self {
        DupableHeap { objects: Objects::new(), free_calls: 0, dup_calls: 0, dup_failures }
    }

    fn payload(&self, b: &CBox<Dupable>) -> u32 {
        self.objects.at(b.as_ref().addr()).payload
    }
}

impl CCell for Dupable {
    type C = Dupable;
    type Ref<'a> = MockRef<'a, Dupable>;
    type Mut<'a> = MockMut<'a, Dupable>;

    fn ref_from_raw<'a>(p: NonNullPtr<Self>) -> MockRef<'a, Dupable> {
        MockRef(CPtr::new(p))
    }

    fn mut_from_raw<'a>(p: NonNullPtr<Self>) -> MockMut<'a, Dupable> {
        MockMut(MockRef(CPtr::new(p)))
    }
}

impl CDropped for Dupable {
    type Heap = DupableHeap;

    fn c_drop(heap: &mut DupableHeap, obj: NonNullPtr<Self>) {
        heap.free_calls += 1;
        heap.objects.free(obj.as_ptr().addr());
    }
}

impl CCloned for Dupable {
    fn c_clone(heap: &mut DupableHeap, obj: NonNullPtr<Self>) -> Option<NonNullPtr<Self>> {
        heap.dup_calls += 1;
        if heap.dup_failures > 0 {
            heap.dup_failures -= 1;
            return None;
        }
        let payload = heap.objects.at(obj.as_ptr().addr()).payload;
        let addr = heap.objects.allocate(Dupable { payload });
        NonNullPtr::new(RawPtr::new(addr))
    }
}

fn make_dupable(heap: &mut DupableHeap, payload: u32) -> CBox<Dupable> {
    let addr = heap.objects.allocate(Dupable { payload });
    CBox::from_raw(RawPtr::new(addr)).unwrap()
}

#[test]
fn cbox_clone_invokes_c_clone_and_produces_independent_handle() {
    let mut heap = DupableHeap::new(0);

    let a = make_dupable(&mut heap, 123);
    let b = a.clone(&mut heap);

    assert_eq!(heap.dup_calls, 1);
    // Distinct allocations: deep clone, not refcount bump.
    assert!(a.as_ptr() != b.as_ptr());
    assert_eq!(heap.payload(&a), 123);
    assert_eq!(heap.payload(&b), 123);

    // Each handle owns its own allocation: releasing both calls c_drop twice.
    a.drop(&mut heap);
    b.drop(&mut heap);
    assert_eq!(heap.free_calls, 2);
}

#[test]
fn cbox_try_clone_succeeds_returns_some() {
    let mut heap = DupableHeap::new(0);

    let a = make_dupable(&mut heap, 7);
    let b = a.try_clone(&mut heap).expect("c_clone success path must yield Some");
    assert_eq!(heap.payload(&b), 7);
    assert!(a.as_ptr() != b.as_ptr());

    a.drop(&mut heap);
    b.drop(&mut heap);
    assert_eq!(heap.free_calls, 2);
}

#[test]
fn cbox_try_clone_returns_none_on_c_clone_failure() {
    let mut heap = DupableHeap::new(1);

    let a = make_dupable(&mut heap, 99);
    let attempt = a.try_clone(&mut heap);
    assert!(attempt.is_none(), "try_clone must propagate c_clone failure");
    // Original handle is still live and untouched.
    assert_eq!(heap.payload(&a), 99);

    a.drop(&mut heap);
    // Only the original is freed: the failed clone did not produce a handle.
    assert_eq!(heap.free_calls, 1);
}

// ---------------------------------------------------------------------------
// CVec: strategy-based cleanup
// ---------------------------------------------------------------------------

struct BufferHeap {
    cleanup_calls: usize,
    last_ptr: usize,
    last_byte_len: usize,
    copies: Objects<usize>,
    copy_fails: bool,
}

impl BufferHeap {
    fn new() -> Self {
        BufferHeap {
            cleanup_calls: 0,
            last_ptr: 0,
            last_byte_len: usize::MAX,
            copies: Objects::new(),
            copy_fails: false,
        }
    }
}

/// Cleanup strategy that records each call.
struct RecordingFree;

impl CLenDropped for RecordingFree {
    type Heap = BufferHeap;

    fn c_drop_len(heap: &mut BufferHeap, ptr: RawPtr<u8>, byte_len: usize) {
        heap.cleanup_calls += 1;
        heap.last_ptr = ptr.addr();
        heap.last_byte_len = byte_len;
    }
}

impl CLenCloned for RecordingFree {
    fn c_clone_len(
        heap: &mut BufferHeap,
        _ptr: RawPtr<u8>,
        byte_len: usize,
    ) -> Option<NonNullPtr<u8>> {
        if heap.copy_fails {
            return None;
        }
        let addr = heap.copies.allocate(byte_len);
        NonNullPtr::new(RawPtr::new(addr))
    }
}

fn make_cvec<T>(elems: Vec<T>) -> (CVec<T, RecordingFree>, CRegion<T>) {
    let count = elems.len();
    let base: NonNullPtr<T> = NonNullPtr::new(RawPtr::new(0x2000)).unwrap();
    let region = CRegion::new(base, elems);
    (CVec::from_raw_parts(base.as_ptr(), count).unwrap(), region)
}

#[test]
fn cvec_basic_slice_view() {
    let (v, region) = make_cvec(vec![1u32, 2, 3, 4]);
    assert_eq!(v.count(), 4);
    assert_eq!(v.byte_len(), 16);
    assert!(!v.is_empty());
    assert_eq!(v.as_slice(&region), &[1, 2, 3, 4]);
}

#[test]
fn cvec_mutable_slice_view() {
    let (mut v, mut region) = make_cvec(vec![0u8, 0, 0]);
    v.as_mut_slice(&mut region).copy_from_slice(&[10, 20, 30]);
    assert_eq!(v.as_slice(&region), &[10, 20, 30]);
}

#[test]
fn cvec_drop_calls_cleanup_with_correct_byte_len() {
    let mut heap = BufferHeap::new();

    let (v, _region) = make_cvec(vec![0u32; 8]);
    let expected_bytes = 8 * core::mem::size_of::<u32>();
    v.drop(&mut heap);

    assert_eq!(heap.cleanup_calls, 1);
    assert_eq!(heap.last_byte_len, expected_bytes);
    assert_eq!(heap.last_ptr, 0x2000);
}

#[test]
fn cvec_into_raw_parts_suppresses_cleanup() {
    let mut heap = BufferHeap::new();

    let (v, _region) = make_cvec(vec![1u8, 2, 3]);
    let (ptr, count) = v.into_raw_parts();
    assert_eq!(count, 3);
    assert_eq!(heap.cleanup_calls, 0);

    let restored: CVec<u8, RecordingFree> = CVec::from_raw_parts(ptr, count).unwrap();
    restored.drop(&mut heap);
    assert_eq!(heap.cleanup_calls, 1);
}

#[test]
fn cvec_from_null_is_none() {
    assert!(CVec::<u32, RecordingFree>::from_raw_parts(RawPtr::null(), 4).is_none());
}

#[test]
fn cvec_of_no_elements_is_empty() {
    let (v, region) = make_cvec(Vec::<u32>::new());
    assert!(v.is_empty());
    assert_eq!(v.count(), 0);
    assert_eq!(v.byte_len(), 0);
    assert!(v.as_slice(&region).is_empty());
}

// A size beyond `usize` wraps, as C's multiplication does.
#[test]
fn cvec_byte_len_wraps() {
    let v: CVec<u16, RecordingFree> =
        CVec::from_raw_parts(RawPtr::new(0x2000), usize::MAX / 2 + 3).unwrap();
    assert_eq!(v.byte_len(), 4);
}

#[test]
fn cvec_views_its_own_place_of_a_larger_region() {
    let base: NonNullPtr<u32> = NonNullPtr::new(RawPtr::new(0x2000)).unwrap();
    let mut region = CRegion::new(base, vec![9u32, 1, 2, 9]);
    let ptr = region.ptr_at(1).as_ptr();
    assert_eq!(ptr.addr(), 0x2004);
    let mut v: CVec<u32, RecordingFree> = CVec::from_raw_parts(ptr, 2).unwrap();
    assert_eq!(v.as_slice(&region), &[1, 2]);
    v.as_mut_slice(&mut region)[1] = 7;
    assert_eq!(region.as_slice(), &[9, 1, 7, 9]);
}

#[test]
fn cvec_clone_copies_the_bytes_and_keeps_the_count() {
    let mut heap = BufferHeap::new();

    let (v, _region) = make_cvec(vec![1u32, 2, 3]);
    let w = v.clone(&mut heap);
    assert_eq!(w.count(), 3);
    assert!(w.as_ptr() != v.as_ptr());
    assert_eq!(*heap.copies.at(w.as_ptr().addr()), 12);

    w.drop(&mut heap);
    assert_eq!(heap.last_byte_len, 12);
    v.drop(&mut heap);
    assert_eq!(heap.cleanup_calls, 2);
    assert_eq!(heap.last_ptr, 0x2000);
}

#[test]
fn cvec_try_clone_reports_failure_as_none() {
    let mut heap = BufferHeap::new();
    heap.copy_fails = true;

    let (v, region) = make_cvec(vec![1u32, 2, 3]);
    assert!(v.try_clone(&mut heap).is_none());
    assert_eq!(v.as_slice(&region), &[1, 2, 3]);
    v.drop(&mut heap);
    assert_eq!(heap.cleanup_calls, 1);
}

// ---------------------------------------------------------------------------
// Layout
// ---------------------------------------------------------------------------

#[test]
fn refcounted_cbox_is_pointer_sized() {
    assert_eq!(
        core::mem::size_of::<CBox<Refcounted>>(),
        core::mem::size_of::<&Refcounted>(),
    );
    // Niche: Option<CBox<T>> stays pointer-sized.
    assert_eq!(
        core::mem::size_of::<Option<CBox<Refcounted>>>(),
        core::mem::size_of::<&Refcounted>(),
    );
}

#[test]
fn cbox_is_pointer_sized() {
    assert_eq!(core::mem::size_of::<CBox<Boxed>>(), core::mem::size_of::<&Boxed>());
    assert_eq!(core::mem::size_of::<Option<CBox<Boxed>>>(), core::mem::size_of::<&Boxed>());
}

#[test]
fn every_handle_keeps_the_niche() {
    let pointer = core::mem::size_of::<&u8>();
    assert_eq!(core::mem::size_of::<Option<NonNullPtr<u8>>>(), pointer);
    assert_eq!(core::mem::size_of::<Option<CPtr<'static, Boxed>>>(), pointer);
    assert_eq!(core::mem::size_of::<Option<CRef<'static, Boxed>>>(), pointer);
    assert_eq!(core::mem::size_of::<Option<CMut<'static, Boxed>>>(), pointer);
    assert_eq!(core::mem::size_of::<Option<CVec<u8, RecordingFree>>>(), 2 * pointer);
}

#[test]
fn cvec_is_ptr_plus_usize() {
    assert_eq!(
        core::mem::size_of::<CVec<u8, RecordingFree>>(),
        core::mem::size_of::<&u8>() + core::mem::size_of::<usize>(),
    );
}

// ---------------------------------------------------------------------------
// CValued: by-value owned resource
// ---------------------------------------------------------------------------

struct Valued {
    payload: u32,
    should_dispose: bool,
}

impl CCell for Valued {
    type C = Valued;
    type Ref<'a> = MockRef<'a, Valued>;
    type Mut<'a> = MockMut<'a, Valued>;

    fn ref_from_raw<'a>(p: NonNullPtr<Self>) -> MockRef<'a, Valued> {
        MockRef(CPtr::new(p))
    }

    fn mut_from_raw<'a>(p: NonNullPtr<Self>) -> MockMut<'a, Valued> {
        MockMut(MockRef(CPtr::new(p)))
    }
}

/// The heap counts disposals.
impl CValued for Valued {
    type Heap = usize;

    fn c_dispose(heap: &mut usize, this: &mut Self) {
        if this.should_dispose {
            *heap += 1;
        }
    }
}

#[test]
fn cvalue_drop_calls_c_dispose_once() {
    let mut disposed = 0;

    let v = CVal::new(Valued { payload: 7, should_dispose: true });
    assert_eq!(v.get().payload, 7);
    // The handle addresses the value where it lies.
    assert_eq!(v.as_ref().addr(), core::ptr::from_ref(v.get()).addr());
    v.drop(&mut disposed);
    assert_eq!(disposed, 1);
}

#[test]
fn cvalue_c_dispose_gate_folds_internally() {
    let mut disposed = 0;

    let v = CVal::new(Valued { payload: 0, should_dispose: false });
    v.drop(&mut disposed);
    assert_eq!(
        disposed, 0,
        "a release always calls c_dispose; its own condition declined the counted work"
    );
}

#[test]
fn cvalue_is_initialised_in_place() {
    let mut disposed = 0;

    let mut v = CVal::new(Valued { payload: 0, should_dispose: false });
    v.get_mut().payload = 5;
    v.get_mut().should_dispose = true;
    assert_eq!(v.get().payload, 5);
    let addr = v.as_mut().addr();
    assert_eq!(addr, core::ptr::from_ref(v.get()).addr());
    v.drop(&mut disposed);
    assert_eq!(disposed, 1);
}

struct GuardValued {
    payload: u32,
}

impl CCell for GuardValued {
    type C = GuardValued;
    type Ref<'a> = MockRef<'a, GuardValued>;
    type Mut<'a> = MockMut<'a, GuardValued>;

    fn ref_from_raw<'a>(p: NonNullPtr<Self>) -> MockRef<'a, GuardValued> {
        MockRef(CPtr::new(p))
    }

    fn mut_from_raw<'a>(p: NonNullPtr<Self>) -> MockMut<'a, GuardValued> {
        MockMut(MockRef(CPtr::new(p)))
    }
}

impl CValued for GuardValued {
    type Heap = usize;

    fn c_dispose(heap: &mut usize, _this: &mut Self) {
        *heap += 1;
    }
}

#[test]
fn cvalguard_disposes_in_place_unless_dismissed() {
    // An embedded value the guard BORROWS (never owns or moves).
    let mut embedded = GuardValued { payload: 9 };
    let addr_before = core::ptr::from_ref(&embedded).addr();

    // Dismissed: no c_dispose, and `embedded` never moved.
    let mut disposed = 0;
    {
        let g = CValGuard::new(&mut embedded);
        assert_eq!(g.get().payload, 9);
        assert_eq!(g.as_ref().addr(), addr_before);
        g.dismiss();
    }
    assert_eq!(disposed, 0, "dismiss must suppress in-place c_dispose");
    assert_eq!(
        core::ptr::from_ref(&embedded).addr(),
        addr_before,
        "dismiss must not relocate the borrowed value",
    );

    // Armed: c_dispose runs in place, value still not moved.
    {
        let g = CValGuard::new(&mut embedded);
        g.drop(&mut disposed);
    }
    assert_eq!(disposed, 1);
    assert_eq!(core::ptr::from_ref(&embedded).addr(), addr_before);
}

#[test]
fn cvalguard_over_a_pointer_guards_that_element() {
    let base: NonNullPtr<Valued> = NonNullPtr::new(RawPtr::new(0x3000)).unwrap();
    let mut region = CRegion::new(
        base,
        vec![
            Valued { payload: 1, should_dispose: false },
            Valued { payload: 2, should_dispose: true },
        ],
    );
    let second = region.ptr_at(1).as_ptr();
    let mut disposed = 0;

    assert!(CValGuard::from_ptr(&mut region, RawPtr::null()).is_none());

    let g = CValGuard::from_ptr(&mut region, second).unwrap();
    assert_eq!(g.get().payload, 2);
    assert_eq!(g.as_ref().addr(), second.addr());
    g.drop(&mut disposed);
    assert_eq!(disposed, 1);
    assert_eq!(region.get(second).payload, 2);
}

// ---------------------------------------------------------------------------
// CVoidBox: type-erased owned `void *` with a static deleter class
// ---------------------------------------------------------------------------

struct ErasedBlob {
    payload: u32,
}

struct BlobHeap {
    blobs: Objects<ErasedBlob>,
    free_calls: usize,
    freed_ptr: usize,
}

impl BlobHeap {
    fn new() -> Self {
        BlobHeap { blobs: Objects::new(), free_calls: 0, freed_ptr: 0 }
    }
}

/// A C-style destructor.
fn test_blob_free(heap: &mut BlobHeap, ptr: RawPtr<CVoid>) {
    heap.free_calls += 1;
    heap.freed_ptr = ptr.addr();
    heap.blobs.free(ptr.addr());
}

/// Deleter class: names how to free, not what.
struct TestBlobFree;

impl CDropped for TestBlobFree {
    type Heap = BlobHeap;

    fn c_drop(heap: &mut BlobHeap, obj: NonNullPtr<Self>) {
        test_blob_free(heap, obj.as_ptr().cast::<CVoid>())
    }
}

type OwnedBlob = CVoidBox<TestBlobFree>;

fn make_owned_blob(heap: &mut BlobHeap, payload: u32) -> (OwnedBlob, RawPtr<CVoid>) {
    let raw = RawPtr::new(heap.blobs.allocate(ErasedBlob { payload }));
    (CVoidBox::from_raw(raw).unwrap(), raw)
}

#[test]
fn cown_drop_frees_once_via_deleter_class() {
    let mut heap = BlobHeap::new();

    let (own, raw) = make_owned_blob(&mut heap, 0xABCD);
    assert_eq!(heap.blobs.at(raw.addr()).payload, 0xABCD);
    assert_eq!(heap.free_calls, 0);

    own.drop(&mut heap);

    assert_eq!(heap.free_calls, 1, "a release must invoke the deleter class exactly once");
    assert_eq!(
        heap.freed_ptr,
        raw.addr(),
        "the deleter must receive the original erased address (no header, no cast drift)"
    );
}

#[test]
fn cown_from_null_is_none() {
    assert!(CVoidBox::<TestBlobFree>::from_raw(RawPtr::null()).is_none());
}

#[test]
fn cown_into_raw_then_from_raw_round_trips_without_freeing() {
    let mut heap = BlobHeap::new();

    let (own, raw) = make_owned_blob(&mut heap, 7);

    // Surrender to a C `void *` slot: must NOT free.
    let foreign = own.into_raw();
    assert!(foreign == raw, "into_raw yields the same erased address");
    assert_eq!(heap.free_calls, 0, "into_raw must not run the deleter");

    // Reclaim from the slot: the deleter class rides along in the type.
    let own = CVoidBox::<TestBlobFree>::from_raw(foreign).unwrap();
    assert_eq!(heap.free_calls, 0);

    own.drop(&mut heap);
    assert_eq!(heap.free_calls, 1, "exactly one free after the full round-trip");
}

#[test]
fn cown_is_repr_transparent_voidptr() {
    // Same size and alignment as a `void *`, and `Option<CVoidBox<_>>` is the
    // null-niche `void *`.
    assert_eq!(core::mem::size_of::<OwnedBlob>(), core::mem::size_of::<&CVoid>());
    assert_eq!(core::mem::align_of::<OwnedBlob>(), core::mem::align_of::<&CVoid>());
    assert_eq!(core::mem::size_of::<Option<OwnedBlob>>(), core::mem::size_of::<&CVoid>());

    // as_ptr aliases the allocation exactly.
    let mut heap = BlobHeap::new();

    let (own, raw) = make_owned_blob(&mut heap, 1);
    assert!(own.as_ptr() == raw);
    own.drop(&mut heap);
}

// ---------------------------------------------------------------------------
// CVec element kinds: a plain value gets a slice, a wrapped C object handles
// ---------------------------------------------------------------------------

#[derive(Clone, Copy)]
struct ElemSt {
    tag: u32,
}

impl CZeroed for ElemSt {
    fn zeroed() -> Self {
        ElemSt { tag: 0 }
    }
}

type Elem = CType<ElemSt>;

/// The C memory behind a run of elements, reached by handle.
struct ElemMemory {
    region: CRegion<ElemSt>,
}

impl ElemMemory {
    fn tag(&self, e: CRef<'_, Elem>) -> u32 {
        self.region.get(e.as_ptr()).tag
    }

    fn set_tag(&mut self, e: &mut CMut<'_, Elem>, tag: u32) {
        self.region.get_mut(e.as_mut_ptr()).tag = tag;
    }
}

fn make_elems(elems: Vec<ElemSt>) -> (CVec<Elem, RecordingFree>, ElemMemory) {
    let count = elems.len();
    let base: NonNullPtr<ElemSt> = NonNullPtr::new(RawPtr::new(0x2000)).unwrap();
    let memory = ElemMemory { region: CRegion::new(base, elems) };
    (CVec::from_raw_parts(CType::cast_from(base.as_ptr()), count).unwrap(), memory)
}

#[test]
fn cvec_of_plain_values_yields_a_real_slice() {
    let (v, region) = make_cvec(vec![1u32, 2, 3]);
    assert_eq!(v.as_slice(&region), &[1, 2, 3]);
    assert_eq!(v.as_slice(&region).iter().sum::<u32>(), 6);
}

#[test]
fn cvec_of_wrapped_objects_yields_handles() {
    let (v, mut memory) =
        make_elems(vec![ElemSt::zeroed(), ElemSt::zeroed(), ElemSt::zeroed()]);
    let run = v.as_handles();
    assert_eq!(run.len(), 3);
    assert!(!run.is_empty());
    assert!(run.get(3).is_none());

    // Every element reads back through its own handle.
    assert_eq!(memory.tag(run.get(0).unwrap()), 0);
    assert_eq!(run.iter().into_iter().map(|e| memory.tag(e)).sum::<u32>(), 0);

    // Writing goes through the raw pointer the handle projects.
    let second = NonNullPtr::new(run.as_ptr()).unwrap().element(1);
    memory.region.get_mut(second.as_ptr()).tag = 7;
    assert_eq!(run.iter().into_iter().map(|e| memory.tag(e)).sum::<u32>(), 7);
}

#[test]
fn the_exclusive_run_writes_through_per_element_handles() {
    let (mut v, mut memory) =
        make_elems(vec![ElemSt::zeroed(), ElemSt::zeroed(), ElemSt::zeroed()]);
    let mut run = v.as_handles_mut();
    assert_eq!(run.len(), 3);
    assert!(!run.is_empty());
    assert!(run.get_mut(3).is_none());

    memory.set_tag(&mut run.get_mut(1).unwrap(), 7);
    assert_eq!(memory.tag(run.get(1).unwrap()), 7);

    // Every item of `iter_mut` addresses a distinct element.
    for (i, mut e) in run.iter_mut().into_iter().enumerate() {
        memory.set_tag(&mut e, i as u32 + 1);
    }
    assert_eq!(run.as_ref().iter().into_iter().map(|e| memory.tag(e)).sum::<u32>(), 6);
    assert_eq!(run.iter().into_iter().map(|e| memory.tag(e)).sum::<u32>(), 6);
    let first = run.as_ptr();
    assert!(run.as_mut_ptr() == first);
}

#[test]
fn handles_of_a_run_are_one_element_apart() {
    let (mut v, _memory) =
        make_elems(vec![ElemSt::zeroed(), ElemSt::zeroed(), ElemSt::zeroed()]);
    let mut run = v.as_handles_mut();
    let addrs: Vec<usize> =
        run.iter_mut().into_iter().map(|mut e| e.as_mut_ptr().addr()).collect();
    assert_eq!(addrs, vec![0x2000, 0x2004, 0x2008]);
}

#[test]
fn a_scalar_run_is_read_out_without_forming_a_slice() {
    let ptr: NonNullPtr<u32> = NonNullPtr::new(RawPtr::new(0x4000)).unwrap();
    let mut buf = CRegion::new(ptr, vec![1u32, 2, 3]);

    let run: CSlice<'_, u32> = CSlice::from_raw_parts(ptr, 3);
    assert_eq!(run.elem(&buf, 0), Some(1));
    assert_eq!(run.elem(&buf, 3), None);
    assert_eq!(run.elems(&buf).into_iter().sum::<u32>(), 6);
    let mut out = [0u32; 3];
    assert!(run.copy_to_slice(&buf, &mut out));
    assert_eq!(out, [1, 2, 3]);
    assert!(!run.copy_to_slice(&buf, &mut [0u32; 2]));

    let mut w: CSliceMut<'_, u32> = CSliceMut::from_raw_parts(ptr, 3);
    assert!(w.set_elem(&mut buf, 0, 10));
    assert!(!w.set_elem(&mut buf, 3, 10));
    assert_eq!(w.elem(&buf, 0), Some(10));
    assert!(w.copy_from_slice(&mut buf, &[4, 5, 6]));
    assert!(!w.copy_from_slice(&mut buf, &[4, 5]));
    assert_eq!(w.as_ref().elems(&buf), vec![4, 5, 6]);
    assert_eq!(buf.as_slice(), &[4, 5, 6]);
}

#[test]
fn walking_a_run_agrees_with_indexing_it() {
    let (v, _memory) = make_elems(vec![ElemSt::zeroed(), ElemSt::zeroed()]);
    let run = v.as_handles();
    let walked = run.iter();
    assert_eq!(walked.len(), run.len());
    for (i, h) in walked.iter().enumerate() {
        assert!(h.as_ptr() == run.get(i).unwrap().as_ptr());
    }

    let ptr: NonNullPtr<u32> = NonNullPtr::new(RawPtr::new(0x4000)).unwrap();
    let buf = CRegion::new(ptr, vec![5u32, 6, 7]);
    let scalars: CSlice<'_, u32> = CSlice::from_raw_parts(ptr, 3);
    for (i, value) in scalars.elems(&buf).into_iter().enumerate() {
        assert_eq!(scalars.elem(&buf, i), Some(value));
    }
}

// What lies beside a run is out of its reach.
#[test]
fn a_run_leaves_the_rest_of_its_region_alone() {
    let base: NonNullPtr<u32> = NonNullPtr::new(RawPtr::new(0x4000)).unwrap();
    let mut buf = CRegion::new(base, vec![9u32, 1, 2, 9]);
    let mut w: CSliceMut<'_, u32> = CSliceMut::from_raw_parts(buf.ptr_at(1), 2);

    assert!(w.set_elem(&mut buf, 1, 5));
    assert!(!w.set_elem(&mut buf, 2, 7));
    assert_eq!(buf.as_slice(), &[9, 1, 5, 9]);
    assert!(w.copy_from_slice(&mut buf, &[3, 4]));
    assert_eq!(buf.as_slice(), &[9, 3, 4, 9]);
    assert!(!w.copy_from_slice(&mut buf, &[3, 4, 5]));
    assert_eq!(buf.as_slice(), &[9, 3, 4, 9]);

    let mut out = [0u32; 2];
    assert!(w.copy_to_slice(&buf, &mut out));
    assert_eq!(out, [3, 4]);
    let mut short = [7u32; 1];
    assert!(!w.copy_to_slice(&buf, &mut short));
    assert_eq!(short, [7]);
    assert_eq!(w.as_elem_ptr().addr(), 0x4004);
    assert_eq!(w.as_mut_elem_ptr().addr(), 0x4004);
    assert_eq!(w.as_ref().as_elem_ptr().addr(), 0x4004);
    assert_eq!(w.len(), 2);
    assert_eq!(buf.len(), 4);
    assert!(!buf.is_empty());
}

#[test]
fn the_c_object_of_a_wrapper_is_at_its_address() {
    let p: NonNullPtr<Elem> = NonNullPtr::new(RawPtr::new(0x5000)).unwrap();
    assert_eq!(c_object(p).addr(), 0x5000);
}
