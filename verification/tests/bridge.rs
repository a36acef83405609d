use native_handles::capability::{InternalClone, NativeAccess, NativeRepresentation};
use native_handles::doubles::{DropDouble, SharedDouble, ValueDouble, ValueLayout};
use native_handles::handle::{Handle, NativePointer};
use native_handles::heap::ForeignHeap;
use native_handles::laws::{duplicate_discard_round, teardown_once_through_moves};
use native_handles::pointer::{ForeignPtr, ToOption};
use native_handles::rc_handle::{RCHandle, ToSharedPointer};

#[test]
fn fresh_allocation_counts_one() {
    let mut lib: ForeignHeap<SharedDouble> = ForeignHeap::new();
    let p = lib.allocate(SharedDouble::fresh(11));
    assert!(!p.is_null());
    assert_eq!(lib.ref_cnt(p), 1);
}

#[test]
fn duplicate_increments_whatever_the_count_was() {
    let mut lib: ForeignHeap<SharedDouble> = ForeignHeap::new();
    let p = lib.allocate(SharedDouble::fresh(0));
    let h = RCHandle::<SharedDouble>::from_ptr(p).unwrap();
    let d1 = h.duplicate(&mut lib);
    assert_eq!(lib.ref_cnt(p), 2);
    let d2 = h.duplicate(&mut lib);
    assert_eq!(lib.ref_cnt(p), 3);
    d1.discard(&mut lib);
    d2.discard(&mut lib);
    h.discard(&mut lib);
}

#[test]
fn balanced_duplicates_and_discards_restore_the_count() {
    let mut lib: ForeignHeap<SharedDouble> = ForeignHeap::new();
    let p = lib.allocate(SharedDouble::fresh(1));
    let h = RCHandle::<SharedDouble>::from_ptr(p).unwrap();
    // An interleaved balanced sequence: duplicate, duplicate, discard,
    // duplicate, discard, discard.
    let a = h.duplicate(&mut lib);
    let b = h.duplicate(&mut lib);
    a.discard(&mut lib);
    let c = h.duplicate(&mut lib);
    b.discard(&mut lib);
    c.discard(&mut lib);
    assert_eq!(lib.ref_cnt(p), 1);
    // The same through the verified round helper, many times over.
    duplicate_discard_round(&mut lib, &h, 100);
    assert_eq!(lib.ref_cnt(p), 1);
    h.discard(&mut lib);
}

#[test]
fn last_discard_deallocates() {
    let mut lib: ForeignHeap<SharedDouble> = ForeignHeap::new();
    let p = lib.allocate(SharedDouble::fresh(9));
    let h = RCHandle::<SharedDouble>::from_ptr(p).unwrap();
    assert!(lib.is_live(p));
    h.discard(&mut lib);
    assert!(!lib.is_live(p));
}

#[test]
fn teardown_runs_exactly_once_through_moves() {
    let d = DropDouble::fresh();
    let handle = Handle::from_native(d);
    let first_binding = handle;
    let second_binding = first_binding;
    let carcass = second_binding.discard();
    assert_eq!(carcass.calls(), 1);
}

#[test]
fn teardown_once_law_agrees() {
    let carcass = teardown_once_through_moves(DropDouble::fresh());
    assert_eq!(carcass.calls(), 1);
}

#[test]
fn null_pointer_yields_absent_handle() {
    let r = RCHandle::<SharedDouble>::from_ptr(ForeignPtr::null());
    assert!(r.is_none());
    // No retain or release ran: an unrelated live object's count is intact.
    let mut lib: ForeignHeap<SharedDouble> = ForeignHeap::new();
    let p = lib.allocate(SharedDouble::fresh(2));
    let r2 = RCHandle::<SharedDouble>::from_ptr(ForeignPtr::null());
    assert!(r2.is_none());
    assert_eq!(lib.ref_cnt(p), 1);
}

#[test]
fn full_shared_lifetime_scenario() {
    let mut lib: ForeignHeap<SharedDouble> = ForeignHeap::new();
    let p = lib.allocate(SharedDouble::fresh(42));
    let original = RCHandle::<SharedDouble>::from_ptr(p).unwrap();
    assert_eq!(lib.ref_cnt(p), 1);
    let dup_a = original.duplicate(&mut lib);
    let dup_b = original.duplicate(&mut lib);
    assert_eq!(lib.ref_cnt(p), 3);
    dup_a.discard(&mut lib);
    dup_b.discard(&mut lib);
    assert_eq!(lib.ref_cnt(p), 1);
    original.discard(&mut lib);
    assert!(!lib.is_live(p));
}

#[test]
fn to_option_separates_null_from_objects() {
    assert_eq!(ForeignPtr::null().to_option(), None);
    let p = ForeignPtr { addr: 5 };
    assert_eq!(p.to_option(), Some(p));
}

#[test]
fn native_access_reads_and_writes_owned_value() {
    let mut h = Handle::from_native(DropDouble::fresh());
    assert_eq!(h.native().teardown_calls, 0);
    h.native_mut().teardown_calls = 0;
    let carcass = h.discard();
    assert_eq!(carcass.calls(), 1);
}

#[test]
fn native_ptr_of_optional_handle() {
    let some: Option<Handle<DropDouble>> = Some(Handle::from_native(DropDouble::fresh()));
    match some.native_ptr() {
        Some(d) => assert_eq!(d.teardown_calls, 0),
        None => panic!("a held value must be reachable"),
    }
    let none: Option<Handle<DropDouble>> = None;
    assert!(none.native_ptr().is_none());
    if let Some(h) = some {
        h.discard();
    }
}

#[test]
fn shared_ptr_retains_and_null_for_absent() {
    let mut lib: ForeignHeap<SharedDouble> = ForeignHeap::new();
    let p = lib.allocate(SharedDouble::fresh(8));
    let h = RCHandle::<SharedDouble>::from_ptr(p).unwrap();
    let held = Some(h);
    let q = held.shared_ptr(&mut lib);
    assert_eq!(q, p);
    assert_eq!(lib.ref_cnt(p), 2);
    let absent: Option<RCHandle<SharedDouble>> = None;
    let z = absent.shared_ptr(&mut lib);
    assert!(z.is_null());
    assert_eq!(lib.ref_cnt(p), 2);
    // The borrowed form retains just the same.
    let borrowed = held.as_ref();
    let q2 = borrowed.shared_ptr(&mut lib);
    assert_eq!(q2, p);
    assert_eq!(lib.ref_cnt(p), 3);
}

#[test]
fn shared_native_retains_and_projects() {
    let mut lib: ForeignHeap<SharedDouble> = ForeignHeap::new();
    let p = lib.allocate(SharedDouble::fresh(21));
    let h = RCHandle::<SharedDouble>::from_ptr(p).unwrap();
    {
        let shared = h.shared_native(&mut lib);
        assert_eq!(shared.count, 2);
        assert_eq!(shared.payload, 21);
    }
    assert_eq!(lib.ref_cnt(p), 2);
}

#[test]
fn rc_native_access_reads_and_writes() {
    let mut lib: ForeignHeap<SharedDouble> = ForeignHeap::new();
    let p = lib.allocate(SharedDouble::fresh(5));
    let h = RCHandle::<SharedDouble>::from_ptr(p).unwrap();
    assert_eq!(h.native(&lib).payload, 5);
    h.native_mut(&mut lib).payload = 6;
    assert_eq!(h.native(&lib).payload, 6);
    assert_eq!(lib.ref_cnt(p), 1);
    assert_eq!(h.address(), p);
    h.discard(&mut lib);
}

#[test]
fn conversion_round_trips() {
    let v = ValueDouble { first: 3, second: 4 };
    let native: ValueLayout = v.to_native();
    assert_eq!(native, ValueLayout { lo: 3, hi: 4 });
    let back = ValueDouble::from_native(native);
    assert_eq!(back, v);
}

#[test]
fn internal_clone_copies_the_value() {
    let p = ForeignPtr { addr: 77 };
    let q = InternalClone::clone(&p);
    assert_eq!(q, p);
    let v = ValueDouble { first: 1, second: 2 };
    let w = InternalClone::clone(&v);
    assert_eq!(w, v);
}
