use vstd::prelude::*;

use crate::capability::{NativeDrop, RefCounted};
use crate::handle::Handle;
use crate::heap::ForeignHeap;
use crate::rc_handle::RCHandle;

verus! {

/// One step a holder of a shared handle can take.
pub enum RcOp {
    /// Duplicating the handle, which retains the object.
    Duplicate,
    /// Discarding one handle, which releases the object.
    Discard,
}

/// What one step does to the foreign reference count: a duplicate retains
/// (adds one), a discard releases (takes one), exactly as the ensures of
/// `RCHandle::duplicate` and `RCHandle::discard` state.
pub open spec fn op_delta(op: RcOp) -> int {
    match op {
        RcOp::Duplicate => 1,
        RcOp::Discard => -1,
    }
}

/// The foreign reference count after a sequence of duplicate and discard
/// steps, starting from count `c0`.
pub open spec fn count_after(c0: int, ops: Seq<RcOp>) -> int
    decreases ops.len(),
{
    if ops.len() == 0 {
        c0
    } else {
        count_after(c0 + op_delta(ops[0]), ops.skip(1))
    }
}

/// How many of the steps duplicate.
pub open spec fn duplicates(ops: Seq<RcOp>) -> int
    decreases ops.len(),
{
    if ops.len() == 0 {
        0
    } else {
        (if ops[0] is Duplicate {
            1int
        } else {
            0int
        }) + duplicates(ops.skip(1))
    }
}

/// How many of the steps discard.
pub open spec fn discards(ops: Seq<RcOp>) -> int
    decreases ops.len(),
{
    if ops.len() == 0 {
        0
    } else {
        (if ops[0] is Discard {
            1int
        } else {
            0int
        }) + discards(ops.skip(1))
    }
}

proof fn lemma_count_after_split(c0: int, ops: Seq<RcOp>)
    ensures
        count_after(c0, ops) == c0 + duplicates(ops) - discards(ops),
    decreases ops.len(),
{
    if ops.len() > 0 {
        lemma_count_after_split(c0 + op_delta(ops[0]), ops.skip(1));
    }
}

/// Whatever their order, a sequence of duplicate and discard steps with as
/// many duplicates as discards leaves the foreign reference count exactly
/// where it started.
pub proof fn balanced_ops_restore_count(c0: int, ops: Seq<RcOp>)
    requires
        duplicates(ops) == discards(ops),
    ensures
        count_after(c0, ops) == c0,
{
    lemma_count_after_split(c0, ops);
}

/// Teardown runs exactly once across an owned handle's whole lifetime,
/// however often the handle moves between its construction and its discard.
pub fn teardown_once_through_moves<N: NativeDrop>(n: N) -> (r: N)
    requires
        !n.torn_down(),
    ensures
        r.torn_down(),
        r.teardowns() == n.teardowns() + 1,
{
    let handle = Handle::from_native(n);
    let moved_once = handle;
    let moved_twice = moved_once;
    moved_twice.discard()
}

/// A run of duplicates followed by as many discards of the duplicates ends
/// with the foreign reference count exactly where it started, and the
/// object still live for the remaining holder.
pub fn duplicate_discard_round<N: RefCounted>(
    lib: &mut ForeignHeap<N>,
    handle: &RCHandle<N>,
    rounds: usize,
)
    requires
        old(lib).wf(),
        old(lib).live(handle.ptr()),
        old(lib).count_of(handle.ptr()) + rounds <= i32::MAX as int,
    ensures
        final(lib).wf(),
        final(lib).live(handle.ptr()),
        final(lib).count_of(handle.ptr()) == old(lib).count_of(handle.ptr()),
{
    let ghost c0 = old(lib).count_of(handle.ptr());
    proof {
        assert(old(lib).slot_seq()[handle.ptr().addr - 1] is Some);
        assert(c0 >= 1);
    }
    let mut dups: Vec<RCHandle<N>> = Vec::new();
    let mut i: usize = 0;
    while i < rounds
        invariant
            lib.wf(),
            lib.live(handle.ptr()),
            i <= rounds,
            dups.len() == i,
            1 <= c0,
            c0 + rounds <= i32::MAX as int,
            lib.count_of(handle.ptr()) == c0 + i,
            forall|j: int| 0 <= j < dups.len() ==> (#[trigger] dups@[j]).ptr() == handle.ptr(),
        decreases rounds - i,
    {
        let d = handle.duplicate(lib);
        dups.push(d);
        i = i + 1;
    }
    while dups.len() > 0
        invariant
            lib.wf(),
            lib.live(handle.ptr()),
            1 <= c0,
            lib.count_of(handle.ptr()) == c0 + dups.len(),
            forall|j: int| 0 <= j < dups.len() ==> (#[trigger] dups@[j]).ptr() == handle.ptr(),
        decreases dups.len(),
    {
        let d = dups.pop().unwrap();
        d.discard(lib);
    }
}

} // verus!
