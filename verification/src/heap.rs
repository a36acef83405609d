use vstd::prelude::*;
use vstd::pervasive::unreached;

use crate::capability::{RefCount, RefCounted};
use crate::pointer::ForeignPtr;

verus! {

/// A model of the foreign library's side of the bridge: the allocations that
/// intrusively counted objects live in. The object at address `a` lives in
/// slot `a - 1`; a freed slot holds nothing, and its address is dangling.
/// The counter is the object's own: the heap only deallocates when a release
/// reports that the count reached zero.
pub struct ForeignHeap<N: RefCounted> {
    slots: Vec<Option<N>>,
}

impl<N: RefCounted> ForeignHeap<N> {
    /// The allocations, by address minus one; freed ones hold nothing.
    pub closed spec fn slot_seq(self) -> Seq<Option<N>> {
        self.slots@
    }

    /// Whether the address was ever handed out by this heap.
    pub open spec fn in_bounds(self, p: ForeignPtr) -> bool {
        1 <= p.addr <= self.slot_seq().len()
    }

    /// Whether the object at this address is still allocated.
    pub open spec fn live(self, p: ForeignPtr) -> bool {
        self.in_bounds(p) && self.slot_seq()[p.addr - 1] is Some
    }

    /// The object at this address.
    pub open spec fn value_at(self, p: ForeignPtr) -> N {
        self.slot_seq()[p.addr - 1]->0
    }

    /// The intrusive reference count of the object at this address.
    pub open spec fn count_of(self, p: ForeignPtr) -> int {
        self.value_at(p).rc()
    }

    /// Every live object's count is at least one: an object whose count
    /// reaches zero is deallocated at once, so it is never seen live.
    pub open spec fn wf(self) -> bool {
        forall|i: int|
            0 <= i < self.slot_seq().len() && #[trigger] self.slot_seq()[i] is Some
                ==> (self.slot_seq()[i]->0).rc() >= 1
    }

    /// A foreign library with no allocations yet.
    pub fn new() -> (h: ForeignHeap<N>)
        ensures
            h.wf(),
            h.slot_seq().len() == 0,
    {
        ForeignHeap { slots: Vec::new() }
    }

    /// The foreign allocator: places a freshly constructed object, which
    /// carries its first reference already, and hands out its address.
    pub fn allocate(&mut self, n: N) -> (p: ForeignPtr)
        requires
            old(self).wf(),
            n.rc() == 1,
        ensures
            final(self).wf(),
            final(self).slot_seq() == old(self).slot_seq().push(Some(n)),
            !p.spec_is_null(),
            !old(self).in_bounds(p),
            final(self).live(p),
            final(self).value_at(p) == n,
            final(self).count_of(p) == 1,
            p.addr - 1 == old(self).slot_seq().len(),
    {
        self.slots.push(Some(n));
        ForeignPtr { addr: self.slots.len() }
    }

    /// The foreign retain call: increments the intrusive counter of the
    /// object at this address. Everything else stays as it was.
    pub fn retain(&mut self, p: ForeignPtr)
        requires
            old(self).wf(),
            old(self).live(p),
            old(self).count_of(p) < i32::MAX as int,
        ensures
            final(self).wf(),
            final(self).slot_seq().len() == old(self).slot_seq().len(),
            final(self).live(p),
            final(self).count_of(p) == old(self).count_of(p) + 1,
            forall|i: int|
                0 <= i < old(self).slot_seq().len() && i != p.addr - 1
                    ==> final(self).slot_seq()[i] == #[trigger] old(self).slot_seq()[i],
    {
        let idx = p.addr - 1;
        let slot = &mut self.slots[idx];
        match slot {
            Some(n) => n.retain(),
            None => {
                proof {
                    assert(false);
                }
            },
        }
    }

    /// The foreign release call: decrements the counter of the object at
    /// this address and deallocates the object when the count reaches zero.
    /// Everything else stays as it was.
    pub fn release(&mut self, p: ForeignPtr)
        requires
            old(self).wf(),
            old(self).live(p),
        ensures
            final(self).wf(),
            final(self).slot_seq().len() == old(self).slot_seq().len(),
            final(self).in_bounds(p),
            old(self).count_of(p) > 1 ==> final(self).live(p) && final(self).count_of(p)
                == old(self).count_of(p) - 1,
            old(self).count_of(p) == 1 ==> !final(self).live(p),
            forall|i: int|
                0 <= i < old(self).slot_seq().len() && i != p.addr - 1
                    ==> final(self).slot_seq()[i] == #[trigger] old(self).slot_seq()[i],
    {
        let idx = p.addr - 1;
        let last = {
            let slot = &mut self.slots[idx];
            match slot {
                Some(n) => n.release(),
                None => unreached(),
            }
        };
        if last {
            let slot = &mut self.slots[idx];
            *slot = None;
        }
    }

    /// Whether the object at this address is still allocated.
    pub fn is_live(&self, p: ForeignPtr) -> (r: bool)
        ensures
            r == self.live(p),
    {
        if 1 <= p.addr && p.addr <= self.slots.len() {
            match &self.slots[p.addr - 1] {
                Some(_) => true,
                None => false,
            }
        } else {
            false
        }
    }

    /// Borrowed read access to the object at this address.
    pub fn get(&self, p: ForeignPtr) -> (r: &N)
        requires
            self.live(p),
        ensures
            *r == self.value_at(p),
    {
        match &self.slots[p.addr - 1] {
            Some(n) => n,
            None => unreached(),
        }
    }

    /// Mutable access to the object at this address; the heap itself leaves
    /// the counter alone, and what the caller writes back is the caller's
    /// obligation.
    pub fn get_mut(&mut self, p: ForeignPtr) -> (r: &mut N)
        requires
            old(self).live(p),
        ensures
            *r == old(self).value_at(p),
            final(self).slot_seq() == old(self).slot_seq().update(
                p.addr - 1,
                Some(*final(r)),
            ),
    {
        let idx = p.addr - 1;
        match &mut self.slots[idx] {
            Some(n) => n,
            None => unreached(),
        }
    }
}

impl<N: RefCount> ForeignHeap<N> {
    /// The diagnostic inspector: reads the intrusive counter of the object
    /// at this address without touching it. For test assertions only.
    pub fn ref_cnt(&self, p: ForeignPtr) -> (r: i32)
        requires
            self.live(p),
        ensures
            r as int == self.count_of(p),
    {
        match &self.slots[p.addr - 1] {
            Some(n) => n.ref_cnt(),
            None => unreached(),
        }
    }
}

} // verus!
