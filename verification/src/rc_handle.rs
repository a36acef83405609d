use vstd::prelude::*;
use core::marker::PhantomData;

use crate::capability::RefCounted;
use crate::heap::ForeignHeap;
use crate::pointer::ForeignPtr;

verus! {

/// Shared ownership of a foreign, intrusively counted object: one logical
/// reference out of however many the foreign counter records. Duplication
/// retains, discard releases, and the foreign counter stays the sole source
/// of truth for how many holders there are.
pub struct RCHandle<N: RefCounted> {
    raw: ForeignPtr,
    marker: PhantomData<N>,
}

impl<N: RefCounted> RCHandle<N> {
    /// The address of the shared object.
    pub closed spec fn ptr(self) -> ForeignPtr {
        self.raw
    }

    /// Wraps a pointer that already carries one logical reference, such as
    /// one returned by a foreign create call. A null pointer yields the
    /// absent value, and neither retain nor release runs on any object.
    pub fn from_ptr(ptr: ForeignPtr) -> (r: Option<RCHandle<N>>)
        ensures
            r is Some <==> !ptr.spec_is_null(),
            r is Some ==> (r->0).ptr() == ptr,
    {
        if !ptr.is_null() {
            Some(RCHandle { raw: ptr, marker: PhantomData })
        } else {
            None
        }
    }

    /// The raw address back out of the handle, count untouched.
    pub fn address(&self) -> (p: ForeignPtr)
        ensures
            p == self.ptr(),
    {
        self.raw
    }

    /// Retains the shared object on behalf of a further holder and hands out
    /// mutable access to it: for handing the object to a foreign call that
    /// keeps a reference of its own. Leaving the counter intact through the
    /// returned access is the caller's obligation.
    pub fn shared_native<'a>(&self, lib: &'a mut ForeignHeap<N>) -> (r: &'a mut N)
        requires
            old(lib).wf(),
            old(lib).live(self.ptr()),
            old(lib).count_of(self.ptr()) < i32::MAX as int,
        ensures
            (*r).rc() == old(lib).count_of(self.ptr()) + 1,
            final(lib).slot_seq().len() == old(lib).slot_seq().len(),
            final(lib).slot_seq()[self.ptr().addr - 1] == Some(*final(r)),
            forall|i: int|
                0 <= i < old(lib).slot_seq().len() && i != self.ptr().addr - 1
                    ==> final(lib).slot_seq()[i] == #[trigger] old(lib).slot_seq()[i],
    {
        lib.retain(self.raw);
        lib.get_mut(self.raw)
    }

    /// The duplication operation: retains and returns a second handle to the
    /// same object. Everything but that object's count stays as it was.
    pub fn duplicate(&self, lib: &mut ForeignHeap<N>) -> (r: RCHandle<N>)
        requires
            old(lib).wf(),
            old(lib).live(self.ptr()),
            old(lib).count_of(self.ptr()) < i32::MAX as int,
        ensures
            final(lib).wf(),
            r.ptr() == self.ptr(),
            final(lib).live(self.ptr()),
            final(lib).count_of(self.ptr()) == old(lib).count_of(self.ptr()) + 1,
            final(lib).slot_seq().len() == old(lib).slot_seq().len(),
            forall|i: int|
                0 <= i < old(lib).slot_seq().len() && i != self.ptr().addr - 1
                    ==> final(lib).slot_seq()[i] == #[trigger] old(lib).slot_seq()[i],
    {
        lib.retain(self.raw);
        RCHandle { raw: self.raw, marker: PhantomData }
    }

    /// The discard operation: releases this handle's one reference. The
    /// foreign library deallocates the object when the count reaches zero,
    /// and no operation of this crate touches the object afterwards.
    pub fn discard(self, lib: &mut ForeignHeap<N>)
        requires
            old(lib).wf(),
            old(lib).live(self.ptr()),
        ensures
            final(lib).wf(),
            final(lib).slot_seq().len() == old(lib).slot_seq().len(),
            final(lib).in_bounds(self.ptr()),
            old(lib).count_of(self.ptr()) > 1 ==> final(lib).live(self.ptr())
                && final(lib).count_of(self.ptr()) == old(lib).count_of(self.ptr()) - 1,
            old(lib).count_of(self.ptr()) == 1 ==> !final(lib).live(self.ptr()),
            forall|i: int|
                0 <= i < old(lib).slot_seq().len() && i != self.ptr().addr - 1
                    ==> final(lib).slot_seq()[i] == #[trigger] old(lib).slot_seq()[i],
    {
        lib.release(self.raw);
    }

    /// Borrowed read of the shared object, count untouched.
    pub fn native<'a>(&self, lib: &'a ForeignHeap<N>) -> (r: &'a N)
        requires
            lib.live(self.ptr()),
        ensures
            *r == lib.value_at(self.ptr()),
    {
        lib.get(self.raw)
    }

    /// Mutable access to the shared object, count untouched by the bridge.
    /// That the foreign object tolerates mutation through a shared handle is
    /// the foreign library's own documented contract, and keeping the
    /// counter intact is the caller's obligation.
    pub fn native_mut<'a>(&self, lib: &'a mut ForeignHeap<N>) -> (r: &'a mut N)
        requires
            old(lib).live(self.ptr()),
        ensures
            *r == old(lib).value_at(self.ptr()),
            final(lib).slot_seq() == old(lib).slot_seq().update(
                self.ptr().addr - 1,
                Some(*final(r)),
            ),
    {
        lib.get_mut(self.raw)
    }
}

/// Extracting a raw address from an optional shared handle while retaining:
/// for foreign calls that take a possibly-null pointer and keep a reference
/// of their own. An absent handle yields the null pointer, and no retain
/// runs for it.
pub trait ToSharedPointer<N: RefCounted>: Sized {
    /// Whether there is an object to point at.
    spec fn has_target(self) -> bool;

    /// The address of that object, when there is one.
    spec fn target_ptr(self) -> ForeignPtr;

    fn shared_ptr(&self, lib: &mut ForeignHeap<N>) -> (p: ForeignPtr)
        requires
            old(lib).wf(),
            self.has_target() ==> old(lib).live(self.target_ptr()),
            self.has_target() ==> old(lib).count_of(self.target_ptr()) < i32::MAX as int,
        ensures
            final(lib).wf(),
            self.has_target() ==> {
                &&& p == self.target_ptr()
                &&& final(lib).live(p)
                &&& final(lib).count_of(p) == old(lib).count_of(p) + 1
                &&& final(lib).slot_seq().len() == old(lib).slot_seq().len()
                &&& forall|i: int|
                    0 <= i < old(lib).slot_seq().len() && i != p.addr - 1
                        ==> final(lib).slot_seq()[i] == #[trigger] old(lib).slot_seq()[i]
            },
            !self.has_target() ==> p.spec_is_null() && *final(lib) == *old(lib),
    ;
}

impl<N: RefCounted> ToSharedPointer<N> for Option<RCHandle<N>> {
    open spec fn has_target(self) -> bool {
        self is Some
    }

    open spec fn target_ptr(self) -> ForeignPtr {
        (self->0).ptr()
    }

    fn shared_ptr(&self, lib: &mut ForeignHeap<N>) -> (p: ForeignPtr) {
        match self {
            Some(h) => {
                lib.retain(h.raw);
                h.raw
            },
            None => ForeignPtr::null(),
        }
    }
}

impl<'h, N: RefCounted> ToSharedPointer<N> for Option<&'h RCHandle<N>> {
    open spec fn has_target(self) -> bool {
        self is Some
    }

    open spec fn target_ptr(self) -> ForeignPtr {
        (self->0).ptr()
    }

    fn shared_ptr(&self, lib: &mut ForeignHeap<N>) -> (p: ForeignPtr) {
        match self {
            Some(h) => {
                lib.retain(h.raw);
                h.raw
            },
            None => ForeignPtr::null(),
        }
    }
}

} // verus!
