use vstd::prelude::*;

use crate::capability::{NativeAccess, NativeDrop};

verus! {

/// Exclusive ownership of one foreign value whose teardown the holder owes.
/// A handle can move but never duplicate, so at most one live handle refers
/// to a given foreign value, and moving it transfers the teardown obligation
/// without running it.
pub struct Handle<N: NativeDrop>(N);

impl<N: NativeDrop> Handle<N> {
    /// Takes ownership of a freshly constructed foreign value; the caller
    /// relinquishes all other access to it.
    pub fn from_native(n: N) -> (h: Handle<N>)
        requires
            !n.torn_down(),
        ensures
            h.native_view() == n,
    {
        Handle(n)
    }

    /// Ends the handle's life: runs teardown exactly once and hands the
    /// torn-down value back for inspection. No other teardown ever runs on
    /// it, however often the handle moved beforehand.
    pub fn discard(self) -> (n: N)
        requires
            !self.native_view().torn_down(),
        ensures
            n.torn_down(),
            n.teardowns() == self.native_view().teardowns() + 1,
    {
        let Handle(mut n) = self;
        n.teardown();
        n
    }
}

impl<N: NativeDrop> NativeAccess<N> for Handle<N> {
    closed spec fn native_view(self) -> N {
        self.0
    }

    fn native(&self) -> (r: &N) {
        &self.0
    }

    fn native_mut(&mut self) -> (r: &mut N) {
        &mut self.0
    }
}

/// Retrieving a possibly-absent borrowed view of the foreign value held by
/// an optional handle; an absent handle yields the absent case, never a
/// made-up value.
pub trait NativePointer<N>: Sized {
    /// Whether there is a value to point at.
    spec fn has_target(self) -> bool;

    /// The value pointed at, when there is one.
    spec fn target(self) -> N;

    fn native_ptr(&self) -> (r: Option<&N>)
        ensures
            r is Some <==> self.has_target(),
            r is Some ==> *(r->0) == self.target(),
    ;
}

impl<N: NativeDrop> NativePointer<N> for Option<Handle<N>> {
    open spec fn has_target(self) -> bool {
        self is Some
    }

    open spec fn target(self) -> N {
        (self->0).native_view()
    }

    fn native_ptr(&self) -> (r: Option<&N>) {
        match self {
            Some(h) => Some(h.native()),
            None => None,
        }
    }
}

} // verus!
