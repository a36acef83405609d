use vstd::prelude::*;

verus! {

/// The capability an owned foreign value must offer: one explicit teardown
/// call, owed exactly once, only when no further access to the value will
/// occur, and never on a value already torn down.
pub trait NativeDrop: Sized {
    /// Whether teardown has already run on this value.
    spec fn torn_down(self) -> bool;

    /// How many times teardown has run on this value.
    spec fn teardowns(self) -> nat;

    /// The teardown call itself.
    fn teardown(&mut self)
        requires
            !old(self).torn_down(),
        ensures
            final(self).torn_down(),
            final(self).teardowns() == old(self).teardowns() + 1,
    ;
}

/// The capability a shared foreign value must offer: an intrusive reference
/// counter, incremented by `retain` and decremented by `release`. The foreign
/// counters are physically 32-bit integers, so a count never exceeds
/// `i32::MAX`.
pub trait RefCounted: Sized {
    /// The current value of the intrusive counter.
    spec fn rc(self) -> int;

    /// Increments the counter by one on behalf of a new holder. Only a
    /// holder of a live reference may retain, so the count is at least one.
    fn retain(&mut self)
        requires
            1 <= old(self).rc() < i32::MAX as int,
        ensures
            final(self).rc() == old(self).rc() + 1,
    ;

    /// Decrements the counter by one and reports whether it reached zero, in
    /// which case the object must be deallocated at once and never touched
    /// again.
    fn release(&mut self) -> (last: bool)
        requires
            1 <= old(self).rc(),
        ensures
            final(self).rc() == old(self).rc() - 1,
            last <==> final(self).rc() == 0,
    ;
}

/// Diagnostic read of the intrusive counter without touching it. Meant for
/// test assertions only; production decisions never depend on it.
pub trait RefCount: RefCounted {
    fn ref_cnt(&self) -> (r: i32)
        ensures
            r as int == self.rc(),
    ;
}

/// Uniform borrowed access to the foreign value behind a wrapper.
pub trait NativeAccess<N>: Sized {
    /// The foreign value currently held.
    spec fn native_view(self) -> N;

    /// Read access, scoped to the borrow.
    fn native(&self) -> (r: &N)
        ensures
            *r == self.native_view(),
    ;

    /// Write access, scoped to the borrow.
    fn native_mut(&mut self) -> (r: &mut N)
        ensures
            *r == old(self).native_view(),
            final(self).native_view() == *final(r),
    ;
}

/// A plain value that converts to and from its foreign layout by copy, with
/// no ownership implications. Converting to the foreign layout and back must
/// give back the value that was started from.
pub trait NativeRepresentation<Native>: Sized {
    /// The foreign layout of this value.
    spec fn to_native_spec(self) -> Native;

    /// The value a foreign layout stands for.
    spec fn from_native_spec(n: Native) -> Self;

    /// The round trip through the foreign layout loses nothing.
    proof fn round_trip(x: Self)
        ensures
            Self::from_native_spec(x.to_native_spec()) == x,
    ;

    fn to_native(self) -> (n: Native)
        ensures
            n == self.to_native_spec(),
    ;

    fn from_native(n: Native) -> (r: Self)
        ensures
            r == Self::from_native_spec(n),
    ;
}

/// Duplication for plain foreign value types that cannot carry the standard
/// clone. A duplicate is equal to the value it was made from.
pub trait InternalClone: Sized {
    fn clone(&self) -> (r: Self)
        ensures
            r == *self,
    ;
}

} // verus!
