use vstd::prelude::*;

use crate::capability::{InternalClone, NativeDrop, NativeRepresentation, RefCount, RefCounted};
use crate::pointer::ForeignPtr;

verus! {

/// An instrumented owned value: a counting teardown double that records how
/// often teardown ran on it.
#[derive(Debug, PartialEq, Eq, Structural)]
pub struct DropDouble {
    pub teardown_calls: u32,
}

impl DropDouble {
    /// A fresh value that teardown has never run on.
    pub fn fresh() -> (d: DropDouble)
        ensures
            !d.torn_down(),
            d.teardowns() == 0,
    {
        DropDouble { teardown_calls: 0 }
    }

    /// Reads the instrumentation counter.
    pub fn calls(&self) -> (c: u32)
        ensures
            c as nat == self.teardowns(),
    {
        self.teardown_calls
    }
}

impl NativeDrop for DropDouble {
    open spec fn torn_down(self) -> bool {
        self.teardown_calls >= 1
    }

    open spec fn teardowns(self) -> nat {
        self.teardown_calls as nat
    }

    fn teardown(&mut self) {
        self.teardown_calls = self.teardown_calls + 1;
    }
}

/// An intrusively counted shared value with a payload. Its counter is a
/// 32-bit integer, as the foreign counters physically are.
#[derive(Debug, PartialEq, Eq, Structural)]
pub struct SharedDouble {
    pub count: i32,
    pub payload: u32,
}

impl SharedDouble {
    /// A freshly created object, already carrying the one reference its
    /// creator holds.
    pub fn fresh(payload: u32) -> (s: SharedDouble)
        ensures
            s.rc() == 1,
            s.payload == payload,
    {
        SharedDouble { count: 1, payload }
    }
}

impl RefCounted for SharedDouble {
    open spec fn rc(self) -> int {
        self.count as int
    }

    fn retain(&mut self) {
        self.count = self.count + 1;
    }

    fn release(&mut self) -> (last: bool) {
        self.count = self.count - 1;
        self.count == 0
    }
}

impl RefCount for SharedDouble {
    fn ref_cnt(&self) -> (r: i32) {
        self.count
    }
}

/// A plain two-field value as the library presents it, for exercising the
/// conversion capability.
#[derive(Clone, Copy, Debug, PartialEq, Eq, Structural)]
pub struct ValueDouble {
    pub first: u32,
    pub second: u32,
}

/// The same value in the foreign library's layout.
#[derive(Clone, Copy, Debug, PartialEq, Eq, Structural)]
pub struct ValueLayout {
    pub lo: u32,
    pub hi: u32,
}

impl NativeRepresentation<ValueLayout> for ValueDouble {
    open spec fn to_native_spec(self) -> ValueLayout {
        ValueLayout { lo: self.first, hi: self.second }
    }

    open spec fn from_native_spec(n: ValueLayout) -> ValueDouble {
        ValueDouble { first: n.lo, second: n.hi }
    }

    proof fn round_trip(x: ValueDouble) {
    }

    fn to_native(self) -> (n: ValueLayout) {
        ValueLayout { lo: self.first, hi: self.second }
    }

    fn from_native(n: ValueLayout) -> (r: ValueDouble) {
        ValueDouble { first: n.lo, second: n.hi }
    }
}

impl InternalClone for ForeignPtr {
    fn clone(&self) -> (r: ForeignPtr) {
        ForeignPtr { addr: self.addr }
    }
}

impl InternalClone for ValueDouble {
    fn clone(&self) -> (r: ValueDouble) {
        ValueDouble { first: self.first, second: self.second }
    }
}

} // verus!
