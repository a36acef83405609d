use vstd::prelude::*;

verus! {

/// A raw address into the foreign library's memory. Address zero is the null
/// pointer and stands for "no object"; every allocation has a nonzero
/// address.
#[derive(Clone, Copy, Debug, PartialEq, Eq, Structural)]
pub struct ForeignPtr {
    pub addr: usize,
}

impl ForeignPtr {
    /// True of the null pointer and of nothing else.
    pub open spec fn spec_is_null(self) -> bool {
        self.addr == 0
    }

    /// The null pointer.
    pub fn null() -> (p: ForeignPtr)
        ensures
            p.spec_is_null(),
    {
        ForeignPtr { addr: 0 }
    }

    /// Whether this is the null pointer.
    #[verifier::when_used_as_spec(spec_is_null)]
    pub fn is_null(self) -> (r: bool)
        ensures
            r == self.spec_is_null(),
    {
        self.addr == 0
    }
}

/// Turning a possibly-null value into an explicit optional one, so that "no
/// object" can never be confused with an object.
pub trait ToOption: Sized {
    type Target;

    /// Whether a value is actually present.
    spec fn present(self) -> bool;

    /// The value carried when one is present.
    spec fn value(self) -> Self::Target;

    fn to_option(self) -> (r: Option<Self::Target>)
        ensures
            r is Some <==> self.present(),
            r is Some ==> r->0 == self.value(),
    ;
}

impl ToOption for ForeignPtr {
    type Target = ForeignPtr;

    open spec fn present(self) -> bool {
        !self.spec_is_null()
    }

    open spec fn value(self) -> ForeignPtr {
        self
    }

    fn to_option(self) -> (r: Option<ForeignPtr>) {
        if self.is_null() {
            None
        } else {
            Some(self)
        }
    }
}

} // verus!
