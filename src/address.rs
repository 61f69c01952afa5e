//! An address that may be null and is never dereferenced.
use vstd::prelude::*;

use crate::Eh;

verus! {

/// The address held by a raw pointer, as a plain number. Nothing here reads
/// what it points to, so a dangling address is as good as a valid one.
#[derive(Clone, Copy, Debug, PartialEq, Eq, Structural)]
pub struct Address {
    pub addr: usize,
}

impl Address {
    /// The null address.
    pub fn null() -> (r: Address)
        ensures
            r.addr == 0,
    {
        Address { addr: 0 }
    }

    /// The address `addr`.
    pub fn new(addr: usize) -> (r: Address)
        ensures
            r.addr == addr,
    {
        Address { addr }
    }

    pub open spec fn spec_is_null(&self) -> bool {
        self.addr == 0
    }

    /// Whether this is the null address.
    #[verifier::when_used_as_spec(spec_is_null)]
    pub fn is_null(&self) -> (r: bool)
        ensures
            r == self.spec_is_null(),
    {
        self.addr == 0
    }
}

/// An address is true unless it is null.
impl Eh for Address {
    open spec fn truthy(&self) -> bool {
        !self.spec_is_null()
    }

    fn eh(&self) -> (r: bool)
        ensures
            r == (self.addr != 0),
    {
        !self.is_null()
    }
}

} // verus!
