//! Convert values to `bool`, kind of like C, eh?
//!
//! [`Eh`] follows the implicit conversions of C to `_Bool` and of C++ to
//! `bool`, made explicit: integer `0` and null addresses are `false`, every
//! other value is `true`. `Option` and `Result` are `true` exactly when the `?`
//! operator would unwrap a value from them.
use vstd::prelude::*;

pub mod address;
pub mod containers;
pub mod ints;
pub mod laws;

pub use address::Address;

verus! {

/// Converts a value to `bool`, kind of like C, eh?
pub trait Eh {
    /// Whether the value counts as true.
    spec fn truthy(&self) -> bool;

    fn eh(&self) -> (r: bool)
        ensures
            r == self.truthy(),
    ;
}

impl Eh for bool {
    open spec fn truthy(&self) -> bool {
        *self
    }

    fn eh(&self) -> (r: bool)
        ensures
            r == *self,
    {
        *self
    }
}

} // verus!
