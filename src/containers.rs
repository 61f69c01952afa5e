//! Wrapping integers, `Option` and `Result`.
use vstd::prelude::*;

use crate::Eh;

verus! {

/// Declares std's `core::num::Wrapping`, whose one public field is the wrapped
/// value, so that the impl below can read that field.
#[verifier::external_type_specification]
#[verifier::reject_recursive_types(T)]
pub struct ExWrapping<T>(core::num::Wrapping<T>);

/// A wrapping integer is as true as the integer it wraps.
impl<T: Eh> Eh for core::num::Wrapping<T> {
    open spec fn truthy(&self) -> bool {
        self.0.truthy()
    }

    fn eh(&self) -> (r: bool)
        ensures
            r == self.0.truthy(),
    {
        self.0.eh()
    }
}

/// `Some` is true whatever it holds; `None` is false.
impl<T> Eh for Option<T> {
    open spec fn truthy(&self) -> bool {
        self is Some
    }

    fn eh(&self) -> (r: bool)
        ensures
            r == (self is Some),
    {
        match self {
            Some(_) => true,
            None => false,
        }
    }
}

/// `Ok` is true whatever it holds; `Err` is false whatever it holds.
impl<T, E> Eh for Result<T, E> {
    open spec fn truthy(&self) -> bool {
        self is Ok
    }

    fn eh(&self) -> (r: bool)
        ensures
            r == (self is Ok),
    {
        match self {
            Ok(_) => true,
            Err(_) => false,
        }
    }
}

} // verus!
