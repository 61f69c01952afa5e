//! Laws of the conversion, proved over every value of each type.
use vstd::prelude::*;

use crate::Eh;

verus! {

/// A `bool` converts to itself.
pub proof fn lemma_bool_is_itself(b: bool)
    ensures
        b.truthy() == b,
{
}

/// Converting the result of a conversion changes nothing.
pub proof fn lemma_eh_is_stable<V: Eh>(v: V)
    ensures
        v.truthy().truthy() == v.truthy(),
{
}

/// A wrapping integer is true exactly when the integer it wraps is.
pub proof fn lemma_wrapping_follows_inner<T: Eh>(w: core::num::Wrapping<T>)
    ensures
        w.truthy() == w.0.truthy(),
{
}

/// `Some` is true whatever it holds, even a false value; `None` is false.
pub proof fn lemma_option_is_presence<T>(x: T)
    ensures
        Some(x).truthy(),
        !None::<T>.truthy(),
{
}

/// `Ok` is true and `Err` is false, whatever either holds.
pub proof fn lemma_result_is_success<T, E>(x: T, e: E)
    ensures
        Ok::<T, E>(x).truthy(),
        !Err::<T, E>(e).truthy(),
{
}

} // verus!
