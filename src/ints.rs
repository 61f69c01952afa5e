//! Integers of every width: zero is `false`, everything else `true`.
use vstd::prelude::*;

use crate::Eh;

verus! {

impl Eh for i8 {
    open spec fn truthy(&self) -> bool {
        *self != 0
    }

    fn eh(&self) -> (r: bool)
        ensures
            r == (*self != 0),
    {
        *self != 0
    }
}

impl Eh for i16 {
    open spec fn truthy(&self) -> bool {
        *self != 0
    }

    fn eh(&self) -> (r: bool)
        ensures
            r == (*self != 0),
    {
        *self != 0
    }
}

impl Eh for i32 {
    open spec fn truthy(&self) -> bool {
        *self != 0
    }

    fn eh(&self) -> (r: bool)
        ensures
            r == (*self != 0),
    {
        *self != 0
    }
}

impl Eh for i64 {
    open spec fn truthy(&self) -> bool {
        *self != 0
    }

    fn eh(&self) -> (r: bool)
        ensures
            r == (*self != 0),
    {
        *self != 0
    }
}

impl Eh for i128 {
    open spec fn truthy(&self) -> bool {
        *self != 0
    }

    fn eh(&self) -> (r: bool)
        ensures
            r == (*self != 0),
    {
        *self != 0
    }
}

impl Eh for isize {
    open spec fn truthy(&self) -> bool {
        *self != 0
    }

    fn eh(&self) -> (r: bool)
        ensures
            r == (*self != 0),
    {
        *self != 0
    }
}

impl Eh for u8 {
    open spec fn truthy(&self) -> bool {
        *self != 0
    }

    fn eh(&self) -> (r: bool)
        ensures
            r == (*self != 0),
    {
        *self != 0
    }
}

impl Eh for u16 {
    open spec fn truthy(&self) -> bool {
        *self != 0
    }

    fn eh(&self) -> (r: bool)
        ensures
            r == (*self != 0),
    {
        *self != 0
    }
}

impl Eh for u32 {
    open spec fn truthy(&self) -> bool {
        *self != 0
    }

    fn eh(&self) -> (r: bool)
        ensures
            r == (*self != 0),
    {
        *self != 0
    }
}

impl Eh for u64 {
    open spec fn truthy(&self) -> bool {
        *self != 0
    }

    fn eh(&self) -> (r: bool)
        ensures
            r == (*self != 0),
    {
        *self != 0
    }
}

impl Eh for u128 {
    open spec fn truthy(&self) -> bool {
        *self != 0
    }

    fn eh(&self) -> (r: bool)
        ensures
            r == (*self != 0),
    {
        *self != 0
    }
}

impl Eh for usize {
    open spec fn truthy(&self) -> bool {
        *self != 0
    }

    fn eh(&self) -> (r: bool)
        ensures
            r == (*self != 0),
    {
        *self != 0
    }
}

} // verus!
