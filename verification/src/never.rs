//! An error type with no values, for conversions that cannot fail.

use vstd::prelude::*;
use core::convert::Infallible;

verus! {

/// The error of a conversion that cannot fail.
///
/// Its only variant carries a value of a type that has none, so no value of `Never` exists.
#[derive(Debug)]
pub enum Never {
    Impossible(Infallible),
}

impl Never {
    /// Hands out the value of the empty type that this error would have to carry.
    pub fn witness(self) -> (w: Infallible)
        ensures
            self == Never::Impossible(w),
    {
        match self {
            Never::Impossible(w) => w,
        }
    }
}

} // verus!
