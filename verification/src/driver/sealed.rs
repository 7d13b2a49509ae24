//! A trait that keeps others from being implemented elsewhere.

use vstd::prelude::*;

verus! {

/// Implemented by what can be given as parameters.
pub trait Sealed {

}

} // verus!
