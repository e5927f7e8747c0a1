//! Marker traits that keep the crate's integer abstraction closed.

use vstd::prelude::*;

verus! {

/// A trait that marks a type as performing integer-style division with its
/// division and remainder operations.
pub trait IntegerDivision {
}

} // verus!
