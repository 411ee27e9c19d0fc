use vstd::prelude::*;

verus! {

/// Implemented only by the marker types of this crate.
pub trait Sealed {}

} // verus!
