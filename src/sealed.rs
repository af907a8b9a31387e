//! Marker that keeps the set of ceiling families closed to this crate.
use vstd::prelude::*;

verus! {

pub trait Sealed {}

} // verus!
