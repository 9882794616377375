//! Marker trait that keeps `Conditioned` implemented by this crate's setup types only.
use vstd::prelude::*;

verus! {

/// Implemented by the setup types that may carry `on`/`when` conditions.
pub trait Sealed {}

} // verus!
