//! Seals the set of driver states.
use vstd::prelude::*;

verus! {

/// Implemented only by the driver state markers of this crate.
pub trait Sealed {}

impl Sealed for super::Uninit {}

impl Sealed for super::Init {}

} // verus!
