//! Seals the set of configuration modes.
use vstd::prelude::*;

verus! {

/// Implemented only by the configuration mode markers of this crate.
pub trait Sealed {}

impl Sealed for super::Forced {}

impl Sealed for super::Parallel {}

impl Sealed for super::Sequential {}

} // verus!
