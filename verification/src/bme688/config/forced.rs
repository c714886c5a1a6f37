//! Configuration of forced mode.
use vstd::prelude::*;

verus! {

/// Configuration of forced mode.
pub type Config = super::Config<super::Forced>;

/// Builder of a forced mode configuration.
pub type ConfigBuilder = super::ConfigBuilder<super::Forced>;

} // verus!
