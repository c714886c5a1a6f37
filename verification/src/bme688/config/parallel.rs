//! Configuration of parallel mode.
use vstd::prelude::*;

verus! {

/// Configuration of parallel mode.
pub type Config = super::Config<super::Parallel>;

/// Builder of a parallel mode configuration.
pub type ConfigBuilder = super::ConfigBuilder<super::Parallel>;

/// A single step in the heater profile for parallel mode.
pub struct HeaterStep {
    /// The target temperature for the heater in degrees Celsius.
    pub(crate) target_temp: u16,
    /// The repetition multiplier for the heater step. This determines how many times this step will be repeated during the measurement cycle.
    pub(crate) multiplier: u8,
}

impl View for HeaterStep {
    type V = (u16, u8);

    /// The target temperature and the repetition multiplier.
    closed spec fn view(&self) -> (u16, u8) {
        (self.target_temp, self.multiplier)
    }
}

impl HeaterStep {
    /// Create a new `HeaterStep` with the specified target temperature and repetition multiplier.
    ///
    /// # Arguments
    /// * `target_temp` - The target temperature for the heater in degrees Celsius.
    /// * `multiplier` - The repetition multiplier for the heater step.
    pub fn new(target_temp: u16, multiplier: u8) -> (r: Self)
        ensures
            r@ == (target_temp, multiplier),
    {
        Self { target_temp, multiplier }
    }

    /// The target temperature of this step.
    pub(crate) fn target_temp(&self) -> (r: u16)
        ensures
            r == self@.0,
    {
        self.target_temp
    }

    /// The repetition multiplier of this step.
    pub(crate) fn multiplier(&self) -> (r: u8)
        ensures
            r == self@.1,
    {
        self.multiplier
    }
}

} // verus!
