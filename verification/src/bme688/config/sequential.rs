//! Configuration of sequential mode.
use vstd::prelude::*;

verus! {

/// Configuration of sequential mode.
pub type Config = super::Config<super::Sequential>;

/// Builder of a sequential mode configuration.
pub type ConfigBuilder = super::ConfigBuilder<super::Sequential>;

/// A single step in the heater profile for sequential mode.
pub struct HeaterStep {
    /// The target temperature for the heater in degrees Celsius.
    pub(crate) target_temp: u16,
    /// The duration for which the heater should be active in milliseconds.
    pub(crate) duration_ms: u16,
}

impl View for HeaterStep {
    type V = (u16, u16);

    /// The target temperature and the duration in milliseconds.
    closed spec fn view(&self) -> (u16, u16) {
        (self.target_temp, self.duration_ms)
    }
}

impl HeaterStep {
    /// Create a new `HeaterStep` with the specified target temperature and duration.
    ///
    /// # Arguments
    /// * `target_temp` - The target temperature for the heater in degrees Celsius.
    /// * `duration_ms` - The duration for which the heater should be active in milliseconds.
    pub fn new(target_temp: u16, duration_ms: u16) -> (r: Self)
        ensures
            r@ == (target_temp, duration_ms),
    {
        Self { target_temp, duration_ms }
    }

    /// The target temperature of this step.
    pub(crate) fn target_temp(&self) -> (r: u16)
        ensures
            r == self@.0,
    {
        self.target_temp
    }

    /// The duration of this step.
    pub(crate) fn duration_ms(&self) -> (r: u16)
        ensures
            r == self@.1,
    {
        self.duration_ms
    }
}

} // verus!
