//! Errors reported by the BME688 driver.
use vstd::prelude::*;

verus! {

/// Errors reported by the BME688 driver; `E` is the error type of the I2C bus.
#[derive(Debug, Clone, Copy, PartialEq, Eq)]
pub enum Error<E> {
    /// I2C communication error
    I2c(E),
    /// The chip ID register did not hold the BME688 chip ID
    UnexpectedChipId(u8),
    /// The variant ID register did not hold the BME688 variant ID
    UnexpectedVariantId(u8),
    /// The sensor did not enter sleep mode in time
    SleepModeTimeout,
}

impl<E> From<E> for Error<E> {
    fn from(error: E) -> (r: Self) {
        Error::I2c(error)
    }
}

impl<E> vstd::std_specs::convert::FromSpecImpl<E> for Error<E> {
    open spec fn obeys_from_spec() -> bool {
        true
    }

    open spec fn from_spec(error: E) -> Error<E> {
        Error::I2c(error)
    }
}

} // verus!
