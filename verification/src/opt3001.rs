//! Driver logic for the TI OPT3001 ambient light sensor.
use vstd::prelude::*;

pub mod math;
pub mod registers;

use registers::{
    ComparisonMode, Config, ConversionMode, FaultCount, HighLimit, InterruptPolarity, LowLimit,
};

verus! {

/// Manufacturer ID reported by the OPT3001 ("TI").
pub const MANUFACTURER_ID: u16 = 0x5449;

/// Device ID reported by the OPT3001.
pub const DEVICE_ID: u16 = 0x3001;

/// I2C slave address of the sensor.
#[derive(Debug, Clone, Copy, PartialEq, Eq, Structural)]
pub enum SlaveAddress {
    /// Primary slave address (0x44)
    Primary,
    /// Secondary slave address (0x45, 0x46, or 0x47)
    Secondary(u8),
}

impl SlaveAddress {
    /// The 7-bit bus address: 0x44 plus the low two bits of a secondary selector.
    pub open spec fn spec_address(self) -> u8 {
        match self {
            SlaveAddress::Primary => 0x44,
            SlaveAddress::Secondary(value) => (0x44 + value % 4) as u8,
        }
    }
}

impl From<SlaveAddress> for u8 {
    fn from(address: SlaveAddress) -> (r: Self) {
        match address {
            SlaveAddress::Primary => 0x44,
            SlaveAddress::Secondary(value) => {
                let r = value & 0b11 | 0x44;
                assert(r == 0x44 + value % 4) by (bit_vector)
                    requires r == value & 0b11u8 | 0x44u8;
                r
            },
        }
    }
}

impl vstd::std_specs::convert::FromSpecImpl<SlaveAddress> for u8 {
    open spec fn obeys_from_spec() -> bool {
        true
    }

    open spec fn from_spec(address: SlaveAddress) -> u8 {
        address.spec_address()
    }
}

impl Default for SlaveAddress {
    fn default() -> (r: Self)
        ensures
            r == SlaveAddress::Primary,
    {
        SlaveAddress::Primary
    }
}

/// Every slave address lies in the range the device can be strapped to, 0x44 to 0x47.
pub proof fn lemma_slave_address_range(address: SlaveAddress)
    ensures
        0x44 <= address.spec_address() <= 0x47,
{
}

/// Status flags of the sensor, read from the configuration register.
#[derive(Debug, Clone, Copy, PartialEq, Eq, Structural)]
pub struct Status {
    /// The current conversion mode of the OPT3001 sensor.
    pub conversion_mode: ConversionMode,
    /// Indicates whether an overflow condition has occurred in the data conversion process.
    pub is_overflow: bool,
    /// Indicates whether a conversion result is ready to be read from the result register.
    pub is_conversion_ready: bool,
    /// Indicates whether the result is above the high limit set in the high limit register.
    pub is_result_high: bool,
    /// Indicates whether the result is below the low limit set in the low limit register.
    pub is_result_low: bool,
}

impl Status {
    /// The status that the configuration register `config` reports.
    pub open spec fn spec_from_config(config: Config) -> Status {
        Status {
            conversion_mode: ConversionMode::spec_from_bits(config.spec_conversion_mode_bits()),
            is_overflow: config.spec_overflow(),
            is_conversion_ready: config.spec_conversion_ready(),
            is_result_high: config.spec_high(),
            is_result_low: config.spec_low(),
        }
    }
}

impl From<Config> for Status {
    fn from(config: Config) -> (r: Self) {
        Status {
            conversion_mode: config.conversion_mode(),
            is_overflow: config.overflow(),
            is_conversion_ready: config.conversion_ready(),
            is_result_high: config.high(),
            is_result_low: config.low(),
        }
    }
}

impl vstd::std_specs::convert::FromSpecImpl<Config> for Status {
    open spec fn obeys_from_spec() -> bool {
        true
    }

    open spec fn from_spec(config: Config) -> Status {
        Status::spec_from_config(config)
    }
}

/// The status read from a configuration register reports its flag bits: overflow is bit 8,
/// conversion ready bit 7, flag high bit 6 and flag low bit 5, and the conversion mode is the
/// field in bits 10..9 (00 shutdown, 01 single shot, 10 and 11 continuous).
pub proof fn lemma_status_reads_flag_bits(config: Config)
    ensures
        Status::spec_from_config(config).is_overflow == (config.0 & 0x0100u16 != 0),
        Status::spec_from_config(config).is_conversion_ready == (config.0 & 0x0080u16 != 0),
        Status::spec_from_config(config).is_result_high == (config.0 & 0x0040u16 != 0),
        Status::spec_from_config(config).is_result_low == (config.0 & 0x0020u16 != 0),
        (config.0 >> 9u16) & 0x3u16 == 0 ==> Status::spec_from_config(config).conversion_mode
            == ConversionMode::Shutdown,
        (config.0 >> 9u16) & 0x3u16 == 1 ==> Status::spec_from_config(config).conversion_mode
            == ConversionMode::SingleShot,
        (config.0 >> 9u16) & 0x3u16 >= 2 ==> Status::spec_from_config(config).conversion_mode
            == ConversionMode::Continuous,
{
    let v = config.0;
    assert((v >> 9u16) & 0x3u16 < 4) by (bit_vector);
}

} // verus!
verus! {

/// The settings held by an [`InterruptConfig`].
#[derive(Debug, Clone, Copy, PartialEq, Eq, Structural)]
pub struct InterruptSettings {
    /// Active state of the INT pin.
    pub polarity: InterruptPolarity,
    /// Comparison mode of the interrupt reporting mechanisms.
    pub comparison_mode: ComparisonMode,
    /// Consecutive faults needed to raise an interrupt.
    pub fault_count: FaultCount,
    /// Low-limit register value.
    pub low_limit: LowLimit,
    /// High-limit register value.
    pub high_limit: HighLimit,
}

/// Configuration for the interrupt reporting mechanisms of the OPT3001 sensor.
#[derive(Debug, Clone, Copy, PartialEq, Eq)]
pub struct InterruptConfig {
    polarity: InterruptPolarity,
    comparison_mode: ComparisonMode,
    fault_count: FaultCount,
    low_limit: LowLimit,
    high_limit: HighLimit,
}

impl View for InterruptConfig {
    type V = InterruptSettings;

    closed spec fn view(&self) -> InterruptSettings {
        InterruptSettings {
            polarity: self.polarity,
            comparison_mode: self.comparison_mode,
            fault_count: self.fault_count,
            low_limit: self.low_limit,
            high_limit: self.high_limit,
        }
    }
}

impl Default for InterruptConfig {
    fn default() -> (r: Self)
        ensures
            r@ == (InterruptSettings {
                polarity: InterruptPolarity::Low,
                comparison_mode: ComparisonMode::TransparentHysteresis,
                fault_count: FaultCount::One,
                low_limit: LowLimit(0),
                high_limit: HighLimit(0xBFFF),
            }),
    {
        InterruptConfig {
            polarity: InterruptPolarity::default(),
            comparison_mode: ComparisonMode::default(),
            fault_count: FaultCount::default(),
            low_limit: LowLimit::default(),
            high_limit: HighLimit::default(),
        }
    }
}

impl InterruptConfig {
    /// Starts building an interrupt configuration from the builder's defaults.
    pub fn builder() -> (r: InterruptConfigBuilder)
        ensures
            r@ == InterruptConfigBuilder::spec_initial(),
    {
        InterruptConfigBuilder::new()
    }

    /// The register values that applying this configuration writes, in the order they are
    /// written: the low limit, the high limit, then `current` with the polarity, comparison
    /// mode and fault count fields replaced and all other bits kept.
    pub fn register_writes(&self, current: Config) -> (r: (LowLimit, HighLimit, Config))
        ensures
            r.0 == self@.low_limit,
            r.1 == self@.high_limit,
            r.2.spec_polarity_bits() == self@.polarity.spec_bits(),
            r.2.spec_comparison_mode_bits() == self@.comparison_mode.spec_bits(),
            r.2.spec_fault_count_bits() == self@.fault_count.spec_bits(),
            r.2.0 & 0xFFE4u16 == current.0 & 0xFFE4u16,
    {
        let mut config = current;
        let ghost v0 = config.0;
        config.set_polarity(self.polarity);
        let ghost v1 = config.0;
        config.set_comparison_mode(self.comparison_mode);
        let ghost v2 = config.0;
        config.set_fault_count(self.fault_count);
        let ghost v3 = config.0;
        assert(v3 & 0xFFE4u16 == v0 & 0xFFE4u16 && (v3 >> 3u16) & 1u16 == (v1 >> 3u16) & 1u16
            && (v3 >> 4u16) & 1u16 == (v2 >> 4u16) & 1u16) by (bit_vector)
            requires
                v1 & 0xFFF7u16 == v0 & 0xFFF7u16,
                v2 & 0xFFEFu16 == v1 & 0xFFEFu16,
                v3 & 0xFFFCu16 == v2 & 0xFFFCu16;
        (self.low_limit, self.high_limit, config)
    }
}

/// Builder pattern for constructing an `InterruptConfig` instance with a fluent interface.
#[derive(Debug, Clone, Copy, PartialEq, Eq)]
pub struct InterruptConfigBuilder {
    config: InterruptConfig,
    end_of_conversion_interrupt: bool,
}

impl View for InterruptConfigBuilder {
    type V = (InterruptSettings, bool);

    /// The settings built so far, and whether the end-of-conversion interrupt is enabled.
    closed spec fn view(&self) -> (InterruptSettings, bool) {
        (self.config@, self.end_of_conversion_interrupt)
    }
}

impl InterruptConfigBuilder {
    /// The state of a fresh builder: active-low polarity, latched window comparison, one fault,
    /// both limits at 0 lux, end-of-conversion interrupt disabled.
    pub open spec fn spec_initial() -> (InterruptSettings, bool) {
        (
            InterruptSettings {
                polarity: InterruptPolarity::Low,
                comparison_mode: ComparisonMode::LatchedWindow,
                fault_count: FaultCount::One,
                low_limit: LowLimit(0),
                high_limit: HighLimit(0),
            },
            false,
        )
    }

    /// Creates a new instance of the `InterruptConfigBuilder`.
    ///
    /// This method initializes the builder with default values for the interrupt configuration.
    /// The default values are:
    /// - Polarity: Active low
    /// - Comparison mode: Latched window
    /// - Fault count: 1 consecutive fault
    /// - Low limit: 0 lux
    /// - High limit: 0 lux
    /// - End-of-conversion interrupt: Disabled
    pub fn new() -> (r: Self)
        ensures
            r@ == Self::spec_initial(),
    {
        InterruptConfigBuilder {
            config: InterruptConfig {
                polarity: InterruptPolarity::Low,
                comparison_mode: ComparisonMode::LatchedWindow,
                fault_count: FaultCount::One,
                low_limit: LowLimit(0),
                high_limit: HighLimit(0),
            },
            end_of_conversion_interrupt: false,
        }
    }

    /// Sets the polarity of the interrupt pin (INT).
    pub fn polarity(self, polarity: InterruptPolarity) -> (r: Self)
        ensures
            r@ == (InterruptSettings { polarity, ..self@.0 }, self@.1),
    {
        let mut builder = self;
        builder.config.polarity = polarity;
        builder
    }

    /// Sets the comparison mode for the interrupt reporting mechanisms.
    pub fn comparison_mode(self, mode: ComparisonMode) -> (r: Self)
        ensures
            r@ == (InterruptSettings { comparison_mode: mode, ..self@.0 }, self@.1),
    {
        let mut builder = self;
        builder.config.comparison_mode = mode;
        builder
    }

    /// Sets the number of consecutive fault events necessary to trigger an interrupt.
    pub fn fault_count(self, count: FaultCount) -> (r: Self)
        ensures
            r@ == (InterruptSettings { fault_count: count, ..self@.0 }, self@.1),
    {
        let mut builder = self;
        builder.config.fault_count = count;
        builder
    }

    /// Sets the low limit threshold from its exponent and mantissa; only the low four bits of
    /// the exponent and the low twelve bits of the mantissa are kept.
    pub fn low_limit(self, exponent: u8, fractional_result: u16) -> (r: Self)
        ensures
            r@.0.low_limit.spec_exponent() == exponent % 16,
            r@.0.low_limit.spec_result() == fractional_result % 0x1000,
            r@ == (InterruptSettings { low_limit: r@.0.low_limit, ..self@.0 }, self@.1),
    {
        let mut builder = self;
        builder.config.low_limit.set_exponent(exponent);
        builder.config.low_limit.set_result(fractional_result);
        builder
    }

    /// Sets the high limit threshold from its exponent and mantissa; only the low four bits of
    /// the exponent and the low twelve bits of the mantissa are kept.
    pub fn high_limit(self, exponent: u8, fractional_result: u16) -> (r: Self)
        ensures
            r@.0.high_limit.spec_exponent() == exponent % 16,
            r@.0.high_limit.spec_result() == fractional_result % 0x1000,
            r@ == (InterruptSettings { high_limit: r@.0.high_limit, ..self@.0 }, self@.1),
    {
        let mut builder = self;
        builder.config.high_limit.set_exponent(exponent);
        builder.config.high_limit.set_result(fractional_result);
        builder
    }

    /// Enables or disables the end-of-conversion interrupt.
    pub fn end_of_conversion_interrupt(self, enable: bool) -> (r: Self)
        ensures
            r@ == (self@.0, enable),
    {
        let mut builder = self;
        builder.end_of_conversion_interrupt = enable;
        builder
    }

    /// Finalizes the construction of the `InterruptConfig` instance. With the end-of-conversion
    /// interrupt enabled, the two most significant exponent bits of the low limit are set (LE[3:2]
    /// = 11b); nothing else changes.
    pub fn build(self) -> (r: InterruptConfig)
        ensures
            !self@.1 ==> r@ == self@.0,
            self@.1 ==> r@.low_limit.spec_exponent() == (self@.0.low_limit.spec_exponent() | 0b1100u8),
            self@.1 ==> r@.low_limit.spec_result() == self@.0.low_limit.spec_result(),
            self@.1 ==> r@ == (InterruptSettings { low_limit: r@.low_limit, ..self@.0 }),
    {
        let mut builder = self;
        if builder.end_of_conversion_interrupt {
            let e = builder.config.low_limit.exponent();
            assert((e | 0b1100u8) % 16 == e | 0b1100u8) by (bit_vector)
                requires e < 16;
            builder.config.low_limit.set_exponent(e | 0b1100);
        }
        builder.config
    }
}

impl Default for InterruptConfigBuilder {
    fn default() -> (r: Self)
        ensures
            r@ == Self::spec_initial(),
    {
        InterruptConfigBuilder::new()
    }
}

} // verus!
