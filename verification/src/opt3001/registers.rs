//! Register map and bit-level encodings of the OPT3001.
use vstd::prelude::*;

verus! {

/// Result register address.
pub const REG_RESULT: u8 = 0x00;
/// Configuration register address.
pub const REG_CONFIG: u8 = 0x01;
/// Low-limit register address.
pub const REG_LOW_LIMIT: u8 = 0x02;
/// High-limit register address.
pub const REG_HIGH_LIMIT: u8 = 0x03;
/// Manufacturer ID register address.
pub const REG_MANUFACTURER_ID: u8 = 0x7E;
/// Device ID register address.
pub const REG_DEVICE_ID: u8 = 0x7F;

/// Lux range
#[derive(Debug, Clone, Copy, PartialEq, Eq, Structural)]
pub enum LuxRange {
    /// Custom full-scale setting mode
    Manual(u8),
    /// Automatic full-scale setting mode
    Automatic,
}

impl LuxRange {
    /// The 4-bit range number that encodes this range.
    pub open spec fn spec_bits(self) -> u8 {
        match self {
            LuxRange::Manual(value) => (value % 16) as u8,
            LuxRange::Automatic => 12,
        }
    }

    /// The range decoded from the low 4 bits of `value`.
    pub open spec fn spec_from_bits(value: u8) -> LuxRange {
        if value % 16 == 12 {
            LuxRange::Automatic
        } else {
            LuxRange::Manual((value % 16) as u8)
        }
    }
}

impl Default for LuxRange {
    fn default() -> (r: Self)
        ensures
            r == LuxRange::Automatic,
    {
        LuxRange::Automatic
    }
}

impl From<LuxRange> for u8 {
    fn from(range: LuxRange) -> (r: Self) {
        match range {
            LuxRange::Manual(value) => {
                value % 16
            },
            LuxRange::Automatic => 0b1100,
        }
    }
}

impl vstd::std_specs::convert::FromSpecImpl<LuxRange> for u8 {
    open spec fn obeys_from_spec() -> bool {
        true
    }

    open spec fn from_spec(range: LuxRange) -> u8 {
        range.spec_bits()
    }
}

impl From<u8> for LuxRange {
    fn from(value: u8) -> (r: Self) {
        let bits = value % 16;
        if bits == 0b1100 {
            LuxRange::Automatic
        } else {
            LuxRange::Manual(bits)
        }
    }
}

impl vstd::std_specs::convert::FromSpecImpl<u8> for LuxRange {
    open spec fn obeys_from_spec() -> bool {
        true
    }

    open spec fn from_spec(value: u8) -> LuxRange {
        LuxRange::spec_from_bits(value)
    }
}

} // verus!

verus! {

/// Conversion time
#[derive(Debug, Clone, Copy, PartialEq, Eq, Structural)]
pub enum ConversionTime {
    /// 100 ms conversion time
    Ms100,
    /// 800 ms conversion time
    Ms800,
}

impl ConversionTime {
    /// The 1-bit field value that encodes this conversion time.
    pub open spec fn spec_bits(self) -> u8 {
        match self {
            ConversionTime::Ms100 => 0,
            ConversionTime::Ms800 => 1,
        }
    }

    /// The conversion time decoded from the low bit of `value`.
    pub open spec fn spec_from_bits(value: u8) -> ConversionTime {
        if value % 2 == 0 {
            ConversionTime::Ms100
        } else {
            ConversionTime::Ms800
        }
    }
}

impl Default for ConversionTime {
    fn default() -> (r: Self)
        ensures
            r == ConversionTime::Ms800,
    {
        ConversionTime::Ms800
    }
}

impl From<ConversionTime> for u8 {
    fn from(ct: ConversionTime) -> (r: Self) {
        match ct {
            ConversionTime::Ms100 => 0b0,
            ConversionTime::Ms800 => 0b1,
        }
    }
}

impl vstd::std_specs::convert::FromSpecImpl<ConversionTime> for u8 {
    open spec fn obeys_from_spec() -> bool {
        true
    }

    open spec fn from_spec(ct: ConversionTime) -> u8 {
        ct.spec_bits()
    }
}

impl From<u8> for ConversionTime {
    fn from(value: u8) -> (r: Self) {
        let bit = value % 2;
        if bit == 0b0 {
            ConversionTime::Ms100
        } else {
            ConversionTime::Ms800
        }
    }
}

impl vstd::std_specs::convert::FromSpecImpl<u8> for ConversionTime {
    open spec fn obeys_from_spec() -> bool {
        true
    }

    open spec fn from_spec(value: u8) -> ConversionTime {
        ConversionTime::spec_from_bits(value)
    }
}

/// Mode of conversion operation
///
/// Determines whether the device is operating in continuous conversion, single-shot, or shutdown (low-power) mode.
#[derive(Debug, Clone, Copy, PartialEq, Eq, Structural)]
pub enum ConversionMode {
    /// Shutdown mode
    Shutdown,
    /// Single-shot conversion mode
    SingleShot,
    /// Continuous conversion mode
    Continuous,
}

impl ConversionMode {
    /// The 2-bit field value that encodes this mode.
    pub open spec fn spec_bits(self) -> u8 {
        match self {
            ConversionMode::Shutdown => 0,
            ConversionMode::SingleShot => 1,
            ConversionMode::Continuous => 2,
        }
    }

    /// The mode decoded from the low 2 bits of `value`; both 10b and 11b mean continuous.
    pub open spec fn spec_from_bits(value: u8) -> ConversionMode {
        if value % 4 == 0 {
            ConversionMode::Shutdown
        } else if value % 4 == 1 {
            ConversionMode::SingleShot
        } else {
            ConversionMode::Continuous
        }
    }
}

impl From<ConversionMode> for u8 {
    fn from(mode: ConversionMode) -> (r: Self) {
        match mode {
            ConversionMode::Shutdown => 0b00,
            ConversionMode::SingleShot => 0b01,
            ConversionMode::Continuous => 0b10,
        }
    }
}

impl vstd::std_specs::convert::FromSpecImpl<ConversionMode> for u8 {
    open spec fn obeys_from_spec() -> bool {
        true
    }

    open spec fn from_spec(mode: ConversionMode) -> u8 {
        mode.spec_bits()
    }
}

impl From<u8> for ConversionMode {
    fn from(value: u8) -> (r: Self) {
        let bits = value % 4;
        if bits == 0b00 {
            ConversionMode::Shutdown
        } else if bits == 0b01 {
            ConversionMode::SingleShot
        } else {
            ConversionMode::Continuous
        }
    }
}

impl vstd::std_specs::convert::FromSpecImpl<u8> for ConversionMode {
    open spec fn obeys_from_spec() -> bool {
        true
    }

    open spec fn from_spec(value: u8) -> ConversionMode {
        ConversionMode::spec_from_bits(value)
    }
}

/// Fault count
///
/// Number of consecutive fault events necessary to trigger interrupt.
#[derive(Debug, Clone, Copy, PartialEq, Eq, Structural)]
pub enum FaultCount {
    /// 1 consecutive fault
    One,
    /// 2 consecutive faults
    Two,
    /// 4 consecutive faults
    Four,
    /// 8 consecutive faults
    Eight,
}

impl FaultCount {
    /// The 2-bit field value that encodes this fault count.
    pub open spec fn spec_bits(self) -> u8 {
        match self {
            FaultCount::One => 0,
            FaultCount::Two => 1,
            FaultCount::Four => 2,
            FaultCount::Eight => 3,
        }
    }

    /// The fault count decoded from the low 2 bits of `value`.
    pub open spec fn spec_from_bits(value: u8) -> FaultCount {
        if value % 4 == 0 {
            FaultCount::One
        } else if value % 4 == 1 {
            FaultCount::Two
        } else if value % 4 == 2 {
            FaultCount::Four
        } else {
            FaultCount::Eight
        }
    }
}

impl Default for FaultCount {
    fn default() -> (r: Self)
        ensures
            r == FaultCount::One,
    {
        FaultCount::One
    }
}

impl From<FaultCount> for u8 {
    fn from(fault_count: FaultCount) -> (r: Self) {
        match fault_count {
            FaultCount::One => 0b00,
            FaultCount::Two => 0b01,
            FaultCount::Four => 0b10,
            FaultCount::Eight => 0b11,
        }
    }
}

impl vstd::std_specs::convert::FromSpecImpl<FaultCount> for u8 {
    open spec fn obeys_from_spec() -> bool {
        true
    }

    open spec fn from_spec(fault_count: FaultCount) -> u8 {
        fault_count.spec_bits()
    }
}

impl From<u8> for FaultCount {
    fn from(value: u8) -> (r: Self) {
        let bits = value % 4;
        if bits == 0b00 {
            FaultCount::One
        } else if bits == 0b01 {
            FaultCount::Two
        } else if bits == 0b10 {
            FaultCount::Four
        } else {
            FaultCount::Eight
        }
    }
}

impl vstd::std_specs::convert::FromSpecImpl<u8> for FaultCount {
    open spec fn obeys_from_spec() -> bool {
        true
    }

    open spec fn from_spec(value: u8) -> FaultCount {
        FaultCount::spec_from_bits(value)
    }
}

/// Interrupt pin polarity (active state)
#[derive(Debug, Clone, Copy, PartialEq, Eq, Structural)]
pub enum InterruptPolarity {
    /// Active low interrupt polarity
    Low,
    /// Active high interrupt polarity
    High,
}

impl InterruptPolarity {
    /// The 1-bit field value that encodes this polarity.
    pub open spec fn spec_bits(self) -> u8 {
        match self {
            InterruptPolarity::Low => 0,
            InterruptPolarity::High => 1,
        }
    }

    /// The polarity decoded from the low bit of `value`.
    pub open spec fn spec_from_bits(value: u8) -> InterruptPolarity {
        if value % 2 == 0 {
            InterruptPolarity::Low
        } else {
            InterruptPolarity::High
        }
    }
}

impl Default for InterruptPolarity {
    fn default() -> (r: Self)
        ensures
            r == InterruptPolarity::Low,
    {
        InterruptPolarity::Low
    }
}

impl From<InterruptPolarity> for u8 {
    fn from(polarity: InterruptPolarity) -> (r: Self) {
        match polarity {
            InterruptPolarity::Low => 0b0,
            InterruptPolarity::High => 0b1,
        }
    }
}

impl vstd::std_specs::convert::FromSpecImpl<InterruptPolarity> for u8 {
    open spec fn obeys_from_spec() -> bool {
        true
    }

    open spec fn from_spec(polarity: InterruptPolarity) -> u8 {
        polarity.spec_bits()
    }
}

impl From<u8> for InterruptPolarity {
    fn from(value: u8) -> (r: Self) {
        let bit = value % 2;
        if bit == 0b0 {
            InterruptPolarity::Low
        } else {
            InterruptPolarity::High
        }
    }
}

impl vstd::std_specs::convert::FromSpecImpl<u8> for InterruptPolarity {
    open spec fn obeys_from_spec() -> bool {
        true
    }

    open spec fn from_spec(value: u8) -> InterruptPolarity {
        InterruptPolarity::spec_from_bits(value)
    }
}

/// Comparison mode for interrupt reporting mechanisms
#[derive(Debug, Clone, Copy, PartialEq, Eq, Structural)]
pub enum ComparisonMode {
    /// Transparent hysteresis comparison mode
    TransparentHysteresis,
    /// Latched window comparison mode
    LatchedWindow,
}

impl ComparisonMode {
    /// The 1-bit field value that encodes this comparison mode.
    pub open spec fn spec_bits(self) -> u8 {
        match self {
            ComparisonMode::TransparentHysteresis => 0,
            ComparisonMode::LatchedWindow => 1,
        }
    }

    /// The comparison mode decoded from the low bit of `value`.
    pub open spec fn spec_from_bits(value: u8) -> ComparisonMode {
        if value % 2 == 0 {
            ComparisonMode::TransparentHysteresis
        } else {
            ComparisonMode::LatchedWindow
        }
    }
}

impl Default for ComparisonMode {
    fn default() -> (r: Self)
        ensures
            r == ComparisonMode::TransparentHysteresis,
    {
        ComparisonMode::TransparentHysteresis
    }
}

impl From<ComparisonMode> for u8 {
    fn from(mode: ComparisonMode) -> (r: Self) {
        match mode {
            ComparisonMode::TransparentHysteresis => 0b0,
            ComparisonMode::LatchedWindow => 0b1,
        }
    }
}

impl vstd::std_specs::convert::FromSpecImpl<ComparisonMode> for u8 {
    open spec fn obeys_from_spec() -> bool {
        true
    }

    open spec fn from_spec(mode: ComparisonMode) -> u8 {
        mode.spec_bits()
    }
}

impl From<u8> for ComparisonMode {
    fn from(value: u8) -> (r: Self) {
        let bit = value % 2;
        if bit == 0b0 {
            ComparisonMode::TransparentHysteresis
        } else {
            ComparisonMode::LatchedWindow
        }
    }
}

impl vstd::std_specs::convert::FromSpecImpl<u8> for ComparisonMode {
    open spec fn obeys_from_spec() -> bool {
        true
    }

    open spec fn from_spec(value: u8) -> ComparisonMode {
        ComparisonMode::spec_from_bits(value)
    }
}

} // verus!

verus! {

/// The bit manipulations of the configuration register's setters: each stores its field and
/// keeps every other bit.
proof fn lemma_config_fields(v: u16, b: u8)
    ensures
        ((((v & 0x0FFFu16) | (((b as u16) & 0xFu16) << 12u16)) >> 12u16) & 0xFu16) as u8 == b % 16,
        ((v & 0x0FFFu16) | (((b as u16) & 0xFu16) << 12u16)) & 0x0FFFu16 == v & 0x0FFFu16,
        ((((v & 0xF7FFu16) | (((b as u16) & 0x1u16) << 11u16)) >> 11u16) & 0x1u16) as u8 == b % 2,
        ((v & 0xF7FFu16) | (((b as u16) & 0x1u16) << 11u16)) & 0xF7FFu16 == v & 0xF7FFu16,
        ((((v & 0xF9FFu16) | (((b as u16) & 0x3u16) << 9u16)) >> 9u16) & 0x3u16) as u8 == b % 4,
        ((v & 0xF9FFu16) | (((b as u16) & 0x3u16) << 9u16)) & 0xF9FFu16 == v & 0xF9FFu16,
        ((((v & 0xFFEFu16) | (((b as u16) & 0x1u16) << 4u16)) >> 4u16) & 0x1u16) as u8 == b % 2,
        ((v & 0xFFEFu16) | (((b as u16) & 0x1u16) << 4u16)) & 0xFFEFu16 == v & 0xFFEFu16,
        ((((v & 0xFFF7u16) | (((b as u16) & 0x1u16) << 3u16)) >> 3u16) & 0x1u16) as u8 == b % 2,
        ((v & 0xFFF7u16) | (((b as u16) & 0x1u16) << 3u16)) & 0xFFF7u16 == v & 0xFFF7u16,
        (v | 0x0004u16) & 0x0004u16 != 0,
        (v | 0x0004u16) & 0xFFFBu16 == v & 0xFFFBu16,
        (v & 0xFFFBu16) & 0x0004u16 == 0,
        (v & 0xFFFBu16) & 0xFFFBu16 == v & 0xFFFBu16,
        (((v & 0xFFFCu16) | ((b as u16) & 0x3u16)) & 0x3u16) as u8 == b % 4,
        ((v & 0xFFFCu16) | ((b as u16) & 0x3u16)) & 0xFFFCu16 == v & 0xFFFCu16,
{
    assert((((((v & 0x0FFFu16) | (((b as u16) & 0xFu16) << 12u16)) >> 12u16) & 0xFu16) as u8 == b % 16)
        && (((v & 0x0FFFu16) | (((b as u16) & 0xFu16) << 12u16)) & 0x0FFFu16 == v & 0x0FFFu16)
        && (((((v & 0xF7FFu16) | (((b as u16) & 0x1u16) << 11u16)) >> 11u16) & 0x1u16) as u8 == b % 2)
        && (((v & 0xF7FFu16) | (((b as u16) & 0x1u16) << 11u16)) & 0xF7FFu16 == v & 0xF7FFu16)
        && (((((v & 0xF9FFu16) | (((b as u16) & 0x3u16) << 9u16)) >> 9u16) & 0x3u16) as u8 == b % 4)
        && (((v & 0xF9FFu16) | (((b as u16) & 0x3u16) << 9u16)) & 0xF9FFu16 == v & 0xF9FFu16)
        && (((((v & 0xFFEFu16) | (((b as u16) & 0x1u16) << 4u16)) >> 4u16) & 0x1u16) as u8 == b % 2)
        && (((v & 0xFFEFu16) | (((b as u16) & 0x1u16) << 4u16)) & 0xFFEFu16 == v & 0xFFEFu16)
        && (((((v & 0xFFF7u16) | (((b as u16) & 0x1u16) << 3u16)) >> 3u16) & 0x1u16) as u8 == b % 2)
        && (((v & 0xFFF7u16) | (((b as u16) & 0x1u16) << 3u16)) & 0xFFF7u16 == v & 0xFFF7u16)
        && ((v | 0x0004u16) & 0x0004u16 != 0)
        && ((v | 0x0004u16) & 0xFFFBu16 == v & 0xFFFBu16)
        && ((v & 0xFFFBu16) & 0x0004u16 == 0)
        && ((v & 0xFFFBu16) & 0xFFFBu16 == v & 0xFFFBu16)
        && ((((v & 0xFFFCu16) | ((b as u16) & 0x3u16)) & 0x3u16) as u8 == b % 4)
        && (((v & 0xFFFCu16) | ((b as u16) & 0x3u16)) & 0xFFFCu16 == v & 0xFFFCu16)) by (bit_vector);
}

/// The bit manipulations of the result and limit registers: the exponent and mantissa fields
/// are in range, and each setter stores its field and keeps the other.
proof fn lemma_limit_fields(v: u16, e: u8, m: u16)
    ensures
        (v >> 12u16) & 0xFu16 < 16,
        v & 0x0FFFu16 <= 0x0FFF,
        ((((v & 0x0FFFu16) | (((e as u16) & 0xFu16) << 12u16)) >> 12u16) & 0xFu16) as u8 == e % 16,
        ((v & 0x0FFFu16) | (((e as u16) & 0xFu16) << 12u16)) & 0x0FFFu16 == v & 0x0FFFu16,
        ((v & 0xF000u16) | (m & 0x0FFFu16)) & 0x0FFFu16 == m % 0x1000,
        (((v & 0xF000u16) | (m & 0x0FFFu16)) >> 12u16) & 0xFu16 == (v >> 12u16) & 0xFu16,
{
    assert(((v >> 12u16) & 0xFu16 < 16)
        && (v & 0x0FFFu16 <= 0x0FFF)
        && (((((v & 0x0FFFu16) | (((e as u16) & 0xFu16) << 12u16)) >> 12u16) & 0xFu16) as u8 == e % 16)
        && (((v & 0x0FFFu16) | (((e as u16) & 0xFu16) << 12u16)) & 0x0FFFu16 == v & 0x0FFFu16)
        && (((v & 0xF000u16) | (m & 0x0FFFu16)) & 0x0FFFu16 == m % 0x1000)
        && ((((v & 0xF000u16) | (m & 0x0FFFu16)) >> 12u16) & 0xFu16 == (v >> 12u16) & 0xFu16)) by (bit_vector);
}

/// OPT3001 result register
#[derive(Debug, Clone, Copy, PartialEq, Eq, Structural)]
pub struct Result(pub u16);

impl Result {
    /// Exponent field, bits 15..12.
    pub open spec fn spec_exponent(self) -> u8 {
        ((self.0 >> 12u16) & 0xFu16) as u8
    }

    /// Mantissa field, bits 11..0.
    pub open spec fn spec_result(self) -> u16 {
        self.0 & 0x0FFFu16
    }

    /// These bits are the exponent bits.
    pub fn exponent(&self) -> (r: u8)
        ensures
            r == self.spec_exponent(),
            r < 16,
    {
        let v = self.0;
        proof {
            lemma_limit_fields(v, 0, 0);
        }
        ((v >> 12) & 0xF) as u8
    }

    /// These bits are the result in straight binary coding (zero to full-scale).
    pub fn result(&self) -> (r: u16)
        ensures
            r == self.spec_result(),
            r <= 0x0FFF,
    {
        let v = self.0;
        proof {
            lemma_limit_fields(v, 0, 0);
        }
        v & 0x0FFF
    }
}

/// Default value at reset is 0x0000, which means exponent = 0 and result = 0.
impl Default for Result {
    fn default() -> (r: Self)
        ensures
            r.0 == 0,
    {
        Result(0)
    }
}

/// OPT3001 configuration register
#[derive(Debug, Clone, Copy, PartialEq, Eq, Structural)]
pub struct Config(pub u16);

impl Config {
    /// Range number field, bits 15..12.
    pub open spec fn spec_lux_range_bits(self) -> u8 {
        ((self.0 >> 12u16) & 0xFu16) as u8
    }

    /// Conversion time field, bit 11.
    pub open spec fn spec_conversion_time_bits(self) -> u8 {
        ((self.0 >> 11u16) & 0x1u16) as u8
    }

    /// Mode of conversion operation field, bits 10..9.
    pub open spec fn spec_conversion_mode_bits(self) -> u8 {
        ((self.0 >> 9u16) & 0x3u16) as u8
    }

    /// Overflow flag, bit 8.
    pub open spec fn spec_overflow(self) -> bool {
        self.0 & 0x0100u16 != 0
    }

    /// Conversion ready flag, bit 7.
    pub open spec fn spec_conversion_ready(self) -> bool {
        self.0 & 0x0080u16 != 0
    }

    /// Flag high, bit 6.
    pub open spec fn spec_high(self) -> bool {
        self.0 & 0x0040u16 != 0
    }

    /// Flag low, bit 5.
    pub open spec fn spec_low(self) -> bool {
        self.0 & 0x0020u16 != 0
    }

    /// Latch field, bit 4.
    pub open spec fn spec_comparison_mode_bits(self) -> u8 {
        ((self.0 >> 4u16) & 0x1u16) as u8
    }

    /// Polarity field, bit 3.
    pub open spec fn spec_polarity_bits(self) -> u8 {
        ((self.0 >> 3u16) & 0x1u16) as u8
    }

    /// Mask exponent field, bit 2.
    pub open spec fn spec_mask_exponent(self) -> bool {
        self.0 & 0x0004u16 != 0
    }

    /// Fault count field, bits 1..0.
    pub open spec fn spec_fault_count_bits(self) -> u8 {
        (self.0 & 0x3u16) as u8
    }

    /// The range number field selects the full-scale lux range of the device.
    pub fn lux_range(&self) -> (r: LuxRange)
        ensures
            r == LuxRange::spec_from_bits(self.spec_lux_range_bits()),
    {
        LuxRange::from(((self.0 >> 12) & 0xF) as u8)
    }

    /// Sets the range number field.
    pub fn set_lux_range(&mut self, range: LuxRange)
        ensures
            final(self).spec_lux_range_bits() == range.spec_bits(),
            final(self).0 & 0x0FFFu16 == old(self).0 & 0x0FFFu16,
    {
        let bits: u8 = u8::from(range);
        let old_v = self.0;
        let v = (old_v & 0x0FFF) | (((bits as u16) & 0xF) << 12);
        proof {
            lemma_config_fields(old_v, bits);
        }
        self.0 = v;
    }

    /// The conversion time field determines the length of the light to digital conversion process.
    pub fn conversion_time(&self) -> (r: ConversionTime)
        ensures
            r == ConversionTime::spec_from_bits(self.spec_conversion_time_bits()),
    {
        ConversionTime::from(((self.0 >> 11) & 0x1) as u8)
    }

    /// Sets the conversion time field.
    pub fn set_conversion_time(&mut self, time: ConversionTime)
        ensures
            final(self).spec_conversion_time_bits() == time.spec_bits(),
            final(self).0 & 0xF7FFu16 == old(self).0 & 0xF7FFu16,
    {
        let bits: u8 = u8::from(time);
        let old_v = self.0;
        let v = (old_v & 0xF7FF) | (((bits as u16) & 0x1) << 11);
        proof {
            lemma_config_fields(old_v, bits);
        }
        self.0 = v;
    }

    /// The mode of conversion operation field.
    pub fn conversion_mode(&self) -> (r: ConversionMode)
        ensures
            r == ConversionMode::spec_from_bits(self.spec_conversion_mode_bits()),
    {
        ConversionMode::from(((self.0 >> 9) & 0x3) as u8)
    }

    /// Sets the mode of conversion operation field.
    pub fn set_conversion_mode(&mut self, mode: ConversionMode)
        ensures
            final(self).spec_conversion_mode_bits() == mode.spec_bits(),
            final(self).0 & 0xF9FFu16 == old(self).0 & 0xF9FFu16,
    {
        let bits: u8 = u8::from(mode);
        let old_v = self.0;
        let v = (old_v & 0xF9FF) | (((bits as u16) & 0x3) << 9);
        proof {
            lemma_config_fields(old_v, bits);
        }
        self.0 = v;
    }

    /// The overflow flag field indicates when an overflow condition occurs in the data conversion process.
    pub fn overflow(&self) -> (r: bool)
        ensures
            r == self.spec_overflow(),
    {
        self.0 & 0x0100 != 0
    }

    /// The conversion ready flag field indicates when a new conversion result is available.
    pub fn conversion_ready(&self) -> (r: bool)
        ensures
            r == self.spec_conversion_ready(),
    {
        self.0 & 0x0080 != 0
    }

    /// The flag high field identifies that the result of a conversion is larger than a specified level of interest.
    pub fn high(&self) -> (r: bool)
        ensures
            r == self.spec_high(),
    {
        self.0 & 0x0040 != 0
    }

    /// The flag low field identifies that the result of a conversion is smaller than a specified level of interest.
    pub fn low(&self) -> (r: bool)
        ensures
            r == self.spec_low(),
    {
        self.0 & 0x0020 != 0
    }

    /// The latch field controls the functionality of the interrupt reporting mechanisms.
    pub fn comparison_mode(&self) -> (r: ComparisonMode)
        ensures
            r == ComparisonMode::spec_from_bits(self.spec_comparison_mode_bits()),
    {
        ComparisonMode::from(((self.0 >> 4) & 0x1) as u8)
    }

    /// Sets the latch field.
    pub fn set_comparison_mode(&mut self, mode: ComparisonMode)
        ensures
            final(self).spec_comparison_mode_bits() == mode.spec_bits(),
            final(self).0 & 0xFFEFu16 == old(self).0 & 0xFFEFu16,
    {
        let bits: u8 = u8::from(mode);
        let old_v = self.0;
        let v = (old_v & 0xFFEF) | (((bits as u16) & 0x1) << 4);
        proof {
            lemma_config_fields(old_v, bits);
        }
        self.0 = v;
    }

    /// The polarity field controls the polarity or active state of the INT pin.
    pub fn polarity(&self) -> (r: InterruptPolarity)
        ensures
            r == InterruptPolarity::spec_from_bits(self.spec_polarity_bits()),
    {
        InterruptPolarity::from(((self.0 >> 3) & 0x1) as u8)
    }

    /// Sets the polarity field.
    pub fn set_polarity(&mut self, polarity: InterruptPolarity)
        ensures
            final(self).spec_polarity_bits() == polarity.spec_bits(),
            final(self).0 & 0xFFF7u16 == old(self).0 & 0xFFF7u16,
    {
        let bits: u8 = u8::from(polarity);
        let old_v = self.0;
        let v = (old_v & 0xFFF7) | (((bits as u16) & 0x1) << 3);
        proof {
            lemma_config_fields(old_v, bits);
        }
        self.0 = v;
    }

    /// The mask exponent field forces the result register exponent field to 0000b when the
    /// full-scale range is manually set.
    pub fn mask_exponent(&self) -> (r: bool)
        ensures
            r == self.spec_mask_exponent(),
    {
        self.0 & 0x0004 != 0
    }

    /// Sets the mask exponent field.
    pub fn set_mask_exponent(&mut self, mask: bool)
        ensures
            final(self).spec_mask_exponent() == mask,
            final(self).0 & 0xFFFBu16 == old(self).0 & 0xFFFBu16,
    {
        let old_v = self.0;
        let v = if mask { old_v | 0x0004 } else { old_v & 0xFFFB };
        proof {
            lemma_config_fields(old_v, 0);
        }
        self.0 = v;
    }

    /// The fault count field instructs the device as to how many consecutive fault events are
    /// required to trigger the interrupt reporting mechanisms.
    pub fn fault_count(&self) -> (r: FaultCount)
        ensures
            r == FaultCount::spec_from_bits(self.spec_fault_count_bits()),
    {
        FaultCount::from((self.0 & 0x3) as u8)
    }

    /// Sets the fault count field.
    pub fn set_fault_count(&mut self, count: FaultCount)
        ensures
            final(self).spec_fault_count_bits() == count.spec_bits(),
            final(self).0 & 0xFFFCu16 == old(self).0 & 0xFFFCu16,
    {
        let bits: u8 = u8::from(count);
        let old_v = self.0;
        let v = (old_v & 0xFFFC) | ((bits as u16) & 0x3);
        proof {
            lemma_config_fields(old_v, bits);
        }
        self.0 = v;
    }
}

/// Default value at reset is 0xC810: automatic full-scale range, 800 ms conversion time,
/// shutdown mode, no flags raised, latched window comparison, active-low interrupt,
/// exponent masking disabled and one fault per interrupt.
impl Default for Config {
    fn default() -> (r: Self)
        ensures
            r.0 == 0xC810,
    {
        Config(0xC810)
    }
}

} // verus!

verus! {

/// OPT3001 low limit register.
/// Sets the lower comparison limit for the interrupt reporting mechanisms: the INT pin,
/// the flag high field, and flag low field.
#[derive(Debug, Clone, Copy, PartialEq, Eq, Structural)]
pub struct LowLimit(pub u16);

impl LowLimit {
    /// Exponent field, bits 15..12.
    pub open spec fn spec_exponent(self) -> u8 {
        ((self.0 >> 12u16) & 0xFu16) as u8
    }

    /// Mantissa field, bits 11..0.
    pub open spec fn spec_result(self) -> u16 {
        self.0 & 0x0FFFu16
    }

    /// These bits are the exponent bits.
    pub fn exponent(&self) -> (r: u8)
        ensures
            r == self.spec_exponent(),
            r < 16,
    {
        let v = self.0;
        proof {
            lemma_limit_fields(v, 0, 0);
        }
        ((v >> 12) & 0xF) as u8
    }

    /// Sets the exponent bits to the low four bits of `exponent`.
    pub fn set_exponent(&mut self, exponent: u8)
        ensures
            final(self).spec_exponent() == exponent % 16,
            final(self).spec_result() == old(self).spec_result(),
    {
        let old_v = self.0;
        let v = (old_v & 0x0FFF) | (((exponent as u16) & 0xF) << 12);
        proof {
            lemma_limit_fields(old_v, exponent, 0);
        }
        self.0 = v;
    }

    /// These bits are the result in straight binary coding (zero to full-scale).
    pub fn result(&self) -> (r: u16)
        ensures
            r == self.spec_result(),
            r <= 0x0FFF,
    {
        let v = self.0;
        proof {
            lemma_limit_fields(v, 0, 0);
        }
        v & 0x0FFF
    }

    /// Sets the mantissa bits to the low twelve bits of `result`.
    pub fn set_result(&mut self, result: u16)
        ensures
            final(self).spec_result() == result % 0x1000,
            final(self).spec_exponent() == old(self).spec_exponent(),
    {
        let old_v = self.0;
        let v = (old_v & 0xF000) | (result & 0x0FFF);
        proof {
            lemma_limit_fields(old_v, 0, result);
        }
        self.0 = v;
    }
}

/// Default value at reset is 0x0000, which means exponent = 0 and result = 0.
impl Default for LowLimit {
    fn default() -> (r: Self)
        ensures
            r.0 == 0x0000,
    {
        LowLimit(0x0000)
    }
}

/// OPT3001 high limit register.
/// Sets the upper comparison limit for the interrupt reporting mechanisms: the INT pin,
/// the flag high field, and flag low field.
#[derive(Debug, Clone, Copy, PartialEq, Eq, Structural)]
pub struct HighLimit(pub u16);

impl HighLimit {
    /// Exponent field, bits 15..12.
    pub open spec fn spec_exponent(self) -> u8 {
        ((self.0 >> 12u16) & 0xFu16) as u8
    }

    /// Mantissa field, bits 11..0.
    pub open spec fn spec_result(self) -> u16 {
        self.0 & 0x0FFFu16
    }

    /// These bits are the exponent bits.
    pub fn exponent(&self) -> (r: u8)
        ensures
            r == self.spec_exponent(),
            r < 16,
    {
        let v = self.0;
        proof {
            lemma_limit_fields(v, 0, 0);
        }
        ((v >> 12) & 0xF) as u8
    }

    /// Sets the exponent bits to the low four bits of `exponent`.
    pub fn set_exponent(&mut self, exponent: u8)
        ensures
            final(self).spec_exponent() == exponent % 16,
            final(self).spec_result() == old(self).spec_result(),
    {
        let old_v = self.0;
        let v = (old_v & 0x0FFF) | (((exponent as u16) & 0xF) << 12);
        proof {
            lemma_limit_fields(old_v, exponent, 0);
        }
        self.0 = v;
    }

    /// These bits are the result in straight binary coding (zero to full-scale).
    pub fn result(&self) -> (r: u16)
        ensures
            r == self.spec_result(),
            r <= 0x0FFF,
    {
        let v = self.0;
        proof {
            lemma_limit_fields(v, 0, 0);
        }
        v & 0x0FFF
    }

    /// Sets the mantissa bits to the low twelve bits of `result`.
    pub fn set_result(&mut self, result: u16)
        ensures
            final(self).spec_result() == result % 0x1000,
            final(self).spec_exponent() == old(self).spec_exponent(),
    {
        let old_v = self.0;
        let v = (old_v & 0xF000) | (result & 0x0FFF);
        proof {
            lemma_limit_fields(old_v, 0, result);
        }
        self.0 = v;
    }
}

/// Default value at reset is 0xBFFF, which means exponent = 11 and result = 4095,
/// the maximum value for the result register.
impl Default for HighLimit {
    fn default() -> (r: Self)
        ensures
            r.0 == 0xBFFF,
    {
        HighLimit(0xBFFF)
    }
}

/// The big-endian 16-bit value carried by the two bytes that a register read returns.
pub open spec fn spec_register_value(bytes: [u8; 2]) -> u16 {
    (bytes@[0] as int * 256 + bytes@[1] as int) as u16
}

/// Decodes the two bytes returned by a register read (most significant byte first).
pub fn register_value(bytes: [u8; 2]) -> (value: u16)
    ensures
        value == spec_register_value(bytes),
        value as int == bytes@[0] as int * 256 + bytes@[1] as int,
{
    let msb = bytes[0];
    let lsb = bytes[1];
    let v = ((msb as u16) << 8) | (lsb as u16);
    assert(v == msb as u16 * 256 + lsb as u16) by (bit_vector)
        requires v == ((msb as u16) << 8u16) | (lsb as u16);
    v
}

/// The three bytes written to the bus to set `register` to `value`: the register address,
/// then the value most significant byte first.
pub fn register_write_frame(register: u8, value: u16) -> (frame: [u8; 3])
    ensures
        frame@[0] == register,
        frame@[1] == value / 256,
        frame@[2] == value % 256,
{
    let msb = (value >> 8) as u8;
    let lsb = (value & 0xFF) as u8;
    assert(msb == value / 256 && lsb == value % 256) by (bit_vector)
        requires msb == (value >> 8u16) as u8, lsb == (value & 0xFFu16) as u8;
    [register, msb, lsb]
}

/// Reading back the bytes of a register write gives the written value: a register that stores
/// what it is sent returns it unchanged.
pub proof fn lemma_register_frame_roundtrip(register: u8, value: u16, frame: [u8; 3], readback: [u8; 2])
    requires
        frame@[0] == register,
        frame@[1] == value / 256,
        frame@[2] == value % 256,
        readback@[0] == frame@[1],
        readback@[1] == frame@[2],
    ensures
        spec_register_value(readback) == value,
{
}

} // verus!

verus! {

/// Decoding the encoding of a lux range gives the range back, for every range that has its own
/// encoding: automatic, or a manual range number below 16 other than the automatic code 1100b.
pub proof fn lemma_lux_range_roundtrip(range: LuxRange)
    requires
        range matches LuxRange::Manual(v) ==> v < 16 && v != 12,
    ensures
        LuxRange::spec_from_bits(range.spec_bits()) == range,
{
}

/// Encoding a decoded lux range gives back the low four bits of the raw field.
pub proof fn lemma_lux_range_bits_roundtrip(value: u8)
    ensures
        LuxRange::spec_from_bits(value).spec_bits() == value % 16,
{
}

/// Every conversion time, polarity, comparison mode and fault count survives encoding and
/// decoding, and decoding then encoding keeps the low bits of the raw field.
pub proof fn lemma_field_enums_roundtrip(
    time: ConversionTime,
    polarity: InterruptPolarity,
    mode: ComparisonMode,
    count: FaultCount,
    value: u8,
)
    ensures
        ConversionTime::spec_from_bits(time.spec_bits()) == time,
        InterruptPolarity::spec_from_bits(polarity.spec_bits()) == polarity,
        ComparisonMode::spec_from_bits(mode.spec_bits()) == mode,
        FaultCount::spec_from_bits(count.spec_bits()) == count,
        ConversionTime::spec_from_bits(value).spec_bits() == value % 2,
        InterruptPolarity::spec_from_bits(value).spec_bits() == value % 2,
        ComparisonMode::spec_from_bits(value).spec_bits() == value % 2,
        FaultCount::spec_from_bits(value).spec_bits() == value % 4,
{
}

/// Every conversion mode survives encoding and decoding; the raw field 11b, which the device does
/// not use, decodes as continuous conversion (10b).
pub proof fn lemma_conversion_mode_roundtrip(mode: ConversionMode, value: u8)
    ensures
        ConversionMode::spec_from_bits(mode.spec_bits()) == mode,
        value % 4 != 3 ==> ConversionMode::spec_from_bits(value).spec_bits() == value % 4,
        value % 4 == 3 ==> ConversionMode::spec_from_bits(value) == ConversionMode::Continuous,
{
}

} // verus!
