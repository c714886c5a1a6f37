//! Register map and bit-level encodings of the BME688.
use vstd::prelude::*;
use vstd::arithmetic::power2::{pow2, lemma2_to64};

verus! {

/// Register for 3rd group of coefficients
pub const REG_COEFF_3: u8 = 0x00;
/// 0th Field address
pub const REG_FIELD_0: u8 = 0x1D;
/// 0th Current DAC address
pub const REG_IDAC_HEAT_0: u8 = 0x50;
/// 0th Heater resistance address
pub const REG_RES_HEAT_0: u8 = 0x5A;
/// 0th Heater duration address
pub const REG_GAS_WAIT_0: u8 = 0x64;
/// Shared heating duration address
pub const REG_SHD_GAS_WAIT: u8 = 0x6E;
/// CTRL_GAS_0 address
pub const REG_CTRL_GAS_0: u8 = 0x70;
/// CTRL_GAS_1 address
pub const REG_CTRL_GAS_1: u8 = 0x71;
/// CTRL_HUM address
pub const REG_CTRL_HUM: u8 = 0x72;
/// CTRL_MEAS address
pub const REG_CTRL_MEAS: u8 = 0x74;
/// CONFIG address
pub const REG_CONFIG: u8 = 0x75;
/// Register for 1st group of coefficients
pub const REG_COEFF_1: u8 = 0x8A;
/// Chip ID address
pub const REG_CHIP_ID: u8 = 0xD0;
/// Software reset address
pub const REG_SOFT_RESET: u8 = 0xE0;
/// Register for 2nd group of coefficients
pub const REG_COEFF_2: u8 = 0xE1;
/// Variant ID address
pub const REG_VARIANT_ID: u8 = 0xF0;
/// Command that triggers a soft reset when written to the reset register
pub const RESET_COMMAND: u8 = 0xB6;

/// Length of the first group of coefficients
pub const LEN_COEFF_1: usize = 23;
/// Length of the second group of coefficients
pub const LEN_COEFF_2: usize = 14;
/// Length of the third group of coefficients
pub const LEN_COEFF_3: usize = 5;
/// Total length of all coefficient groups
pub const LEN_COEFF: usize = 42;
/// Length of the field data
pub const LEN_FIELD: usize = 17;
/// Length of the control gas register
pub const LEN_CTRL_GAS: usize = 2;
/// Maximum number of field data chunks
pub const MAX_FIELD_COUNT: usize = 3;
/// Maximum number of heater profiles
pub const MAX_HEATER_PROFILES: usize = 10;

/// Operating mode of sensor
#[derive(Debug, Clone, Copy, PartialEq, Eq, Structural)]
pub enum Mode {
    /// 00: Sleep operation mode
    Sleep,
    /// 01: Forced operation mode
    Forced,
    /// 10: Parallel operation mode
    Parallel,
    /// 11: Sequential operation mode
    Sequential,
}

impl Mode {
    /// The 2-bit field value that encodes this setting.
    pub open spec fn spec_bits(self) -> u8 {
        match self {
            Mode::Sleep => 0,
            Mode::Forced => 1,
            Mode::Parallel => 2,
            Mode::Sequential => 3,
        }
    }

    /// The setting decoded from the low 2 bits of `value`.
    pub open spec fn spec_from_bits(value: u8) -> Mode {
        if value % 4 == 0 {
            Mode::Sleep
        } else if value % 4 == 1 {
            Mode::Forced
        } else if value % 4 == 2 {
            Mode::Parallel
        } else {
            Mode::Sequential
        }
    }
}

impl From<Mode> for u8 {
    fn from(value: Mode) -> (r: Self) {
        match value {
            Mode::Sleep => 0,
            Mode::Forced => 1,
            Mode::Parallel => 2,
            Mode::Sequential => 3,
        }
    }
}

impl vstd::std_specs::convert::FromSpecImpl<Mode> for u8 {
    open spec fn obeys_from_spec() -> bool {
        true
    }

    open spec fn from_spec(value: Mode) -> u8 {
        value.spec_bits()
    }
}

impl From<u8> for Mode {
    fn from(value: u8) -> (r: Self) {
        let bits = value % 4;
        if bits == 0 {
            Mode::Sleep
        } else if bits == 1 {
            Mode::Forced
        } else if bits == 2 {
            Mode::Parallel
        } else {
            Mode::Sequential
        }
    }
}

impl vstd::std_specs::convert::FromSpecImpl<u8> for Mode {
    open spec fn obeys_from_spec() -> bool {
        true
    }

    open spec fn from_spec(value: u8) -> Mode {
        Mode::spec_from_bits(value)
    }
}

/// IIR filter applies only to temperature and pressure
#[derive(Debug, Clone, Copy, PartialEq, Eq, Structural)]
pub enum Filter {
    /// 000: Filter off
    Off,
    /// 001: Filter coefficient of 2
    Size1,
    /// 010: Filter coefficient of 4
    Size3,
    /// 011: Filter coefficient of 8
    Size7,
    /// 100: Filter coefficient of 16
    Size15,
    /// 101: Filter coefficient of 32
    Size31,
    /// 110: Filter coefficient of 64
    Size63,
    /// 111: Filter coefficient of 128
    Size127,
}

impl Filter {
    /// The 3-bit field value that encodes this setting.
    pub open spec fn spec_bits(self) -> u8 {
        match self {
            Filter::Off => 0,
            Filter::Size1 => 1,
            Filter::Size3 => 2,
            Filter::Size7 => 3,
            Filter::Size15 => 4,
            Filter::Size31 => 5,
            Filter::Size63 => 6,
            Filter::Size127 => 7,
        }
    }

    /// The setting decoded from the low 3 bits of `value`.
    pub open spec fn spec_from_bits(value: u8) -> Filter {
        if value % 8 == 0 {
            Filter::Off
        } else if value % 8 == 1 {
            Filter::Size1
        } else if value % 8 == 2 {
            Filter::Size3
        } else if value % 8 == 3 {
            Filter::Size7
        } else if value % 8 == 4 {
            Filter::Size15
        } else if value % 8 == 5 {
            Filter::Size31
        } else if value % 8 == 6 {
            Filter::Size63
        } else {
            Filter::Size127
        }
    }
}

impl Default for Filter {
    fn default() -> (r: Self)
        ensures
            r == Filter::Off,
    {
        Filter::Off
    }
}

impl From<Filter> for u8 {
    fn from(value: Filter) -> (r: Self) {
        match value {
            Filter::Off => 0,
            Filter::Size1 => 1,
            Filter::Size3 => 2,
            Filter::Size7 => 3,
            Filter::Size15 => 4,
            Filter::Size31 => 5,
            Filter::Size63 => 6,
            Filter::Size127 => 7,
        }
    }
}

impl vstd::std_specs::convert::FromSpecImpl<Filter> for u8 {
    open spec fn obeys_from_spec() -> bool {
        true
    }

    open spec fn from_spec(value: Filter) -> u8 {
        value.spec_bits()
    }
}

impl From<u8> for Filter {
    fn from(value: u8) -> (r: Self) {
        let bits = value % 8;
        if bits == 0 {
            Filter::Off
        } else if bits == 1 {
            Filter::Size1
        } else if bits == 2 {
            Filter::Size3
        } else if bits == 3 {
            Filter::Size7
        } else if bits == 4 {
            Filter::Size15
        } else if bits == 5 {
            Filter::Size31
        } else if bits == 6 {
            Filter::Size63
        } else {
            Filter::Size127
        }
    }
}

impl vstd::std_specs::convert::FromSpecImpl<u8> for Filter {
    open spec fn obeys_from_spec() -> bool {
        true
    }

    open spec fn from_spec(value: u8) -> Filter {
        Filter::spec_from_bits(value)
    }
}

/// Oversampling setting of a temperature, pressure or humidity measurement
#[derive(Debug, Clone, Copy, PartialEq, Eq, Structural)]
pub enum Oversampling {
    /// 000: Skipped
    Skipped,
    /// 001: Perform 1 measurement
    X1,
    /// 010: Perform 2 measurements
    X2,
    /// 011: Perform 4 measurements
    X4,
    /// 100: Perform 8 measurements
    X8,
    /// 101: Perform 16 measurements
    X16,
}

impl Oversampling {
    /// The 3-bit field value that encodes this setting.
    pub open spec fn spec_bits(self) -> u8 {
        match self {
            Oversampling::Skipped => 0,
            Oversampling::X1 => 1,
            Oversampling::X2 => 2,
            Oversampling::X4 => 3,
            Oversampling::X8 => 4,
            Oversampling::X16 => 5,
        }
    }

    /// The setting decoded from the low 3 bits of `value`; codes without a setting of their own decode as X16.
    pub open spec fn spec_from_bits(value: u8) -> Oversampling {
        if value % 8 == 0 {
            Oversampling::Skipped
        } else if value % 8 == 1 {
            Oversampling::X1
        } else if value % 8 == 2 {
            Oversampling::X2
        } else if value % 8 == 3 {
            Oversampling::X4
        } else if value % 8 == 4 {
            Oversampling::X8
        } else {
            Oversampling::X16
        }
    }

    /// Number of measurement cycles of this setting.
    pub open spec fn spec_cycles(self) -> u32 {
        match self {
            Oversampling::Skipped => 0,
            Oversampling::X1 => 1,
            Oversampling::X2 => 2,
            Oversampling::X4 => 4,
            Oversampling::X8 => 8,
            Oversampling::X16 => 16,
        }
    }

    /// Get the number of cycles corresponding to the oversampling setting.
    ///
    /// # Returns
    /// The number of cycles for the oversampling setting.
    pub fn cycles(&self) -> (r: u32)
        ensures
            r == self.spec_cycles(),
            r <= 16,
    {
        match self {
            Oversampling::Skipped => 0,
            Oversampling::X1 => 1,
            Oversampling::X2 => 2,
            Oversampling::X4 => 4,
            Oversampling::X8 => 8,
            Oversampling::X16 => 16,
        }
    }
}

impl Default for Oversampling {
    fn default() -> (r: Self)
        ensures
            r == Oversampling::Skipped,
    {
        Oversampling::Skipped
    }
}

impl From<Oversampling> for u8 {
    fn from(value: Oversampling) -> (r: Self) {
        match value {
            Oversampling::Skipped => 0,
            Oversampling::X1 => 1,
            Oversampling::X2 => 2,
            Oversampling::X4 => 3,
            Oversampling::X8 => 4,
            Oversampling::X16 => 5,
        }
    }
}

impl vstd::std_specs::convert::FromSpecImpl<Oversampling> for u8 {
    open spec fn obeys_from_spec() -> bool {
        true
    }

    open spec fn from_spec(value: Oversampling) -> u8 {
        value.spec_bits()
    }
}

impl From<u8> for Oversampling {
    fn from(value: u8) -> (r: Self) {
        let bits = value % 8;
        if bits == 0 {
            Oversampling::Skipped
        } else if bits == 1 {
            Oversampling::X1
        } else if bits == 2 {
            Oversampling::X2
        } else if bits == 3 {
            Oversampling::X4
        } else if bits == 4 {
            Oversampling::X8
        } else {
            Oversampling::X16
        }
    }
}

impl vstd::std_specs::convert::FromSpecImpl<u8> for Oversampling {
    open spec fn obeys_from_spec() -> bool {
        true
    }

    open spec fn from_spec(value: u8) -> Oversampling {
        Oversampling::spec_from_bits(value)
    }
}

/// Standby time between measurements in sequential mode
#[derive(Debug, Clone, Copy, PartialEq, Eq, Structural)]
pub enum StandbyTime {
    /// 0.59 ms.
    Ms0_59,
    /// 62.5 ms.
    Ms62_5,
    /// 125 ms.
    Ms125,
    /// 250 ms.
    Ms250,
    /// 500 ms.
    Ms500,
    /// 1,000 ms.
    Ms1000,
    /// 10 ms.
    Ms10,
    /// 20 ms.
    Ms20,
}

impl StandbyTime {
    /// The 3-bit field value that encodes this setting.
    pub open spec fn spec_bits(self) -> u8 {
        match self {
            StandbyTime::Ms0_59 => 0,
            StandbyTime::Ms62_5 => 1,
            StandbyTime::Ms125 => 2,
            StandbyTime::Ms250 => 3,
            StandbyTime::Ms500 => 4,
            StandbyTime::Ms1000 => 5,
            StandbyTime::Ms10 => 6,
            StandbyTime::Ms20 => 7,
        }
    }

    /// The setting decoded from the low 3 bits of `value`.
    pub open spec fn spec_from_bits(value: u8) -> StandbyTime {
        if value % 8 == 0 {
            StandbyTime::Ms0_59
        } else if value % 8 == 1 {
            StandbyTime::Ms62_5
        } else if value % 8 == 2 {
            StandbyTime::Ms125
        } else if value % 8 == 3 {
            StandbyTime::Ms250
        } else if value % 8 == 4 {
            StandbyTime::Ms500
        } else if value % 8 == 5 {
            StandbyTime::Ms1000
        } else if value % 8 == 6 {
            StandbyTime::Ms10
        } else {
            StandbyTime::Ms20
        }
    }
}

impl From<StandbyTime> for u8 {
    fn from(value: StandbyTime) -> (r: Self) {
        match value {
            StandbyTime::Ms0_59 => 0,
            StandbyTime::Ms62_5 => 1,
            StandbyTime::Ms125 => 2,
            StandbyTime::Ms250 => 3,
            StandbyTime::Ms500 => 4,
            StandbyTime::Ms1000 => 5,
            StandbyTime::Ms10 => 6,
            StandbyTime::Ms20 => 7,
        }
    }
}

impl vstd::std_specs::convert::FromSpecImpl<StandbyTime> for u8 {
    open spec fn obeys_from_spec() -> bool {
        true
    }

    open spec fn from_spec(value: StandbyTime) -> u8 {
        value.spec_bits()
    }
}

impl From<u8> for StandbyTime {
    fn from(value: u8) -> (r: Self) {
        let bits = value % 8;
        if bits == 0 {
            StandbyTime::Ms0_59
        } else if bits == 1 {
            StandbyTime::Ms62_5
        } else if bits == 2 {
            StandbyTime::Ms125
        } else if bits == 3 {
            StandbyTime::Ms250
        } else if bits == 4 {
            StandbyTime::Ms500
        } else if bits == 5 {
            StandbyTime::Ms1000
        } else if bits == 6 {
            StandbyTime::Ms10
        } else {
            StandbyTime::Ms20
        }
    }
}

impl vstd::std_specs::convert::FromSpecImpl<u8> for StandbyTime {
    open spec fn obeys_from_spec() -> bool {
        true
    }

    open spec fn from_spec(value: u8) -> StandbyTime {
        StandbyTime::spec_from_bits(value)
    }
}

} // verus!

verus! {

/// The bit manipulations of the setters of the configuration, control measurement and control
/// humidity registers: each stores its field and keeps every other bit.
proof fn lemma_byte_register_fields(v: u8, b: u8)
    ensures
        ((((v & 0x1fu8) | (((b & 0x7u8) as u8) << 5u8)) >> 5u8) & 0x7u8) as u8 == b % 8,
        ((v & 0x1fu8) | (((b & 0x7u8) as u8) << 5u8)) & 0x1fu8 == v & 0x1fu8,
        ((((v & 0xe3u8) | (((b & 0x7u8) as u8) << 2u8)) >> 2u8) & 0x7u8) as u8 == b % 8,
        ((v & 0xe3u8) | (((b & 0x7u8) as u8) << 2u8)) & 0xe3u8 == v & 0xe3u8,
        ((((v & 0xfcu8) | (((b & 0x3u8) as u8) << 0u8)) >> 0u8) & 0x3u8) as u8 == b % 4,
        ((v & 0xfcu8) | (((b & 0x3u8) as u8) << 0u8)) & 0xfcu8 == v & 0xfcu8,
        ((((v & 0xf8u8) | (((b & 0x7u8) as u8) << 0u8)) >> 0u8) & 0x7u8) as u8 == b % 8,
        ((v & 0xf8u8) | (((b & 0x7u8) as u8) << 0u8)) & 0xf8u8 == v & 0xf8u8,
{
    assert((((((v & 0x1fu8) | (((b & 0x7u8) as u8) << 5u8)) >> 5u8) & 0x7u8) as u8 == b % 8)
        && (((v & 0x1fu8) | (((b & 0x7u8) as u8) << 5u8)) & 0x1fu8 == v & 0x1fu8)
        && (((((v & 0xe3u8) | (((b & 0x7u8) as u8) << 2u8)) >> 2u8) & 0x7u8) as u8 == b % 8)
        && (((v & 0xe3u8) | (((b & 0x7u8) as u8) << 2u8)) & 0xe3u8 == v & 0xe3u8)
        && (((((v & 0xfcu8) | (((b & 0x3u8) as u8) << 0u8)) >> 0u8) & 0x3u8) as u8 == b % 4)
        && (((v & 0xfcu8) | (((b & 0x3u8) as u8) << 0u8)) & 0xfcu8 == v & 0xfcu8)
        && (((((v & 0xf8u8) | (((b & 0x7u8) as u8) << 0u8)) >> 0u8) & 0x7u8) as u8 == b % 8)
        && (((v & 0xf8u8) | (((b & 0x7u8) as u8) << 0u8)) & 0xf8u8 == v & 0xf8u8)) by (bit_vector);
}

/// The bit manipulations of the control gas registers' accessors: the heater profile field is
/// in range, and each setter stores its field and keeps every other bit.
proof fn lemma_ctrl_gas_fields(v: u16, b: u8)
    ensures
        ((((v & 0xf0ffu16) | (((b & 0xfu8) as u16) << 8u16)) >> 8u16) & 0xfu16) as u8 == b % 16,
        ((v & 0xf0ffu16) | (((b & 0xfu8) as u16) << 8u16)) & 0xf0ffu16 == v & 0xf0ffu16,
        ((v | 0x8000u16) >> 15u16) & 1u16 == 1,
        (v | 0x8000u16) & 0x7fffu16 == v & 0x7fffu16,
        ((v & 0x7fffu16) >> 15u16) & 1u16 != 1,
        (v & 0x7fffu16) & 0x7fffu16 == v & 0x7fffu16,
        ((v | 0x2000u16) >> 13u16) & 1u16 == 1,
        (v | 0x2000u16) & 0xdfffu16 == v & 0xdfffu16,
        ((v & 0xdfffu16) >> 13u16) & 1u16 != 1,
        (v & 0xdfffu16) & 0xdfffu16 == v & 0xdfffu16,
        ((v | 0x8u16) >> 3u16) & 1u16 == 1,
        (v | 0x8u16) & 0xfff7u16 == v & 0xfff7u16,
        ((v & 0xfff7u16) >> 3u16) & 1u16 != 1,
        (v & 0xfff7u16) & 0xfff7u16 == v & 0xfff7u16,
        (v >> 8u16) & 0xfu16 < 16,
{
    assert((((((v & 0xf0ffu16) | (((b & 0xfu8) as u16) << 8u16)) >> 8u16) & 0xfu16) as u8 == b % 16)
        && (((v & 0xf0ffu16) | (((b & 0xfu8) as u16) << 8u16)) & 0xf0ffu16 == v & 0xf0ffu16)
        && (((v | 0x8000u16) >> 15u16) & 1u16 == 1)
        && ((v | 0x8000u16) & 0x7fffu16 == v & 0x7fffu16)
        && (((v & 0x7fffu16) >> 15u16) & 1u16 != 1)
        && ((v & 0x7fffu16) & 0x7fffu16 == v & 0x7fffu16)
        && (((v | 0x2000u16) >> 13u16) & 1u16 == 1)
        && ((v | 0x2000u16) & 0xdfffu16 == v & 0xdfffu16)
        && (((v & 0xdfffu16) >> 13u16) & 1u16 != 1)
        && ((v & 0xdfffu16) & 0xdfffu16 == v & 0xdfffu16)
        && (((v | 0x8u16) >> 3u16) & 1u16 == 1)
        && ((v | 0x8u16) & 0xfff7u16 == v & 0xfff7u16)
        && (((v & 0xfff7u16) >> 3u16) & 1u16 != 1)
        && ((v & 0xfff7u16) & 0xfff7u16 == v & 0xfff7u16)
        && ((v >> 8u16) & 0xfu16 < 16)) by (bit_vector);
}

/// Represents the configuration register (0x75) of the BME688 sensor.
#[derive(Debug, Clone, Copy, PartialEq, Eq, Structural)]
pub struct Config(pub u8);

impl Config {
    /// Raw standby time field (bits 7..5).
    pub open spec fn spec_standby_time_bits(self) -> u8 {
        ((self.0 >> 5u8) & 0x7u8) as u8
    }

    /// Standby time.
    pub fn standby_time(&self) -> (r: StandbyTime)
        ensures
            r == StandbyTime::spec_from_bits(self.spec_standby_time_bits()),
    {
        StandbyTime::from(((self.0 >> 5) & 0x7) as u8)
    }

    /// Sets the standby time field.
    pub fn set_standby_time(&mut self, value: StandbyTime)
        ensures
            final(self).spec_standby_time_bits() == value.spec_bits(),
            final(self).0 & 0x1fu8 == old(self).0 & 0x1fu8,
    {
        let bits: u8 = u8::from(value);
        let old_v = self.0;
        let v = (old_v & 0x1f) | ((((bits & 0x7) as u8)) << 5);
        proof {
            lemma_byte_register_fields(old_v, bits);
        }
        self.0 = v;
    }

    /// Raw filter coefficient field (bits 4..2).
    pub open spec fn spec_filter_bits(self) -> u8 {
        ((self.0 >> 2u8) & 0x7u8) as u8
    }

    /// Filter coefficient.
    pub fn filter(&self) -> (r: Filter)
        ensures
            r == Filter::spec_from_bits(self.spec_filter_bits()),
    {
        Filter::from(((self.0 >> 2) & 0x7) as u8)
    }

    /// Sets the filter coefficient field.
    pub fn set_filter(&mut self, value: Filter)
        ensures
            final(self).spec_filter_bits() == value.spec_bits(),
            final(self).0 & 0xe3u8 == old(self).0 & 0xe3u8,
    {
        let bits: u8 = u8::from(value);
        let old_v = self.0;
        let v = (old_v & 0xe3) | ((((bits & 0x7) as u8)) << 2);
        proof {
            lemma_byte_register_fields(old_v, bits);
        }
        self.0 = v;
    }
}

/// Represents the control measurement register (0x74) of the BME688 sensor.
#[derive(Debug, Clone, Copy, PartialEq, Eq, Structural)]
pub struct CtrlMeas(pub u8);

impl CtrlMeas {
    /// Raw oversampling of temperature field (bits 7..5).
    pub open spec fn spec_temp_os_bits(self) -> u8 {
        ((self.0 >> 5u8) & 0x7u8) as u8
    }

    /// Oversampling of temperature.
    pub fn temp_os(&self) -> (r: Oversampling)
        ensures
            r == Oversampling::spec_from_bits(self.spec_temp_os_bits()),
    {
        Oversampling::from(((self.0 >> 5) & 0x7) as u8)
    }

    /// Sets the temperature oversampling field.
    pub fn set_temp_os(&mut self, value: Oversampling)
        ensures
            final(self).spec_temp_os_bits() == value.spec_bits(),
            final(self).0 & 0x1fu8 == old(self).0 & 0x1fu8,
    {
        let bits: u8 = u8::from(value);
        let old_v = self.0;
        let v = (old_v & 0x1f) | ((((bits & 0x7) as u8)) << 5);
        proof {
            lemma_byte_register_fields(old_v, bits);
        }
        self.0 = v;
    }

    /// Raw oversampling of pressure field (bits 4..2).
    pub open spec fn spec_press_os_bits(self) -> u8 {
        ((self.0 >> 2u8) & 0x7u8) as u8
    }

    /// Oversampling of pressure.
    pub fn press_os(&self) -> (r: Oversampling)
        ensures
            r == Oversampling::spec_from_bits(self.spec_press_os_bits()),
    {
        Oversampling::from(((self.0 >> 2) & 0x7) as u8)
    }

    /// Sets the pressure oversampling field.
    pub fn set_press_os(&mut self, value: Oversampling)
        ensures
            final(self).spec_press_os_bits() == value.spec_bits(),
            final(self).0 & 0xe3u8 == old(self).0 & 0xe3u8,
    {
        let bits: u8 = u8::from(value);
        let old_v = self.0;
        let v = (old_v & 0xe3) | ((((bits & 0x7) as u8)) << 2);
        proof {
            lemma_byte_register_fields(old_v, bits);
        }
        self.0 = v;
    }

    /// Raw operating mode field (bits 1..0).
    pub open spec fn spec_mode_bits(self) -> u8 {
        ((self.0 >> 0u8) & 0x3u8) as u8
    }

    /// Operating mode.
    pub fn mode(&self) -> (r: Mode)
        ensures
            r == Mode::spec_from_bits(self.spec_mode_bits()),
    {
        Mode::from(((self.0 >> 0) & 0x3) as u8)
    }

    /// Sets the operating mode field.
    pub fn set_mode(&mut self, value: Mode)
        ensures
            final(self).spec_mode_bits() == value.spec_bits(),
            final(self).0 & 0xfcu8 == old(self).0 & 0xfcu8,
    {
        let bits: u8 = u8::from(value);
        let old_v = self.0;
        let v = (old_v & 0xfc) | ((((bits & 0x3) as u8)) << 0);
        proof {
            lemma_byte_register_fields(old_v, bits);
        }
        self.0 = v;
    }
}

/// Represents the control humidity register (0x72) of the BME688 sensor.
#[derive(Debug, Clone, Copy, PartialEq, Eq, Structural)]
pub struct CtrlHum(pub u8);

impl CtrlHum {
    /// Raw oversampling of humidity field (bits 2..0).
    pub open spec fn spec_hum_os_bits(self) -> u8 {
        ((self.0 >> 0u8) & 0x7u8) as u8
    }

    /// Oversampling of humidity.
    pub fn hum_os(&self) -> (r: Oversampling)
        ensures
            r == Oversampling::spec_from_bits(self.spec_hum_os_bits()),
    {
        Oversampling::from(((self.0 >> 0) & 0x7) as u8)
    }

    /// Sets the humidity oversampling field.
    pub fn set_hum_os(&mut self, value: Oversampling)
        ensures
            final(self).spec_hum_os_bits() == value.spec_bits(),
            final(self).0 & 0xf8u8 == old(self).0 & 0xf8u8,
    {
        let bits: u8 = u8::from(value);
        let old_v = self.0;
        let v = (old_v & 0xf8) | ((((bits & 0x7) as u8)) << 0);
        proof {
            lemma_byte_register_fields(old_v, bits);
        }
        self.0 = v;
    }
}

/// Represents the control gas registers (0x70–0x71) of the BME688 sensor; the low byte is 0x70.
#[derive(Debug, Clone, Copy, PartialEq, Eq, Structural)]
pub struct CtrlGas(pub u16);

impl CtrlGas {
    /// Disable standby time, 0x71 bit 7 (bit 15).
    pub open spec fn spec_disable_standby(self) -> bool {
        (self.0 >> 15u16) & 1u16 == 1
    }

    /// Disable standby time, 0x71 bit 7.
    pub fn disable_standby(&self) -> (r: bool)
        ensures
            r == self.spec_disable_standby(),
    {
        (self.0 >> 15) & 1 == 1
    }

    /// Sets or clears the disable standby flag (0x71 bit 7).
    pub fn set_disable_standby(&mut self, value: bool)
        ensures
            final(self).spec_disable_standby() == value,
            final(self).0 & 0x7fffu16 == old(self).0 & 0x7fffu16,
    {
        let old_v = self.0;
        let v = if value { old_v | 0x8000 } else { old_v & 0x7fff };
        proof {
            lemma_ctrl_gas_fields(old_v, 0);
        }
        self.0 = v;
    }

    /// Run gas measurement, 0x71 bit 5 (bit 13).
    pub open spec fn spec_run_gas(self) -> bool {
        (self.0 >> 13u16) & 1u16 == 1
    }

    /// Run gas measurement, 0x71 bit 5.
    pub fn run_gas(&self) -> (r: bool)
        ensures
            r == self.spec_run_gas(),
    {
        (self.0 >> 13) & 1 == 1
    }

    /// Sets or clears the run gas flag (0x71 bit 5).
    pub fn set_run_gas(&mut self, value: bool)
        ensures
            final(self).spec_run_gas() == value,
            final(self).0 & 0xdfffu16 == old(self).0 & 0xdfffu16,
    {
        let old_v = self.0;
        let v = if value { old_v | 0x2000 } else { old_v & 0xdfff };
        proof {
            lemma_ctrl_gas_fields(old_v, 0);
        }
        self.0 = v;
    }

    /// Raw heater profile selection, 0x71 bits 3–0 field (bits 11..8).
    pub open spec fn spec_heater_profile_bits(self) -> u8 {
        ((self.0 >> 8u16) & 0xfu16) as u8
    }

    /// Heater profile selection, 0x71 bits 3–0.
    pub fn heater_profile(&self) -> (r: u8)
        ensures
            r == self.spec_heater_profile_bits(),
            r < 16,
    {
        let v = self.0;
        proof {
            lemma_ctrl_gas_fields(v, 0);
        }
        ((v >> 8) & 0xf) as u8
    }

    /// Sets the heater profile selection (0x71 bits 3–0) to the low four bits of `value`.
    pub fn set_heater_profile(&mut self, value: u8)
        ensures
            final(self).spec_heater_profile_bits() == value % 16,
            final(self).0 & 0xf0ffu16 == old(self).0 & 0xf0ffu16,
    {
        let bits: u8 = value;
        let old_v = self.0;
        let v = (old_v & 0xf0ff) | ((((bits & 0xf) as u16)) << 8);
        proof {
            lemma_ctrl_gas_fields(old_v, bits);
        }
        self.0 = v;
    }

    /// Disable heater, 0x70 bit 3 (bit 3).
    pub open spec fn spec_disable_heater(self) -> bool {
        (self.0 >> 3u16) & 1u16 == 1
    }

    /// Disable heater, 0x70 bit 3.
    pub fn disable_heater(&self) -> (r: bool)
        ensures
            r == self.spec_disable_heater(),
    {
        (self.0 >> 3) & 1 == 1
    }

    /// Sets or clears the disable heater flag (0x70 bit 3).
    pub fn set_disable_heater(&mut self, value: bool)
        ensures
            final(self).spec_disable_heater() == value,
            final(self).0 & 0xfff7u16 == old(self).0 & 0xfff7u16,
    {
        let old_v = self.0;
        let v = if value { old_v | 0x8 } else { old_v & 0xfff7 };
        proof {
            lemma_ctrl_gas_fields(old_v, 0);
        }
        self.0 = v;
    }
}

} // verus!

verus! {

/// Calculate the bit offset for a given byte and bit position
pub fn offset(byte: usize, bit: usize) -> (r: usize)
    requires
        byte * 8 + bit <= usize::MAX,
    ensures
        r == byte * 8 + bit,
{
    byte * 8 + bit
}

/// The bit at bit offset `offset` of `bytes`, counting from the least significant bit of the
/// first byte.
pub open spec fn spec_bit_at(bytes: Seq<u8>, offset: int) -> bool {
    (bytes[offset / 8] as int / pow2((offset % 8) as nat) as int) % 2 == 1
}

/// Reads the bit at bit offset `offset` of `bytes`.
pub fn bit_at(bytes: &[u8], offset: usize) -> (r: bool)
    requires
        offset / 8 < bytes@.len(),
    ensures
        r == spec_bit_at(bytes@, offset as int),
{
    let byte = bytes[offset / 8];
    let shift = (offset % 8) as u8;
    let r = (byte >> shift) & 1 == 1;
    proof {
        lemma2_to64();
        assert(shift < 8);
        assert((shift == 0 ==> ((byte >> shift) & 1 == 1) == ((byte / 1) % 2 == 1))
            && (shift == 1 ==> ((byte >> shift) & 1 == 1) == ((byte / 2) % 2 == 1))
            && (shift == 2 ==> ((byte >> shift) & 1 == 1) == ((byte / 4) % 2 == 1))
            && (shift == 3 ==> ((byte >> shift) & 1 == 1) == ((byte / 8) % 2 == 1))
            && (shift == 4 ==> ((byte >> shift) & 1 == 1) == ((byte / 16) % 2 == 1))
            && (shift == 5 ==> ((byte >> shift) & 1 == 1) == ((byte / 32) % 2 == 1))
            && (shift == 6 ==> ((byte >> shift) & 1 == 1) == ((byte / 64) % 2 == 1))
            && (shift == 7 ==> ((byte >> shift) & 1 == 1) == ((byte / 128) % 2 == 1))) by (bit_vector);
    }
    r
}

/// The unsigned value of two bytes stored least significant byte first.
pub open spec fn spec_u16_le(lo: u8, hi: u8) -> u16 {
    (lo as int + 256 * hi as int) as u16
}

/// The two's-complement value of two bytes stored least significant byte first.
pub open spec fn spec_i16_le(lo: u8, hi: u8) -> i16 {
    (lo as int + 256 * hi as int - (if hi >= 128 { 0x1_0000int } else { 0int })) as i16
}

/// The two's-complement value of one byte.
pub open spec fn spec_i8(b: u8) -> i8 {
    (b as int - (if b >= 128 { 0x100int } else { 0int })) as i8
}

/// Combines two bytes, least significant first, into an unsigned value.
pub fn u16_le(lo: u8, hi: u8) -> (r: u16)
    ensures
        r == spec_u16_le(lo, hi),
        r as int == lo as int + 256 * hi as int,
{
    let r = ((hi as u16) << 8) | (lo as u16);
    assert(r == lo as u16 + 256 * hi as u16) by (bit_vector)
        requires r == ((hi as u16) << 8u16) | (lo as u16);
    r
}

/// Combines two bytes, least significant first, into a two's-complement value.
pub fn i16_le(lo: u8, hi: u8) -> (r: i16)
    ensures
        r == spec_i16_le(lo, hi),
{
    let u = u16_le(lo, hi);
    let r = u as i16;
    assert((hi < 128 ==> r == u) && (hi >= 128 ==> r == u - 0x1_0000)) by (bit_vector)
        requires r == u as i16, u == lo as u16 + 256 * hi as u16;
    r
}

/// Reinterprets one byte as a two's-complement value.
pub fn i8_of(b: u8) -> (r: i8)
    ensures
        r == spec_i8(b),
{
    let r = b as i8;
    assert((b < 128 ==> r == b) && (b >= 128 ==> r == b - 0x100)) by (bit_vector)
        requires r == b as i8;
    r
}

} // verus!

verus! {

/// `value` with its two bytes swapped.
pub open spec fn spec_swap16(value: u16) -> int {
    (value % 256) as int * 256 + (value / 256) as int
}

/// `value` with its four bytes reversed.
pub open spec fn spec_swap32(value: u32) -> int {
    (value % 256) as int * 0x100_0000 + ((value / 256) % 256) as int * 0x1_0000 + ((value
        / 0x1_0000) % 256) as int * 256 + (value / 0x100_0000) as int
}

/// Humidity coefficient H1: 12 bits made of the most significant byte (0xE3) and the low nibble
/// of the shared byte 0xE2.
#[derive(Debug, Clone, Copy, PartialEq, Eq, Structural)]
pub struct H1Coeff(pub u16);

impl From<u16> for H1Coeff {
    /// `value` holds 0xE2 in its low byte and 0xE3 in its high byte.
    fn from(value: u16) -> (r: Self) {
        let lsb = (value & 0xFF) as u8;
        let msb = (value >> 8) as u8;
        let shifted = ((lsb as u32) << 4) as u8;
        let r = (((msb as u16) << 8) | (shifted as u16)) >> 4;
        assert(r == (value / 256) * 16 + value % 16) by (bit_vector)
            requires
                lsb == (value & 0xFFu16) as u8,
                msb == (value >> 8u16) as u8,
                shifted == ((lsb as u32) << 4u32) as u8,
                r == (((msb as u16) << 8u16) | (shifted as u16)) >> 4u16;
        H1Coeff(r)
    }
}

impl vstd::std_specs::convert::FromSpecImpl<u16> for H1Coeff {
    open spec fn obeys_from_spec() -> bool {
        true
    }

    open spec fn from_spec(value: u16) -> H1Coeff {
        H1Coeff(((value / 256) * 16 + value % 16) as u16)
    }
}

/// Humidity coefficient H2: 12 bits made of the most significant byte (0xE1) and the high nibble
/// of the shared byte 0xE2.
#[derive(Debug, Clone, Copy, PartialEq, Eq, Structural)]
pub struct H2Coeff(pub u16);

impl From<u16> for H2Coeff {
    /// `value` holds 0xE1 in its low byte and 0xE2 in its high byte; the bytes are taken as a
    /// big-endian number, then the low nibble of 0xE2 is dropped.
    fn from(value: u16) -> (r: Self) {
        let swapped = ((value & 0xFF) << 8) | (value >> 8);
        let r = swapped >> 4;
        assert(r == ((value % 256) * 256 + value / 256) / 16) by (bit_vector)
            requires
                swapped == ((value & 0xFFu16) << 8u16) | (value >> 8u16),
                r == swapped >> 4u16;
        H2Coeff(r)
    }
}

impl vstd::std_specs::convert::FromSpecImpl<u16> for H2Coeff {
    open spec fn obeys_from_spec() -> bool {
        true
    }

    open spec fn from_spec(value: u16) -> H2Coeff {
        H2Coeff((spec_swap16(value) / 16) as u16)
    }
}

/// Pressure ADC value represented as a 20-bit unsigned integer.
#[derive(Debug, Clone, Copy, PartialEq, Eq, Structural)]
pub struct PressureAdc(pub u32);

/// Reads three register bytes, first byte most significant, as the 20-bit value in their top bits.
fn adc20(value: u32) -> (r: u32)
    ensures
        r == spec_swap32(value) / 4096,
        r < 0x10_0000,
{
    let swapped = ((value & 0xFF) << 24) | (((value >> 8) & 0xFF) << 16) | (((value >> 16) & 0xFF)
        << 8) | (value >> 24);
    let r = swapped >> 12;
    assert(r == ((value % 256) * 0x100_0000 + ((value / 256) % 256) * 0x1_0000 + ((value / 0x1_0000)
        % 256) * 256 + value / 0x100_0000) / 4096 && r < 0x10_0000) by (bit_vector)
        requires
            swapped == ((value & 0xFFu32) << 24u32) | (((value >> 8u32) & 0xFFu32) << 16u32) | (((
            value >> 16u32) & 0xFFu32) << 8u32) | (value >> 24u32),
            r == swapped >> 12u32;
    r
}

impl From<u32> for PressureAdc {
    /// The register bytes are taken as a big-endian number whose top 20 bits are the reading.
    fn from(value: u32) -> (r: Self) {
        PressureAdc(adc20(value))
    }
}

impl vstd::std_specs::convert::FromSpecImpl<u32> for PressureAdc {
    open spec fn obeys_from_spec() -> bool {
        true
    }

    open spec fn from_spec(value: u32) -> PressureAdc {
        PressureAdc((spec_swap32(value) / 4096) as u32)
    }
}

/// Temperature ADC value represented as a 20-bit unsigned integer.
#[derive(Debug, Clone, Copy, PartialEq, Eq, Structural)]
pub struct TemperatureAdc(pub u32);

impl From<u32> for TemperatureAdc {
    /// The register bytes are taken as a big-endian number whose top 20 bits are the reading.
    fn from(value: u32) -> (r: Self) {
        TemperatureAdc(adc20(value))
    }
}

impl vstd::std_specs::convert::FromSpecImpl<u32> for TemperatureAdc {
    open spec fn obeys_from_spec() -> bool {
        true
    }

    open spec fn from_spec(value: u32) -> TemperatureAdc {
        TemperatureAdc((spec_swap32(value) / 4096) as u32)
    }
}

/// Humidity ADC value represented as a 16-bit unsigned integer.
#[derive(Debug, Clone, Copy, PartialEq, Eq, Structural)]
pub struct HumidityAdc(pub u16);

impl From<u16> for HumidityAdc {
    /// The register bytes are taken as a big-endian number.
    fn from(value: u16) -> (r: Self) {
        let r = ((value & 0xFF) << 8) | (value >> 8);
        assert(r == (value % 256) * 256 + value / 256) by (bit_vector)
            requires r == ((value & 0xFFu16) << 8u16) | (value >> 8u16);
        HumidityAdc(r)
    }
}

impl vstd::std_specs::convert::FromSpecImpl<u16> for HumidityAdc {
    open spec fn obeys_from_spec() -> bool {
        true
    }

    open spec fn from_spec(value: u16) -> HumidityAdc {
        HumidityAdc(spec_swap16(value) as u16)
    }
}

/// Gas resistance ADC value represented as a 10-bit unsigned integer.
#[derive(Debug, Clone, Copy, PartialEq, Eq, Structural)]
pub struct GasResistanceAdc(pub u16);

impl From<u16> for GasResistanceAdc {
    /// The register bytes are taken as a big-endian number whose top 10 bits are the reading.
    fn from(value: u16) -> (r: Self) {
        let swapped = ((value & 0xFF) << 8) | (value >> 8);
        let r = swapped >> 6;
        assert(r == ((value % 256) * 256 + value / 256) / 64) by (bit_vector)
            requires
                swapped == ((value & 0xFFu16) << 8u16) | (value >> 8u16),
                r == swapped >> 6u16;
        GasResistanceAdc(r)
    }
}

impl vstd::std_specs::convert::FromSpecImpl<u16> for GasResistanceAdc {
    open spec fn obeys_from_spec() -> bool {
        true
    }

    open spec fn from_spec(value: u16) -> GasResistanceAdc {
        GasResistanceAdc((spec_swap16(value) / 64) as u16)
    }
}

} // verus!

verus! {

/// Combines three bytes, least significant first, into an unsigned value.
fn u24_le(b0: u8, b1: u8, b2: u8) -> (raw: u32)
    ensures
        raw % 256 == b0,
        (raw / 256) % 256 == b1,
        (raw / 0x1_0000) % 256 == b2,
        raw / 0x100_0000 == 0,
{
    let raw = (b0 as u32) | ((b1 as u32) << 8) | ((b2 as u32) << 16);
    assert(raw % 256 == b0 && (raw / 256) % 256 == b1 && (raw / 0x1_0000) % 256 == b2 && raw
        / 0x100_0000 == 0) by (bit_vector)
        requires raw == (b0 as u32) | ((b1 as u32) << 8u32) | ((b2 as u32) << 16u32);
    raw
}

/// One block of measurement field registers (17 bytes starting at 0x1D, 0x2E or 0x3F).
#[derive(Debug, Clone, Copy, PartialEq, Eq)]
pub struct FieldData(pub [u8; 17]);

impl FieldData {
    /// Byte `i` of the block.
    pub open spec fn byte(self, i: int) -> u8 {
        self.0@[i]
    }

    /// New data flag (byte 0, bit 7)
    pub fn new_data(&self) -> (r: bool)
        ensures
            r == spec_bit_at(self.0@, 7),
    {
        bit_at(&self.0, offset(0, 7))
    }

    /// Gas measuring flag (byte 0, bit 6)
    pub fn gas_measuring(&self) -> (r: bool)
        ensures
            r == spec_bit_at(self.0@, 6),
    {
        bit_at(&self.0, offset(0, 6))
    }

    /// TPHG measuring flag (byte 0, bit 5)
    pub fn measuring(&self) -> (r: bool)
        ensures
            r == spec_bit_at(self.0@, 5),
    {
        bit_at(&self.0, offset(0, 5))
    }

    /// Gas measurement index (byte 0, bits 3–0)
    pub fn gas_meas_index(&self) -> (r: u8)
        ensures
            r == self.byte(0) % 16,
    {
        self.0[0] % 16
    }

    /// TPHG measurement index (byte 1)
    pub fn meas_index(&self) -> (r: u8)
        ensures
            r == self.byte(1),
    {
        self.0[1]
    }

    /// Pressure MSB (byte 2), LSB (byte 3), and XLSB (byte 4, bits 7–4)
    pub fn press_adc(&self) -> (r: PressureAdc)
        ensures
            r.0 == self.byte(2) as int * 4096 + self.byte(3) as int * 16 + self.byte(4) as int / 16,
    {
        let raw = u24_le(self.0[2], self.0[3], self.0[4]);
        PressureAdc::from(raw)
    }

    /// Temperature MSB (byte 5), LSB (byte 6), and XLSB (byte 7, bits 7–4)
    pub fn temp_adc(&self) -> (r: TemperatureAdc)
        ensures
            r.0 == self.byte(5) as int * 4096 + self.byte(6) as int * 16 + self.byte(7) as int / 16,
    {
        let raw = u24_le(self.0[5], self.0[6], self.0[7]);
        TemperatureAdc::from(raw)
    }

    /// Humidity MSB (byte 8) and LSB (byte 9)
    pub fn hum_adc(&self) -> (r: HumidityAdc)
        ensures
            r.0 == self.byte(8) as int * 256 + self.byte(9) as int,
    {
        HumidityAdc::from(u16_le(self.0[8], self.0[9]))
    }

    /// Gas resistance MSB (byte 15) and LSB (byte 16, bits 7–6)
    pub fn gas_res_adc(&self) -> (r: GasResistanceAdc)
        ensures
            r.0 == self.byte(15) as int * 4 + self.byte(16) as int / 64,
    {
        GasResistanceAdc::from(u16_le(self.0[15], self.0[16]))
    }

    /// Gas measurement valid flag (byte 16, bit 5)
    pub fn gas_valid(&self) -> (r: bool)
        ensures
            r == spec_bit_at(self.0@, 133),
    {
        bit_at(&self.0, offset(16, 5))
    }

    /// Gas measurement stable flag (byte 16, bit 4)
    pub fn heater_stable(&self) -> (r: bool)
        ensures
            r == spec_bit_at(self.0@, 132),
    {
        bit_at(&self.0, offset(16, 4))
    }

    /// Gas range (byte 16, bits 3–0)
    pub fn gas_range(&self) -> (r: u8)
        ensures
            r == self.byte(16) % 16,
    {
        self.0[16] % 16
    }
}

/// The calibration coefficient registers as read from the sensor: 23 bytes from 0x8A, 14 bytes
/// from 0xE1, then 5 bytes from 0x00.
#[derive(Debug, Clone, Copy, PartialEq, Eq)]
pub struct Coeffs(pub [u8; 42]);

/// Register address of field data block `index`.
pub fn field_data_register(index: u8) -> (r: u8)
    requires
        index < MAX_FIELD_COUNT,
    ensures
        r == REG_FIELD_0 + index * LEN_FIELD,
{
    REG_FIELD_0 + index * (LEN_FIELD as u8)
}

/// Register address of the gas wait setting of heater profile `index`.
pub fn gas_wait_register(index: u8) -> (r: u8)
    requires
        index < MAX_HEATER_PROFILES,
    ensures
        r == REG_GAS_WAIT_0 + index,
{
    REG_GAS_WAIT_0 + index
}

/// Register address of the heater current setting of heater profile `index`.
pub fn idac_heat_register(index: u8) -> (r: u8)
    requires
        index < MAX_HEATER_PROFILES,
    ensures
        r == REG_IDAC_HEAT_0 + index,
{
    REG_IDAC_HEAT_0 + index
}

/// Register address of the heater resistance setting of heater profile `index`.
pub fn res_heat_register(index: u8) -> (r: u8)
    requires
        index < MAX_HEATER_PROFILES,
    ensures
        r == REG_RES_HEAT_0 + index,
{
    REG_RES_HEAT_0 + index
}

/// The two single-byte writes that store the control gas registers: `(0x70, low byte)` then
/// `(0x71, high byte)`.
pub fn ctrl_gas_writes(ctrl_gas: CtrlGas) -> (r: [(u8, u8); 2])
    ensures
        r@[0] == (REG_CTRL_GAS_0, (ctrl_gas.0 % 256) as u8),
        r@[1] == (REG_CTRL_GAS_1, (ctrl_gas.0 / 256) as u8),
{
    let v = ctrl_gas.0;
    let lsb = (v & 0xFF) as u8;
    let msb = (v >> 8) as u8;
    assert(lsb == v % 256 && msb == v / 256) by (bit_vector)
        requires lsb == (v & 0xFFu16) as u8, msb == (v >> 8u16) as u8;
    [(REG_CTRL_GAS_0, lsb), (REG_CTRL_GAS_1, msb)]
}

/// The control gas registers decoded from the two bytes read from 0x70 and 0x71.
pub fn ctrl_gas_from_bytes(bytes: [u8; 2]) -> (r: CtrlGas)
    ensures
        r.0 as int == bytes@[0] as int + 256 * bytes@[1] as int,
{
    CtrlGas(u16_le(bytes[0], bytes[1]))
}

/// Writing the control gas registers and reading them back gives the same value.
pub proof fn lemma_ctrl_gas_roundtrip(ctrl_gas: CtrlGas, written: [(u8, u8); 2], readback: [u8; 2])
    requires
        written@[0] == (REG_CTRL_GAS_0, (ctrl_gas.0 % 256) as u8),
        written@[1] == (REG_CTRL_GAS_1, (ctrl_gas.0 / 256) as u8),
        readback@[0] == written@[0].1,
        readback@[1] == written@[1].1,
    ensures
        readback@[0] as int + 256 * readback@[1] as int == ctrl_gas.0,
{
}

/// Splits the 51 bytes read from field data block 0 onwards into the three blocks.
pub fn split_field_data(buffer: &[u8; 51]) -> (r: [FieldData; 3])
    ensures
        forall|k: int, i: int|
            0 <= k < 3 && 0 <= i < 17 ==> #[trigger] r@[k].0@[i] == buffer@[k * 17 + i],
{
    let mut blocks: [[u8; 17]; 3] = [[0u8; 17]; 3];
    let mut k: usize = 0;
    while k < 3
        invariant
            0 <= k <= 3,
            forall|kk: int, i: int|
                0 <= kk < k && 0 <= i < 17 ==> #[trigger] blocks@[kk]@[i] == buffer@[kk * 17 + i],
        decreases 3 - k,
    {
        let mut block = [0u8; 17];
        let mut i: usize = 0;
        while i < 17
            invariant
                0 <= k < 3,
                0 <= i <= 17,
                forall|j: int| 0 <= j < i ==> #[trigger] block@[j] == buffer@[k * 17 + j],
            decreases 17 - i,
        {
            block[i] = buffer[k * 17 + i];
            i = i + 1;
        }
        blocks[k] = block;
        k = k + 1;
    }
    [FieldData(blocks[0]), FieldData(blocks[1]), FieldData(blocks[2])]
}

} // verus!

verus! {

/// Every operating mode, filter setting and standby time survives encoding and decoding, and
/// decoding then encoding keeps the low bits of the raw field.
pub proof fn lemma_field_enums_roundtrip(mode: Mode, filter: Filter, standby: StandbyTime, value: u8)
    ensures
        Mode::spec_from_bits(mode.spec_bits()) == mode,
        Filter::spec_from_bits(filter.spec_bits()) == filter,
        StandbyTime::spec_from_bits(standby.spec_bits()) == standby,
        Mode::spec_from_bits(value).spec_bits() == value % 4,
        Filter::spec_from_bits(value).spec_bits() == value % 8,
        StandbyTime::spec_from_bits(value).spec_bits() == value % 8,
{
}

/// Every oversampling setting survives encoding and decoding; the raw codes 110b and 111b, which
/// the sensor does not define, decode as 16x oversampling.
pub proof fn lemma_oversampling_roundtrip(oversampling: Oversampling, value: u8)
    ensures
        Oversampling::spec_from_bits(oversampling.spec_bits()) == oversampling,
        value % 8 <= 5 ==> Oversampling::spec_from_bits(value).spec_bits() == value % 8,
        value % 8 > 5 ==> Oversampling::spec_from_bits(value) == Oversampling::X16,
{
}

} // verus!

verus! {

/// The number of samples that an oversampling code asks the sensor for, as the datasheet
/// defines the codes: none for 000, `2^(code - 1)` for 001 to 101.
pub open spec fn spec_code_samples(code: u8) -> nat {
    if code == 0 {
        0
    } else {
        pow2((code - 1) as nat)
    }
}

/// The standby time, in microseconds, that a standby code asks for, as the datasheet defines
/// the codes: 0.59, 62.5, 125, 250, 500 and 1000 ms for 000 to 101, then 10 and 20 ms.
pub open spec fn spec_code_standby_us(code: u8) -> nat {
    if code == 0 {
        590
    } else if code <= 5 {
        62_500 * pow2((code - 1) as nat)
    } else {
        (10_000 * (code as int - 5)) as nat
    }
}

/// The IIR filter size that a filter code selects: `2^code - 1` (0 for off).
pub open spec fn spec_code_filter_size(code: u8) -> nat {
    (pow2(code as nat) - 1) as nat
}

/// Every oversampling setting is written as the code that asks for its own number of samples,
/// and a measurement runs one cycle per sample: X1, X2, X4, X8 and X16 take 1, 2, 4, 8 and 16
/// samples, and skipping takes none.
pub proof fn lemma_oversampling_codes(s: Oversampling)
    ensures
        s.spec_cycles() == spec_code_samples(s.spec_bits()),
        s.spec_bits() <= 5,
        s == Oversampling::Skipped ==> s.spec_cycles() == 0,
        s == Oversampling::X1 ==> s.spec_cycles() == 1,
        s == Oversampling::X2 ==> s.spec_cycles() == 2,
        s == Oversampling::X4 ==> s.spec_cycles() == 4,
        s == Oversampling::X8 ==> s.spec_cycles() == 8,
        s == Oversampling::X16 ==> s.spec_cycles() == 16,
{
    lemma2_to64();
}

/// Decoding an oversampling code gives the setting that takes the code's number of samples;
/// the undefined codes 110 and 111 decode as 16 samples.
pub proof fn lemma_oversampling_decodes_samples(value: u8)
    ensures
        value % 8 <= 5 ==> Oversampling::spec_from_bits(value).spec_cycles() == spec_code_samples(value % 8),
        value % 8 > 5 ==> Oversampling::spec_from_bits(value).spec_cycles() == 16,
{
    lemma2_to64();
}

/// Every standby time is written as the code that asks for that time: 0.59, 62.5, 125, 250,
/// 500, 1000, 10 and 20 ms are codes 000 to 111; decoding a code gives the time it asks for.
pub proof fn lemma_standby_codes(t: StandbyTime, value: u8)
    ensures
        t == StandbyTime::Ms0_59 ==> spec_code_standby_us(t.spec_bits()) == 590,
        t == StandbyTime::Ms62_5 ==> spec_code_standby_us(t.spec_bits()) == 62_500,
        t == StandbyTime::Ms125 ==> spec_code_standby_us(t.spec_bits()) == 125_000,
        t == StandbyTime::Ms250 ==> spec_code_standby_us(t.spec_bits()) == 250_000,
        t == StandbyTime::Ms500 ==> spec_code_standby_us(t.spec_bits()) == 500_000,
        t == StandbyTime::Ms1000 ==> spec_code_standby_us(t.spec_bits()) == 1_000_000,
        t == StandbyTime::Ms10 ==> spec_code_standby_us(t.spec_bits()) == 10_000,
        t == StandbyTime::Ms20 ==> spec_code_standby_us(t.spec_bits()) == 20_000,
        t.spec_bits() < 8,
        StandbyTime::spec_from_bits(value).spec_bits() == value % 8,
{
    lemma2_to64();
}

/// Every filter setting is written as the code that selects its size: Size1, Size3, ...,
/// Size127 are the codes 001 to 111, size `2^code - 1`, and off is 000.
pub proof fn lemma_filter_codes(f: Filter)
    ensures
        f == Filter::Off ==> spec_code_filter_size(f.spec_bits()) == 0,
        f == Filter::Size1 ==> spec_code_filter_size(f.spec_bits()) == 1,
        f == Filter::Size3 ==> spec_code_filter_size(f.spec_bits()) == 3,
        f == Filter::Size7 ==> spec_code_filter_size(f.spec_bits()) == 7,
        f == Filter::Size15 ==> spec_code_filter_size(f.spec_bits()) == 15,
        f == Filter::Size31 ==> spec_code_filter_size(f.spec_bits()) == 31,
        f == Filter::Size63 ==> spec_code_filter_size(f.spec_bits()) == 63,
        f == Filter::Size127 ==> spec_code_filter_size(f.spec_bits()) == 127,
        f.spec_bits() < 8,
{
    lemma2_to64();
}

} // verus!
