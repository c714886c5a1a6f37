//! Driver logic for the Bosch BME688 gas, pressure, temperature and humidity sensor.
use vstd::prelude::*;

pub mod config;
pub mod control;
pub mod error;
pub mod math;
pub mod registers;
pub mod sealed;

pub use config::{forced, parallel, sequential};
pub use error::Error;
pub use registers::MAX_FIELD_COUNT as MAX_MEASUREMENTS;
pub use registers::{Filter, Mode, Oversampling, StandbyTime};

use registers::{spec_i16_le, spec_i8, spec_u16_le, i16_le, i8_of, u16_le, H1Coeff, H2Coeff};

verus! {

/// I2C slave address of the sensor.
#[derive(Debug, Clone, Copy, PartialEq, Eq, Structural)]
pub enum SlaveAddress {
    /// Primary slave address (0x76)
    Primary,
    /// Secondary slave address (0x77)
    Secondary,
    /// Other slave address (0x00 - 0x7F)
    Other(u8),
}

impl SlaveAddress {
    /// The bus address selected by this value.
    pub open spec fn spec_address(self) -> u8 {
        match self {
            SlaveAddress::Primary => 0x76,
            SlaveAddress::Secondary => 0x77,
            SlaveAddress::Other(value) => value,
        }
    }
}

impl Default for SlaveAddress {
    fn default() -> (r: Self)
        ensures
            r == SlaveAddress::Primary,
    {
        SlaveAddress::Primary
    }
}

impl From<SlaveAddress> for u8 {
    fn from(address: SlaveAddress) -> (r: Self) {
        match address {
            SlaveAddress::Primary => 0x76,
            SlaveAddress::Secondary => 0x77,
            SlaveAddress::Other(value) => value,
        }
    }
}

impl vstd::std_specs::convert::FromSpecImpl<SlaveAddress> for u8 {
    open spec fn obeys_from_spec() -> bool {
        true
    }

    open spec fn from_spec(address: SlaveAddress) -> u8 {
        address.spec_address()
    }
}

/// Calibration coefficients of one sensor.
#[derive(Debug, Clone, Copy, PartialEq, Eq, Structural)]
pub struct Coeffs {
    /// Temperature compensation coefficient T1
    pub t1: u16,
    /// Temperature compensation coefficient T2
    pub t2: i16,
    /// Temperature compensation coefficient T3
    pub t3: i8,
    /// Pressure compensation coefficient P1
    pub p1: u16,
    /// Pressure compensation coefficient P2
    pub p2: i16,
    /// Pressure compensation coefficient P3
    pub p3: i8,
    /// Pressure compensation coefficient P4
    pub p4: i16,
    /// Pressure compensation coefficient P5
    pub p5: i16,
    /// Pressure compensation coefficient P6
    pub p6: i8,
    /// Pressure compensation coefficient P7
    pub p7: i8,
    /// Pressure compensation coefficient P8
    pub p8: i16,
    /// Pressure compensation coefficient P9
    pub p9: i16,
    /// Pressure compensation coefficient P10
    pub p10: u8,
    /// Humidity compensation coefficient H1
    pub h1: u16,
    /// Humidity compensation coefficient H2
    pub h2: u16,
    /// Humidity compensation coefficient H3
    pub h3: i8,
    /// Humidity compensation coefficient H4
    pub h4: i8,
    /// Humidity compensation coefficient H5
    pub h5: i8,
    /// Humidity compensation coefficient H6
    pub h6: u8,
    /// Humidity compensation coefficient H7
    pub h7: i8,
    /// Gas resistance compensation coefficient G1
    pub g1: i8,
    /// Gas resistance compensation coefficient G2
    pub g2: i16,
    /// Gas resistance compensation coefficient G3
    pub g3: i8,
    /// Heater resistance value
    pub res_heat_val: i8,
    /// Heater resistance range
    pub res_heat_range: u8,
    /// Range switching error
    pub range_sw_error: i8,
}

impl Default for Coeffs {
    fn default() -> (r: Self)
        ensures
            r.t1 == 0,
            r.t2 == 0,
            r.t3 == 0,
            r.p1 == 0,
            r.p2 == 0,
            r.p3 == 0,
            r.p4 == 0,
            r.p5 == 0,
            r.p6 == 0,
            r.p7 == 0,
            r.p8 == 0,
            r.p9 == 0,
            r.p10 == 0,
            r.h1 == 0,
            r.h2 == 0,
            r.h3 == 0,
            r.h4 == 0,
            r.h5 == 0,
            r.h6 == 0,
            r.h7 == 0,
            r.g1 == 0,
            r.g2 == 0,
            r.g3 == 0,
            r.res_heat_val == 0,
            r.res_heat_range == 0,
            r.range_sw_error == 0,
    {
        Coeffs {
            t1: 0,
            t2: 0,
            t3: 0,
            p1: 0,
            p2: 0,
            p3: 0,
            p4: 0,
            p5: 0,
            p6: 0,
            p7: 0,
            p8: 0,
            p9: 0,
            p10: 0,
            h1: 0,
            h2: 0,
            h3: 0,
            h4: 0,
            h5: 0,
            h6: 0,
            h7: 0,
            g1: 0,
            g2: 0,
            g3: 0,
            res_heat_val: 0,
            res_heat_range: 0,
            range_sw_error: 0,
        }
    }
}

impl Coeffs {
    /// The coefficients encoded by the 42 calibration bytes `raw` (see [`registers::Coeffs`]):
    /// two-byte values are stored least significant byte first.
    pub open spec fn spec_from_raw(raw: Seq<u8>) -> Coeffs {
        Coeffs {
            t1: spec_u16_le(raw[31], raw[32]),
            t2: spec_i16_le(raw[0], raw[1]),
            t3: spec_i8(raw[2]),
            p1: spec_u16_le(raw[4], raw[5]),
            p2: spec_i16_le(raw[6], raw[7]),
            p3: spec_i8(raw[8]),
            p4: spec_i16_le(raw[10], raw[11]),
            p5: spec_i16_le(raw[12], raw[13]),
            p6: spec_i8(raw[15]),
            p7: spec_i8(raw[14]),
            p8: spec_i16_le(raw[18], raw[19]),
            p9: spec_i16_le(raw[20], raw[21]),
            p10: raw[22],
            h1: (raw[25] as int * 16 + raw[24] as int % 16) as u16,
            h2: (raw[23] as int * 16 + raw[24] as int / 16) as u16,
            h3: spec_i8(raw[26]),
            h4: spec_i8(raw[27]),
            h5: spec_i8(raw[28]),
            h6: raw[29],
            h7: spec_i8(raw[30]),
            g1: spec_i8(raw[35]),
            g2: spec_i16_le(raw[33], raw[34]),
            g3: spec_i8(raw[36]),
            res_heat_val: spec_i8(raw[37]),
            res_heat_range: (raw[39] % 4) as u8,
            range_sw_error: spec_i8(raw[41]),
        }
    }
}

impl From<registers::Coeffs> for Coeffs {
    fn from(raw: registers::Coeffs) -> (r: Self) {
        let raw = raw.0;
        Coeffs {
            t1: u16_le(raw[31], raw[32]),
            t2: i16_le(raw[0], raw[1]),
            t3: i8_of(raw[2]),
            p1: u16_le(raw[4], raw[5]),
            p2: i16_le(raw[6], raw[7]),
            p3: i8_of(raw[8]),
            p4: i16_le(raw[10], raw[11]),
            p5: i16_le(raw[12], raw[13]),
            p6: i8_of(raw[15]),
            p7: i8_of(raw[14]),
            p8: i16_le(raw[18], raw[19]),
            p9: i16_le(raw[20], raw[21]),
            p10: raw[22],
            h1: H1Coeff::from(u16_le(raw[24], raw[25])).0,
            h2: H2Coeff::from(u16_le(raw[23], raw[24])).0,
            h3: i8_of(raw[26]),
            h4: i8_of(raw[27]),
            h5: i8_of(raw[28]),
            h6: raw[29],
            h7: i8_of(raw[30]),
            g1: i8_of(raw[35]),
            g2: i16_le(raw[33], raw[34]),
            g3: i8_of(raw[36]),
            res_heat_val: i8_of(raw[37]),
            res_heat_range: raw[39] % 4,
            range_sw_error: i8_of(raw[41]),
        }
    }
}

impl vstd::std_specs::convert::FromSpecImpl<registers::Coeffs> for Coeffs {
    open spec fn obeys_from_spec() -> bool {
        true
    }

    open spec fn from_spec(raw: registers::Coeffs) -> Coeffs {
        Coeffs::spec_from_raw(raw.0@)
    }
}

/// The datasheet register at `address` among the 42 calibration bytes: 0x8A to 0xA0 come
/// first, then 0xE1 to 0xEE, then 0x00 to 0x04.
pub open spec fn spec_calibration_register(raw: Seq<u8>, address: int) -> int {
    if 0x8A <= address <= 0xA0 {
        raw[address - 0x8A] as int
    } else if 0xE1 <= address <= 0xEE {
        raw[address - 0xE1 + 23] as int
    } else {
        raw[address + 37] as int
    }
}

/// `value`, a 16-bit pattern, read as two's complement.
pub open spec fn spec_signed16(value: int) -> int {
    if value >= 0x8000 { value - 0x1_0000 } else { value }
}

/// `value`, an 8-bit pattern, read as two's complement.
pub open spec fn spec_signed8(value: int) -> int {
    if value >= 0x80 { value - 0x100 } else { value }
}

/// Each calibration coefficient is read from its datasheet registers: a two-byte coefficient is
/// the little-endian value of its register pair (least significant register first), signed
/// where the coefficient is; H1 and H2 share register 0xE2, H1 taking its low nibble below 0xE3
/// and H2 its high nibble below 0xE1; the heater range is the low two bits of 0x02.
pub proof fn lemma_coefficients_from_registers(raw: [u8; 42])
    ensures
        ({
            let c = Coeffs::spec_from_raw(raw@);
            let reg = |a: int| spec_calibration_register(raw@, a);
            &&& c.t1 == reg(0xE9) + 256 * reg(0xEA)
            &&& c.t2 == spec_signed16(reg(0x8A) + 256 * reg(0x8B))
            &&& c.t3 == spec_signed8(reg(0x8C))
            &&& c.p1 == reg(0x8E) + 256 * reg(0x8F)
            &&& c.p2 == spec_signed16(reg(0x90) + 256 * reg(0x91))
            &&& c.p3 == spec_signed8(reg(0x92))
            &&& c.p4 == spec_signed16(reg(0x94) + 256 * reg(0x95))
            &&& c.p5 == spec_signed16(reg(0x96) + 256 * reg(0x97))
            &&& c.p6 == spec_signed8(reg(0x99))
            &&& c.p7 == spec_signed8(reg(0x98))
            &&& c.p8 == spec_signed16(reg(0x9C) + 256 * reg(0x9D))
            &&& c.p9 == spec_signed16(reg(0x9E) + 256 * reg(0x9F))
            &&& c.p10 == reg(0xA0)
            &&& c.h1 == reg(0xE3) * 16 + reg(0xE2) % 16
            &&& c.h2 == reg(0xE1) * 16 + reg(0xE2) / 16
            &&& c.h3 == spec_signed8(reg(0xE4))
            &&& c.h4 == spec_signed8(reg(0xE5))
            &&& c.h5 == spec_signed8(reg(0xE6))
            &&& c.h6 == reg(0xE7)
            &&& c.h7 == spec_signed8(reg(0xE8))
            &&& c.g1 == spec_signed8(reg(0xED))
            &&& c.g2 == spec_signed16(reg(0xEB) + 256 * reg(0xEC))
            &&& c.g3 == spec_signed8(reg(0xEE))
            &&& c.res_heat_val == spec_signed8(reg(0x00))
            &&& c.res_heat_range == reg(0x02) % 4
            &&& c.range_sw_error == spec_signed8(reg(0x04))
        }),
{
}

/// The bit manipulations of the status flag setters: each sets or clears its flag and keeps
/// every other bit.
proof fn lemma_status_flags(v: u8)
    ensures
        ((v | 0x80u8) >> 7u8) & 1u8 == 1,
        (v | 0x80u8) & 0x7fu8 == v & 0x7fu8,
        ((v & 0x7fu8) >> 7u8) & 1u8 != 1,
        (v & 0x7fu8) & 0x7fu8 == v & 0x7fu8,
        ((v | 0x40u8) >> 6u8) & 1u8 == 1,
        (v | 0x40u8) & 0xbfu8 == v & 0xbfu8,
        ((v & 0xbfu8) >> 6u8) & 1u8 != 1,
        (v & 0xbfu8) & 0xbfu8 == v & 0xbfu8,
        ((v | 0x20u8) >> 5u8) & 1u8 == 1,
        (v | 0x20u8) & 0xdfu8 == v & 0xdfu8,
        ((v & 0xdfu8) >> 5u8) & 1u8 != 1,
        (v & 0xdfu8) & 0xdfu8 == v & 0xdfu8,
        ((v | 0x10u8) >> 4u8) & 1u8 == 1,
        (v | 0x10u8) & 0xefu8 == v & 0xefu8,
        ((v & 0xefu8) >> 4u8) & 1u8 != 1,
        (v & 0xefu8) & 0xefu8 == v & 0xefu8,
        ((v | 0x8u8) >> 3u8) & 1u8 == 1,
        (v | 0x8u8) & 0xf7u8 == v & 0xf7u8,
        ((v & 0xf7u8) >> 3u8) & 1u8 != 1,
        (v & 0xf7u8) & 0xf7u8 == v & 0xf7u8,
{
    assert((((v | 0x80u8) >> 7u8) & 1u8 == 1)
        && ((v | 0x80u8) & 0x7fu8 == v & 0x7fu8)
        && (((v & 0x7fu8) >> 7u8) & 1u8 != 1)
        && ((v & 0x7fu8) & 0x7fu8 == v & 0x7fu8)
        && (((v | 0x40u8) >> 6u8) & 1u8 == 1)
        && ((v | 0x40u8) & 0xbfu8 == v & 0xbfu8)
        && (((v & 0xbfu8) >> 6u8) & 1u8 != 1)
        && ((v & 0xbfu8) & 0xbfu8 == v & 0xbfu8)
        && (((v | 0x20u8) >> 5u8) & 1u8 == 1)
        && ((v | 0x20u8) & 0xdfu8 == v & 0xdfu8)
        && (((v & 0xdfu8) >> 5u8) & 1u8 != 1)
        && ((v & 0xdfu8) & 0xdfu8 == v & 0xdfu8)
        && (((v | 0x10u8) >> 4u8) & 1u8 == 1)
        && ((v | 0x10u8) & 0xefu8 == v & 0xefu8)
        && (((v & 0xefu8) >> 4u8) & 1u8 != 1)
        && ((v & 0xefu8) & 0xefu8 == v & 0xefu8)
        && (((v | 0x8u8) >> 3u8) & 1u8 == 1)
        && ((v | 0x8u8) & 0xf7u8 == v & 0xf7u8)
        && (((v & 0xf7u8) >> 3u8) & 1u8 != 1)
        && ((v & 0xf7u8) & 0xf7u8 == v & 0xf7u8)) by (bit_vector);
}

/// Represents the status of the sensor, including flags for new data, measuring state, gas
/// measurement state, and heater stability.
#[derive(Debug, Clone, Copy, PartialEq, Eq, Structural)]
pub struct Status(pub u8);

impl Status {
    /// Indicates if new data is available from the sensor (bit 7).
    pub open spec fn spec_is_new_data(self) -> bool {
        (self.0 >> 7u8) & 1u8 == 1
    }

    /// Indicates if new data is available from the sensor.
    pub fn is_new_data(&self) -> (r: bool)
        ensures
            r == self.spec_is_new_data(),
    {
        (self.0 >> 7) & 1 == 1
    }

    /// Sets or clears the new data flag.
    pub fn set_is_new_data(&mut self, value: bool)
        ensures
            final(self).spec_is_new_data() == value,
            final(self).0 & 0x7fu8 == old(self).0 & 0x7fu8,
    {
        let old_v = self.0;
        let v = if value { old_v | 0x80 } else { old_v & 0x7f };
        proof {
            lemma_status_flags(old_v);
        }
        self.0 = v;
    }

    /// Indicates if the sensor is currently measuring temperature, pressure, humidity, or gas resistance (bit 6).
    pub open spec fn spec_is_measuring(self) -> bool {
        (self.0 >> 6u8) & 1u8 == 1
    }

    /// Indicates if the sensor is currently measuring temperature, pressure, humidity, or gas resistance.
    pub fn is_measuring(&self) -> (r: bool)
        ensures
            r == self.spec_is_measuring(),
    {
        (self.0 >> 6) & 1 == 1
    }

    /// Sets or clears the measuring flag.
    pub fn set_is_measuring(&mut self, value: bool)
        ensures
            final(self).spec_is_measuring() == value,
            final(self).0 & 0xbfu8 == old(self).0 & 0xbfu8,
    {
        let old_v = self.0;
        let v = if value { old_v | 0x40 } else { old_v & 0xbf };
        proof {
            lemma_status_flags(old_v);
        }
        self.0 = v;
    }

    /// Indicates if the sensor is currently measuring gas resistance (bit 5).
    pub open spec fn spec_is_gas_measuring(self) -> bool {
        (self.0 >> 5u8) & 1u8 == 1
    }

    /// Indicates if the sensor is currently measuring gas resistance.
    pub fn is_gas_measuring(&self) -> (r: bool)
        ensures
            r == self.spec_is_gas_measuring(),
    {
        (self.0 >> 5) & 1 == 1
    }

    /// Sets or clears the gas measuring flag.
    pub fn set_is_gas_measuring(&mut self, value: bool)
        ensures
            final(self).spec_is_gas_measuring() == value,
            final(self).0 & 0xdfu8 == old(self).0 & 0xdfu8,
    {
        let old_v = self.0;
        let v = if value { old_v | 0x20 } else { old_v & 0xdf };
        proof {
            lemma_status_flags(old_v);
        }
        self.0 = v;
    }

    /// Indicates if the gas measurement is valid (i.e., the heater has reached the target temperature) (bit 4).
    pub open spec fn spec_is_gas_valid(self) -> bool {
        (self.0 >> 4u8) & 1u8 == 1
    }

    /// Indicates if the gas measurement is valid (i.e., the heater has reached the target temperature).
    pub fn is_gas_valid(&self) -> (r: bool)
        ensures
            r == self.spec_is_gas_valid(),
    {
        (self.0 >> 4) & 1 == 1
    }

    /// Sets or clears the gas valid flag.
    pub fn set_is_gas_valid(&mut self, value: bool)
        ensures
            final(self).spec_is_gas_valid() == value,
            final(self).0 & 0xefu8 == old(self).0 & 0xefu8,
    {
        let old_v = self.0;
        let v = if value { old_v | 0x10 } else { old_v & 0xef };
        proof {
            lemma_status_flags(old_v);
        }
        self.0 = v;
    }

    /// Indicates if the heater is stable (i.e., the heater has reached the target temperature and is maintaining it) (bit 3).
    pub open spec fn spec_is_heater_stable(self) -> bool {
        (self.0 >> 3u8) & 1u8 == 1
    }

    /// Indicates if the heater is stable (i.e., the heater has reached the target temperature and is maintaining it).
    pub fn is_heater_stable(&self) -> (r: bool)
        ensures
            r == self.spec_is_heater_stable(),
    {
        (self.0 >> 3) & 1 == 1
    }

    /// Sets or clears the heater stable flag.
    pub fn set_is_heater_stable(&mut self, value: bool)
        ensures
            final(self).spec_is_heater_stable() == value,
            final(self).0 & 0xf7u8 == old(self).0 & 0xf7u8,
    {
        let old_v = self.0;
        let v = if value { old_v | 0x8 } else { old_v & 0xf7 };
        proof {
            lemma_status_flags(old_v);
        }
        self.0 = v;
    }
}

/// Marker for a driver that has not been initialised yet.
pub struct Uninit;

/// Marker for an initialised driver.
pub struct Init;

} // verus!
