//! The decisions of the BME688 driver: what it writes to the sensor's registers, given what it
//! read, for identification, mode switching, configuration and measurement start.
use vstd::prelude::*;

use super::config::sealed::Sealed;
use super::config::{forced, parallel, sequential, Config, ConfigSettings, HeaterStep};
use super::error::Error;
use super::math::{calc_heater_resistance, calc_shared_gas_wait_duration, spec_heater_resistance,
    spec_shared_gas_wait_duration};
use super::registers::{self, CtrlGas, CtrlHum, CtrlMeas, FieldData, Mode};
use super::{Coeffs, Status};

verus! {

/// Expected chip ID for the BME688 sensor.
pub const CHIP_ID: u8 = 0x61;
/// Expected variant ID for the BME688 sensor.
pub const VARIANT_ID: u8 = 0x01;
/// Delay in microseconds after a soft reset to allow the sensor to initialize.
pub const RESET_DELAY_US: u32 = 5000;
/// The maximum number of attempts to set the sensor to sleep mode before timing out.
pub const SLEEP_MODE_ATTEMPTS: u8 = 5;
/// The delay in microseconds between attempts to set the sensor to sleep mode.
pub const POLL_DELAY_US: u32 = 10000;

/// Accepts the chip ID read after reset only if it is the BME688's.
pub fn check_chip_id<E>(chip_id: u8) -> (r: Result<(), Error<E>>)
    ensures
        r is Ok <==> chip_id == CHIP_ID,
        r is Err ==> (r matches Err(Error::UnexpectedChipId(id)) && id == chip_id),
{
    if chip_id != CHIP_ID {
        Err(Error::UnexpectedChipId(chip_id))
    } else {
        Ok(())
    }
}

/// Accepts the variant ID read after the chip ID only if it is the BME688's.
pub fn check_variant_id<E>(variant_id: u8) -> (r: Result<(), Error<E>>)
    ensures
        r is Ok <==> variant_id == VARIANT_ID,
        r is Err ==> (r matches Err(Error::UnexpectedVariantId(id)) && id == variant_id),
{
    if variant_id != VARIANT_ID {
        Err(Error::UnexpectedVariantId(variant_id))
    } else {
        Ok(())
    }
}

/// What the driver does after reading the control measurement register while switching modes.
#[derive(Debug, Clone, Copy, PartialEq, Eq, Structural)]
pub enum ModeAction {
    /// Write this value; the switch is complete.
    Finish(CtrlMeas),
    /// Write this value, wait [`POLL_DELAY_US`], then read the register again.
    Retry(CtrlMeas),
    /// Write this value, wait [`POLL_DELAY_US`], then give up with a sleep mode timeout.
    GiveUp(CtrlMeas),
}

/// A mode switch in progress. The sensor only accepts a new mode from sleep mode, so the switch
/// reads the control measurement register, requests sleep mode until the sensor reports it, and
/// then writes the target mode, giving up after [`SLEEP_MODE_ATTEMPTS`] reads.
pub struct ModeSwitch {
    target: Mode,
    attempts: u8,
}

impl View for ModeSwitch {
    type V = (Mode, u8);

    /// The target mode and the number of reads that did not find the sensor asleep.
    closed spec fn view(&self) -> (Mode, u8) {
        (self.target, self.attempts)
    }
}

impl ModeSwitch {
    /// Starts switching the sensor to `target`.
    pub fn new(target: Mode) -> (r: Self)
        ensures
            r@ == (target, 0u8),
    {
        ModeSwitch { target, attempts: 0 }
    }

    /// Decides on the value `ctrl_meas` read from the control measurement register. In sleep mode
    /// the target mode is written and the switch is done; otherwise sleep mode is requested,
    /// keeping the oversampling bits, and the switch retries until its last attempt.
    pub fn step(&mut self, ctrl_meas: CtrlMeas) -> (r: ModeAction)
        requires
            old(self)@.1 < SLEEP_MODE_ATTEMPTS,
        ensures
            final(self)@.0 == old(self)@.0,
            ctrl_meas.spec_mode_bits() == 0 ==> final(self)@.1 == old(self)@.1,
            ctrl_meas.spec_mode_bits() != 0 ==> final(self)@.1 == old(self)@.1 + 1,
            ctrl_meas.spec_mode_bits() == 0 ==> (r matches ModeAction::Finish(v) && v.spec_mode_bits()
                == old(self)@.0.spec_bits() && v.0 & 0xFCu8 == ctrl_meas.0 & 0xFCu8),
            ctrl_meas.spec_mode_bits() != 0 && final(self)@.1 < SLEEP_MODE_ATTEMPTS ==> (r matches ModeAction::Retry(v)
                && v.spec_mode_bits() == 0 && v.0 & 0xFCu8 == ctrl_meas.0 & 0xFCu8),
            ctrl_meas.spec_mode_bits() != 0 && final(self)@.1 == SLEEP_MODE_ATTEMPTS ==> (r matches ModeAction::GiveUp(v)
                && v.spec_mode_bits() == 0 && v.0 & 0xFCu8 == ctrl_meas.0 & 0xFCu8),
    {
        let mut value = ctrl_meas;
        let ghost raw = ctrl_meas.0;
        assert((raw >> 0u8) & 0x3u8 < 4) by (bit_vector);
        if ctrl_meas.mode() == Mode::Sleep {
            value.set_mode(self.target);
            ModeAction::Finish(value)
        } else {
            value.set_mode(Mode::Sleep);
            self.attempts = self.attempts + 1;
            if self.attempts < SLEEP_MODE_ATTEMPTS {
                ModeAction::Retry(value)
            } else {
                ModeAction::GiveUp(value)
            }
        }
    }
}

/// The control measurement register with the temperature and pressure oversampling of `config`,
/// all other bits as read.
pub fn apply_tp_oversampling<S: Sealed>(config: &Config<S>, ctrl_meas: CtrlMeas) -> (r: CtrlMeas)
    ensures
        r.spec_temp_os_bits() == config@.temperature_oversampling.spec_bits(),
        r.spec_press_os_bits() == config@.pressure_oversampling.spec_bits(),
        r.0 & 0x03u8 == ctrl_meas.0 & 0x03u8,
{
    let mut value = ctrl_meas;
    let ghost v0 = value.0;
    value.set_temp_os(config.temperature_oversampling());
    let ghost v1 = value.0;
    value.set_press_os(config.pressure_oversampling());
    let ghost v2 = value.0;
    assert(v2 & 0x03u8 == v0 & 0x03u8 && (v2 >> 5u8) & 0x7u8 == (v1 >> 5u8) & 0x7u8) by (bit_vector)
        requires v1 & 0x1Fu8 == v0 & 0x1Fu8, v2 & 0xE3u8 == v1 & 0xE3u8;
    value
}

/// The control humidity register with the humidity oversampling of `config`, all other bits as
/// read.
pub fn apply_h_oversampling<S: Sealed>(config: &Config<S>, ctrl_hum: CtrlHum) -> (r: CtrlHum)
    ensures
        r.spec_hum_os_bits() == config@.humidity_oversampling.spec_bits(),
        r.0 & 0xF8u8 == ctrl_hum.0 & 0xF8u8,
{
    let mut value = ctrl_hum;
    value.set_hum_os(config.humidity_oversampling());
    value
}

/// The configuration register with the filter of `config` and, when `config` has one, its
/// standby time; all other bits as read.
pub fn apply_filter_standby<S: Sealed>(config: &Config<S>, register: registers::Config) -> (r: registers::Config)
    ensures
        r.spec_filter_bits() == config@.filter.spec_bits(),
        config@.standby_time matches Some(t) ==> r.spec_standby_time_bits() == t.spec_bits(),
        config@.standby_time is None ==> r.spec_standby_time_bits() == register.spec_standby_time_bits(),
        r.0 & 0x03u8 == register.0 & 0x03u8,
{
    let mut value = register;
    let ghost v0 = value.0;
    value.set_filter(config.filter());
    let ghost v1 = value.0;
    match config.standby_time() {
        Some(standby_time) => {
            value.set_standby_time(standby_time);
            let ghost v2 = value.0;
            assert(v2 & 0x03u8 == v0 & 0x03u8 && (v2 >> 2u8) & 0x7u8 == (v1 >> 2u8) & 0x7u8) by (bit_vector)
                requires v1 & 0xE3u8 == v0 & 0xE3u8, v2 & 0x1Fu8 == v1 & 0x1Fu8;
        },
        None => {
            assert(v1 & 0x03u8 == v0 & 0x03u8 && (v1 >> 5u8) & 0x7u8 == (v0 >> 5u8) & 0x7u8) by (bit_vector)
                requires v1 & 0xE3u8 == v0 & 0xE3u8;
        },
    }
    value
}

/// The heater resistance and gas wait register values of every heater step of `config`, as
/// `(profile index, heater resistance, gas wait)` in profile order.
pub fn heater_register_values<S: Sealed>(config: &Config<S>, coeffs: &Coeffs) -> (r: Vec<(u8, u8, u8)>)
    ensures
        r@.len() == config@.heater_profile.len(),
        r@.len() <= registers::MAX_HEATER_PROFILES,
        forall|i: int|
            0 <= i < r@.len() ==> #[trigger] r@[i] == (
                i as u8,
                spec_heater_resistance(
                    config@.heater_profile[i].target_temp,
                    config@.ambient_temperature,
                    *coeffs,
                ) as u8,
                config@.heater_profile[i].gas_wait,
            ),
{
    let steps = config.heater_steps();
    let ambient = config.ambient_temperature();
    let mut values: Vec<(u8, u8, u8)> = Vec::new();
    let mut index: usize = 0;
    while index < steps.len()
        invariant
            steps@ == config@.heater_profile,
            steps@.len() <= 10,
            ambient == config@.ambient_temperature,
            index <= steps@.len(),
            values@.len() == index,
            forall|i: int|
                0 <= i < index ==> #[trigger] values@[i] == (
                    i as u8,
                    spec_heater_resistance(steps@[i].target_temp, ambient, *coeffs) as u8,
                    steps@[i].gas_wait,
                ),
        decreases steps@.len() - index,
    {
        let step = &steps[index];
        let res_heat = calc_heater_resistance(step.target_temp, ambient, coeffs);
        values.push((index as u8, res_heat, step.gas_wait));
        index = index + 1;
    }
    values
}

/// The control gas registers with gas conversion and the heater switched off, all other bits as
/// read.
fn disable_gas(ctrl_gas: CtrlGas) -> (r: CtrlGas)
    ensures
        !r.spec_run_gas(),
        r.spec_disable_heater(),
        r.0 & 0xDFF7u16 == ctrl_gas.0 & 0xDFF7u16,
{
    let mut value = ctrl_gas;
    let ghost v0 = value.0;
    value.set_run_gas(false);
    let ghost v1 = value.0;
    value.set_disable_heater(true);
    let ghost v2 = value.0;
    assert(v2 & 0xDFF7u16 == v0 & 0xDFF7u16 && ((v2 >> 13u16) & 1u16 == 1) == ((v1 >> 13u16) & 1u16 == 1)) by (bit_vector)
        requires v1 & 0xDFFFu16 == v0 & 0xDFFFu16, v2 & 0xFFF7u16 == v1 & 0xFFF7u16;
    value
}

/// The control gas registers with gas conversion and the heater switched on and heater profile
/// `profile` selected, all other bits as read.
fn enable_gas(ctrl_gas: CtrlGas, profile: u8) -> (r: CtrlGas)
    requires
        profile < 16,
    ensures
        r.spec_run_gas(),
        !r.spec_disable_heater(),
        r.spec_heater_profile_bits() == profile,
        r.0 & 0xD0F7u16 == ctrl_gas.0 & 0xD0F7u16,
{
    let mut value = ctrl_gas;
    let ghost v0 = value.0;
    value.set_run_gas(true);
    let ghost v1 = value.0;
    value.set_disable_heater(false);
    let ghost v2 = value.0;
    value.set_heater_profile(profile);
    let ghost v3 = value.0;
    assert(v3 & 0xD0F7u16 == v0 & 0xD0F7u16
        && ((v3 >> 13u16) & 1u16 == 1) == ((v1 >> 13u16) & 1u16 == 1)
        && ((v3 >> 3u16) & 1u16 == 1) == ((v2 >> 3u16) & 1u16 == 1)) by (bit_vector)
        requires
            v1 & 0xDFFFu16 == v0 & 0xDFFFu16,
            v2 & 0xFFF7u16 == v1 & 0xFFF7u16,
            v3 & 0xF0FFu16 == v2 & 0xF0FFu16;
    value
}

/// The control gas registers that start a forced measurement: gas conversion off without heater
/// steps; otherwise on, with the first heater profile selected.
pub fn forced_ctrl_gas(config: &forced::Config, ctrl_gas: CtrlGas) -> (r: CtrlGas)
    ensures
        config@.heater_profile.len() == 0 ==> !r.spec_run_gas() && r.spec_disable_heater()
            && r.0 & 0xDFF7u16 == ctrl_gas.0 & 0xDFF7u16,
        config@.heater_profile.len() > 0 ==> r.spec_run_gas() && !r.spec_disable_heater()
            && r.spec_heater_profile_bits() == 0 && r.0 & 0xD0F7u16 == ctrl_gas.0 & 0xD0F7u16,
{
    if config.heater_steps().len() == 0 {
        disable_gas(ctrl_gas)
    } else {
        enable_gas(ctrl_gas, 0)
    }
}

/// The shared gas wait register value that a parallel measurement writes, if any: none without
/// heater steps; otherwise the shared heater duration less the measurement time, both in
/// milliseconds (the measurement time, in microseconds, rounded down), at least 0 and truncated
/// to 16 bits, in shared gas wait steps.
pub fn parallel_shared_gas_wait(config: &parallel::Config) -> (r: Option<u8>)
    ensures
        config@.heater_profile.len() == 0 ==> r is None,
        config@.heater_profile.len() > 0 ==> r == Some(spec_shared_gas_wait_duration(
            spec_shared_wait_ms(config@) as u16,
        )),
{
    if config.heater_steps().len() == 0 {
        None
    } else {
        let duration_us = config.measurement_duration(Mode::Parallel);
        let remaining = config.shared_heater_duration_ms().saturating_sub(duration_us / 1000);
        #[verifier::truncate]
        let duration_ms = remaining as u16;
        Some(calc_shared_gas_wait_duration(duration_ms))
    }
}

/// The time left for the heater in a parallel measurement, in milliseconds: the shared heater
/// duration less the measurement time (in whole milliseconds), at least 0.
pub open spec fn spec_shared_wait_ms(settings: ConfigSettings) -> int {
    let measurement_ms = super::config::spec_measurement_duration(settings, Mode::Parallel) / 1000;
    if settings.shared_heater_duration_ms >= measurement_ms {
        settings.shared_heater_duration_ms - measurement_ms
    } else {
        0
    }
}

/// The control gas registers that start a parallel measurement: gas conversion off without
/// heater steps; otherwise on, with the number of heater steps as the heater profile field.
pub fn parallel_ctrl_gas(config: &parallel::Config, ctrl_gas: CtrlGas) -> (r: CtrlGas)
    ensures
        config@.heater_profile.len() == 0 ==> !r.spec_run_gas() && r.spec_disable_heater()
            && r.0 & 0xDFF7u16 == ctrl_gas.0 & 0xDFF7u16,
        config@.heater_profile.len() > 0 ==> r.spec_run_gas() && !r.spec_disable_heater()
            && r.spec_heater_profile_bits() == config@.heater_profile.len() && r.0 & 0xD0F7u16
            == ctrl_gas.0 & 0xD0F7u16,
{
    let count = config.heater_steps().len();
    if count == 0 {
        disable_gas(ctrl_gas)
    } else {
        enable_gas(ctrl_gas, count as u8)
    }
}

/// The control gas registers that start a sequential measurement: gas conversion off without
/// heater steps; otherwise on, with the number of heater steps as the heater profile field and
/// standby disabled exactly when the configuration has no standby time.
pub fn sequential_ctrl_gas(config: &sequential::Config, ctrl_gas: CtrlGas) -> (r: CtrlGas)
    ensures
        config@.heater_profile.len() == 0 ==> !r.spec_run_gas() && r.spec_disable_heater()
            && r.0 & 0xDFF7u16 == ctrl_gas.0 & 0xDFF7u16,
        config@.heater_profile.len() > 0 ==> r.spec_run_gas() && !r.spec_disable_heater()
            && r.spec_heater_profile_bits() == config@.heater_profile.len()
            && r.spec_disable_standby() == (config@.standby_time is None) && r.0 & 0x50F7u16
            == ctrl_gas.0 & 0x50F7u16,
{
    let count = config.heater_steps().len();
    if count == 0 {
        disable_gas(ctrl_gas)
    } else {
        let mut value = enable_gas(ctrl_gas, count as u8);
        let ghost v0 = ctrl_gas.0;
        let ghost v1 = value.0;
        value.set_disable_standby(config.standby_time().is_none());
        let ghost v2 = value.0;
        assert(v2 & 0x50F7u16 == v0 & 0x50F7u16
            && ((v2 >> 13u16) & 1u16 == 1) == ((v1 >> 13u16) & 1u16 == 1)
            && ((v2 >> 3u16) & 1u16 == 1) == ((v1 >> 3u16) & 1u16 == 1)
            && ((v2 >> 8u16) & 0xFu16) == ((v1 >> 8u16) & 0xFu16)) by (bit_vector)
            requires
                v1 & 0xD0F7u16 == v0 & 0xD0F7u16,
                v2 & 0x7FFFu16 == v1 & 0x7FFFu16;
        value
    }
}

/// The status flags of a measurement, copied from its field data block.
pub fn measurement_status(field_data: &FieldData) -> (r: Status)
    ensures
        r.spec_is_new_data() == registers::spec_bit_at(field_data.0@, 7),
        r.spec_is_measuring() == registers::spec_bit_at(field_data.0@, 5),
        r.spec_is_gas_measuring() == registers::spec_bit_at(field_data.0@, 6),
        r.spec_is_gas_valid() == registers::spec_bit_at(field_data.0@, 133),
        r.spec_is_heater_stable() == registers::spec_bit_at(field_data.0@, 132),
        r.0 & 0x07u8 == 0,
{
    let mut status = Status(0);
    let ghost s0 = status.0;
    status.set_is_new_data(field_data.new_data());
    let ghost s1 = status.0;
    status.set_is_measuring(field_data.measuring());
    let ghost s2 = status.0;
    status.set_is_gas_measuring(field_data.gas_measuring());
    let ghost s3 = status.0;
    status.set_is_gas_valid(field_data.gas_valid());
    let ghost s4 = status.0;
    status.set_is_heater_stable(field_data.heater_stable());
    let ghost s5 = status.0;
    assert(s5 & 0x07u8 == 0
        && ((s5 >> 7u8) & 1u8 == 1) == ((s1 >> 7u8) & 1u8 == 1)
        && ((s5 >> 6u8) & 1u8 == 1) == ((s2 >> 6u8) & 1u8 == 1)
        && ((s5 >> 5u8) & 1u8 == 1) == ((s3 >> 5u8) & 1u8 == 1)
        && ((s5 >> 4u8) & 1u8 == 1) == ((s4 >> 4u8) & 1u8 == 1)) by (bit_vector)
        requires
            s0 == 0,
            s1 & 0x7Fu8 == s0 & 0x7Fu8,
            s2 & 0xBFu8 == s1 & 0xBFu8,
            s3 & 0xDFu8 == s2 & 0xDFu8,
            s4 & 0xEFu8 == s3 & 0xEFu8,
            s5 & 0xF7u8 == s4 & 0xF7u8;
    status
}

/// Whether measurement index `a` comes before `b` on the wrapping 8-bit counter: `a - b`, taken
/// modulo 256 as a signed byte, is negative.
pub open spec fn spec_index_before(a: u8, b: u8) -> bool {
    (a as int - b as int) % 256 >= 128
}

/// `a` comes before `b` and not also after it (indices 128 apart come before each other).
pub open spec fn spec_index_strictly_before(a: u8, b: u8) -> bool {
    spec_index_before(a, b) && !spec_index_before(b, a)
}

/// Whether the field data block holds a new measurement.
pub open spec fn spec_has_new_data(field_data: FieldData) -> bool {
    registers::spec_bit_at(field_data.0@, 7)
}

/// Whether measurement index `a` strictly comes before `b` on the wrapping counter.
fn index_strictly_before(a: u8, b: u8) -> (r: bool)
    ensures
        r == spec_index_strictly_before(a, b),
{
    let ab = a.wrapping_sub(b);
    let ba = b.wrapping_sub(a);
    assert(ab == (a as int - b as int) % 256 && ba == (b as int - a as int) % 256);
    ab >= 128 && !(ba >= 128)
}

/// The indices in `order` hold new measurements exactly for the blocks below `k`.
pub open spec fn spec_holds_new_below(field_data: Seq<FieldData>, order: Seq<usize>, k: int) -> bool {
    forall|j: int| 0 <= j < k ==> (order.contains(j as usize) <==> spec_has_new_data(#[trigger] field_data[j]))
}

/// No block in `order` comes directly after one whose measurement index it strictly precedes.
pub open spec fn spec_adjacent_in_order(field_data: Seq<FieldData>, order: Seq<usize>) -> bool {
    forall|i: int|
        0 <= i < order.len() - 1 ==> !spec_index_strictly_before(
            field_data[order[i + 1] as int].0@[1],
            #[trigger] field_data[order[i] as int].0@[1],
        )
}

/// Inserting block `k`, which holds a new measurement, extends the blocks accounted for to `k`.
proof fn lemma_insert_membership(field_data: Seq<FieldData>, before: Seq<usize>, p: int, k: usize)
    requires
        field_data.len() == 3,
        k < 3,
        0 <= p <= before.len(),
        forall|i: int| 0 <= i < before.len() ==> #[trigger] before[i] < k,
        spec_has_new_data(field_data[k as int]),
        spec_holds_new_below(field_data, before, k as int),
    ensures
        spec_holds_new_below(field_data, before.insert(p, k), k + 1),
        forall|i: int| 0 <= i < before.insert(p, k).len() ==> #[trigger] before.insert(p, k)[i] < k + 1,
{
    let after = before.insert(p, k);
    assert forall|j: int| 0 <= j < k + 1 implies (after.contains(j as usize) <==> spec_has_new_data(#[trigger] field_data[j])) by {
        if j < k {
            if before.contains(j as usize) {
                let w = choose|w: int| 0 <= w < before.len() && before[w] == j as usize;
                if w < p {
                    assert(after[w] == j as usize);
                } else {
                    assert(after[w + 1] == j as usize);
                }
            }
            if after.contains(j as usize) {
                let w = choose|w: int| 0 <= w < after.len() && after[w] == j as usize;
                if w < p {
                    assert(before[w] == j as usize);
                } else if w == p {
                } else {
                    assert(before[w - 1] == j as usize);
                }
            }
        } else {
            assert(after[p] == k);
        }
    }
}

/// Inserting a block that is not yet in the order keeps every block once.
proof fn lemma_insert_no_duplicates(before: Seq<usize>, p: int, k: usize)
    requires
        0 <= p <= before.len(),
        forall|i: int| 0 <= i < before.len() ==> #[trigger] before[i] < k,
        before.no_duplicates(),
    ensures
        before.insert(p, k).no_duplicates(),
{
    let after = before.insert(p, k);
    assert forall|a: int, b: int| 0 <= a < after.len() && 0 <= b < after.len() && a != b implies after[a] != after[b] by {
        if a != p && b != p {
            let aa = if a < p { a } else { a - 1 };
            let bb = if b < p { b } else { b - 1 };
            assert(before[aa] == after[a] && before[bb] == after[b]);
        } else if a == p {
            let bb = if b < p { b } else { b - 1 };
            assert(before[bb] == after[b]);
        } else {
            let aa = if a < p { a } else { a - 1 };
            assert(before[aa] == after[a]);
        }
    }
}

/// Inserting block `k` at position `p`, after a block whose index it does not strictly precede
/// and before one whose index it strictly precedes, keeps neighbours in order.
proof fn lemma_insert_adjacent(field_data: Seq<FieldData>, before: Seq<usize>, p: int, k: usize)
    requires
        0 <= p <= before.len(),
        spec_adjacent_in_order(field_data, before),
        p > 0 ==> !spec_index_strictly_before(
            field_data[k as int].0@[1],
            field_data[before[p - 1] as int].0@[1],
        ),
        p < before.len() ==> spec_index_strictly_before(
            field_data[k as int].0@[1],
            field_data[before[p] as int].0@[1],
        ),
    ensures
        spec_adjacent_in_order(field_data, before.insert(p, k)),
{
    let after = before.insert(p, k);
    assert forall|i: int|
        0 <= i < after.len() - 1 implies !spec_index_strictly_before(
            field_data[after[i + 1] as int].0@[1],
            #[trigger] field_data[after[i] as int].0@[1],
        ) by {
        if i + 1 < p {
            assert(after[i] == before[i] && after[i + 1] == before[i + 1]);
        } else if i + 1 == p {
            assert(after[i] == before[i] && after[i + 1] == k);
        } else if i == p {
            assert(after[i] == k && after[i + 1] == before[i]);
        } else {
            assert(after[i] == before[i - 1] && after[i + 1] == before[i]);
        }
    }
}

/// The field data blocks that hold new measurements, in the order of their measurement indices on
/// the wrapping 8-bit counter: every block with new data appears once, and no block is placed
/// directly after one whose index it strictly precedes.
pub fn measurement_order(field_data: &[FieldData; 3]) -> (r: Vec<usize>)
    ensures
        forall|k: int| 0 <= k < 3 ==> (r@.contains(k as usize) <==> spec_has_new_data(#[trigger] field_data@[k])),
        forall|i: int| 0 <= i < r@.len() ==> #[trigger] r@[i] < 3,
        r@.no_duplicates(),
        forall|i: int|
            0 <= i < r@.len() - 1 ==> !spec_index_strictly_before(
                field_data@[r@[i + 1] as int].0@[1],
                #[trigger] field_data@[r@[i] as int].0@[1],
            ),
{
    let mut order: Vec<usize> = Vec::new();
    let mut k: usize = 0;
    while k < 3
        invariant
            0 <= k <= 3,
            spec_holds_new_below(field_data@, order@, k as int),
            forall|i: int| 0 <= i < order@.len() ==> #[trigger] order@[i] < k,
            order@.no_duplicates(),
            spec_adjacent_in_order(field_data@, order@),
        decreases 3 - k,
    {
        let block = &field_data[k];
        if block.new_data() {
            let key = block.meas_index();
            let mut p: usize = order.len();
            while p > 0 && index_strictly_before(key, field_data[order[p - 1]].meas_index())
                invariant
                    p <= order@.len(),
                    forall|i: int| 0 <= i < order@.len() ==> #[trigger] order@[i] < k,
                    k < 3,
                    key == field_data@[k as int].0@[1],
                    p < order@.len() ==> spec_index_strictly_before(key, field_data@[order@[p as int] as int].0@[1]),
                decreases p,
            {
                p = p - 1;
            }
            proof {
                lemma_insert_membership(field_data@, order@, p as int, k);
                lemma_insert_no_duplicates(order@, p as int, k);
                lemma_insert_adjacent(field_data@, order@, p as int, k);
            }
            order.insert(p, k);
        } else {
            proof {
                assert(!order@.contains(k));
            }
        }
        k = k + 1;
    }
    order
}

} // verus!
