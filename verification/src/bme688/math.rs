//! Integer conversions for the gas heater settings of the BME688.
use vstd::prelude::*;

use super::Coeffs;

verus! {

/// Longest heater duration that a gas wait register can hold, in milliseconds.
pub const MAX_HEATER_DURATION_MS: u16 = 4032;
/// Longest shared heater duration of parallel mode, in milliseconds.
pub const MAX_SHARED_HEATER_DURATION_MS: u16 = 1923;
/// Highest heater target temperature, in degrees Celsius.
pub const MAX_HEATER_TEMP_C: u16 = 400;
/// Lowest heater target temperature, in degrees Celsius.
pub const MIN_HEATER_TEMP_C: u16 = 200;

/// Division rounding toward zero, as integer division does in Rust.
pub open spec fn tdiv(a: int, b: int) -> int {
    if a >= 0 {
        a / b
    } else {
        -((-a) / b)
    }
}

/// `value` clamped to `[lo, hi]`.
pub open spec fn clamp(value: int, lo: int, hi: int) -> int {
    if value < lo {
        lo
    } else if value > hi {
        hi
    } else {
        value
    }
}

/// The heater resistance setting, before truncation to a byte, for heating to `target_temp`
/// (clamped to 200..=400 °C) at ambient temperature `ambient_temp`, following the datasheet's
/// integer formula.
pub open spec fn spec_heater_resistance(target_temp: u16, ambient_temp: i16, coeffs: Coeffs) -> int {
    let target = clamp(target_temp as int, MIN_HEATER_TEMP_C as int, MAX_HEATER_TEMP_C as int);
    let var1 = tdiv(ambient_temp as int * coeffs.g3 as int, 1000) * 256;
    let var2 = (coeffs.g1 as int + 784) * tdiv(
        tdiv((coeffs.g2 as int + 154009) * target * 5, 100) + 3276800,
        10,
    );
    let var3 = var1 + var2 / 2;
    let var4 = tdiv(var3, coeffs.res_heat_range as int + 4);
    let var5 = 131 * coeffs.res_heat_val as int + 65536;
    let res_heat_x100 = (tdiv(var4, var5) - 250) * 34;
    tdiv(res_heat_x100 + 50, 100)
}

/// Calculate the heater resistance for the sensor based on the target temperature and ambient temperature.
///
/// # Arguments
/// * `target_temp` - The target temperature for the heater in degrees Celsius.
/// * `ambient_temp` - The ambient temperature in degrees Celsius.
/// * `coeffs` - The calibration coefficients for the sensor.
///
/// # Returns
/// The calculated heater resistance value to be set in the sensor: the low byte of the formula's
/// result.
pub fn calc_heater_resistance(target_temp: u16, ambient_temp: i16, coeffs: &Coeffs) -> (r: u8)
    ensures
        r == spec_heater_resistance(target_temp, ambient_temp, *coeffs) as u8,
{
    let target_temp: u16 = if target_temp < MIN_HEATER_TEMP_C {
        MIN_HEATER_TEMP_C
    } else if target_temp > MAX_HEATER_TEMP_C {
        MAX_HEATER_TEMP_C
    } else {
        target_temp
    };
    let ambient = ambient_temp as i32;
    let g1 = coeffs.g1 as i32;
    let g2 = coeffs.g2 as i32;
    let g3 = coeffs.g3 as i32;
    let t = target_temp as i32;
    assert(-0x40_0000 <= ambient * g3 <= 0x40_0000) by (nonlinear_arith)
        requires -32768 <= ambient <= 32767, -128 <= g3 <= 127;
    let prod1 = ambient * g3;
    let var1 = (prod1 / 1000) * 256;
    assert(-0x11_0000 <= var1 <= 0x11_0000);
    let a = g2 + 154009;
    assert(121241 * 200 <= a * t <= 186776 * 400) by (nonlinear_arith)
        requires 121241 <= a <= 186776, 200 <= t <= 400;
    let inner = ((a * t * 5) / 100 + 3276800) / 10;
    assert(448921 <= inner <= 701232);
    let b = g1 + 784;
    assert(656 * 448921 <= b * inner <= 911 * 701232) by (nonlinear_arith)
        requires 656 <= b <= 911, 448921 <= inner <= 701232;
    let var2 = b * inner;
    assert(var2 >> 1 == var2 / 2) by (bit_vector)
        requires var2 >= 0;
    let var3 = var1 + (var2 >> 1);
    let var4 = var3 / (coeffs.res_heat_range as i32 + 4);
    assert(0 <= var4 <= var3);
    let var5 = (131 * (coeffs.res_heat_val as i32)) + 65536;
    assert(var5 >= 48768);
    let q = var4 / var5;
    assert(0 <= q <= var4) by (nonlinear_arith)
        requires 0 <= var4, var5 >= 1, q == var4 / var5;
    assert(q <= 0x100_0000) by (nonlinear_arith)
        requires 0 <= var4 <= 0x4000_0000, var5 >= 48768, q == var4 / var5;
    let res_heat_x100 = (q - 250) * 34;
    let res_heat = (res_heat_x100 + 50) / 100;
    #[verifier::truncate] (res_heat as u8)
}

/// Heater targets outside 200..=400 °C are programmed as the nearest end of that range.
pub proof fn lemma_heater_target_clamped(target_temp: u16, ambient_temp: i16, coeffs: Coeffs)
    ensures
        target_temp < MIN_HEATER_TEMP_C ==> spec_heater_resistance(target_temp, ambient_temp, coeffs)
            == spec_heater_resistance(MIN_HEATER_TEMP_C, ambient_temp, coeffs),
        target_temp > MAX_HEATER_TEMP_C ==> spec_heater_resistance(target_temp, ambient_temp, coeffs)
            == spec_heater_resistance(MAX_HEATER_TEMP_C, ambient_temp, coeffs),
{
}

/// Powers of four.
pub open spec fn pow4(e: nat) -> nat
    decreases e,
{
    if e == 0 {
        1
    } else {
        4 * pow4((e - 1) as nat)
    }
}

/// The (multiplication factor exponent, 6-bit value) pair that a gas wait register uses for a
/// duration of `value` steps: the value is divided by four until it fits six bits.
pub open spec fn spec_wait_code(value: nat) -> (nat, nat)
    decreases value,
{
    if value > 0x3F {
        let inner = spec_wait_code(value / 4);
        (inner.0 + 1, inner.1)
    } else {
        (0, value)
    }
}

/// The register byte packing a wait code: the factor exponent in bits 7..6, the value in bits
/// 5..0.
pub open spec fn spec_pack_wait_code(value: nat) -> nat {
    spec_wait_code(value).0 * 64 + spec_wait_code(value).1
}

/// The duration, in steps, that a gas wait register byte stands for: bits 5..0 times four to the
/// power of bits 7..6.
pub open spec fn spec_wait_duration(code: u8) -> nat {
    ((code % 64) as nat) * pow4((code / 64) as nat)
}

/// A wait code's exponent is at most `k` when the value is below `64 * 4^k`.
proof fn lemma_wait_code_exponent(value: nat, k: nat)
    requires
        value < 64 * pow4(k),
    ensures
        spec_wait_code(value).0 <= k,
    decreases value,
{
    if value > 0x3F {
        assert(k > 0);
        assert(pow4(k) == 4 * pow4((k - 1) as nat));
        assert(value / 4 < 64 * pow4((k - 1) as nat));
        lemma_wait_code_exponent(value / 4, (k - 1) as nat);
    }
}

/// A wait code's value fits six bits, its exponent is at most 3 for values below 4032, and it
/// stands for a duration no longer than `value` and less than one multiplication step shorter.
pub proof fn lemma_wait_code(value: nat)
    ensures
        spec_wait_code(value).1 <= 0x3F,
        value < 4032 ==> spec_wait_code(value).0 <= 3,
        spec_wait_code(value).1 * pow4(spec_wait_code(value).0) <= value,
        value < (spec_wait_code(value).1 + 1) * pow4(spec_wait_code(value).0),
        value < spec_wait_code(value).1 * pow4(spec_wait_code(value).0) + pow4(spec_wait_code(value).0),
    decreases value,
{
    let m0 = spec_wait_code(value).1;
    let p0 = pow4(spec_wait_code(value).0);
    assert((m0 + 1) * p0 == m0 * p0 + p0) by (nonlinear_arith);
    if value < 4032 {
        assert(pow4(3) == 64) by {
            assert(pow4(0) == 1);
            assert(pow4(1) == 4);
            assert(pow4(2) == 16);
        }
        lemma_wait_code_exponent(value, 3);
    }
    if value > 0x3F {
        lemma_wait_code(value / 4);
        let f = spec_wait_code(value / 4).0;
        let m = spec_wait_code(value / 4).1;
        let p = pow4(f);
        assert(spec_wait_code(value) == (f + 1, m));
        assert(pow4(f + 1) == 4 * p);
        assert(m * (4 * p) == 4 * (m * p)) by (nonlinear_arith);
        assert((m + 1) * (4 * p) == 4 * ((m + 1) * p)) by (nonlinear_arith);
        assert(m * p <= value / 4);
        assert(value / 4 < (m + 1) * p);
        assert(m * pow4(f + 1) <= value);
        assert(value < (m + 1) * pow4(f + 1));
    } else {
        assert(pow4(0) == 1);
        assert(spec_wait_code(value) == (0nat, value));
    }
}

/// Packs a duration of `value` steps (below 4032) into a gas wait register byte.
fn pack_wait_code(value: u32) -> (r: u8)
    requires
        value < 4032,
    ensures
        r == spec_pack_wait_code(value as nat),
        spec_wait_duration(r) <= value,
        value < spec_wait_duration(r) + pow4((r / 64) as nat),
{
    let mut factor: u32 = 0;
    let mut duration: u32 = value;
    proof {
        lemma_wait_code(value as nat);
    }
    while duration > 0x3F
        invariant
            duration <= value,
            spec_wait_code(value as nat).0 == factor + spec_wait_code(duration as nat).0,
            spec_wait_code(value as nat).1 == spec_wait_code(duration as nat).1,
            factor <= spec_wait_code(value as nat).0,
            spec_wait_code(value as nat).0 <= 3,
        decreases duration,
    {
        assert(duration >> 2 == duration / 4) by (bit_vector);
        duration = duration >> 2;
        factor = factor + 1;
    }
    proof {
        lemma_wait_code(value as nat);
    }
    let r = (factor << 6) | duration;
    assert(r == factor * 64 + duration) by (bit_vector)
        requires r == (factor << 6u32) | duration, duration <= 0x3F, factor <= 3;
    let code = r as u8;
    assert(code % 64 == duration && code / 64 == factor);
    code
}

/// The gas wait register value for a heater duration of `duration_ms`: the duration clamped to
/// 1..=4032 ms packed as a wait code, or 0xFF (the longest wait) at 4032 ms.
pub open spec fn spec_gas_wait_time(duration_ms: u16) -> u8 {
    let d = clamp(duration_ms as int, 1, MAX_HEATER_DURATION_MS as int);
    if d < MAX_HEATER_DURATION_MS {
        spec_pack_wait_code(d as nat) as u8
    } else {
        0xFF
    }
}

/// The shared gas wait register value for a duration of `duration_ms`: the duration in steps of
/// 0.477 ms, rounded down, packed as a wait code; 0xFF from 1923 ms on.
pub open spec fn spec_shared_gas_wait_duration(duration_ms: u16) -> u8 {
    if duration_ms < MAX_SHARED_HEATER_DURATION_MS {
        spec_pack_wait_code((duration_ms as nat * 1000) / 477) as u8
    } else {
        0xFF
    }
}

/// Calculate the gas wait time for the sensor based on the desired duration in milliseconds.
///
/// # Arguments
/// * `duration` - The desired heater duration in milliseconds (1 to 4032 ms).
///
/// # Returns
/// The calculated gas wait time value to be set in the sensor: the duration clamped to
/// 1..=4032 ms, packed as a wait code, or 0xFF (the longest wait) for 4032 ms.
pub fn calc_gas_wait_time(duration_ms: u16) -> (r: u8)
    ensures
        r == spec_gas_wait_time(duration_ms),
        ({
            let d = clamp(duration_ms as int, 1, MAX_HEATER_DURATION_MS as int);
            if d < MAX_HEATER_DURATION_MS {
                r == spec_pack_wait_code(d as nat)
            } else {
                r == 0xFF
            }
        }),
{
    let duration_ms: u16 = if duration_ms < 1 {
        1
    } else if duration_ms > MAX_HEATER_DURATION_MS {
        MAX_HEATER_DURATION_MS
    } else {
        duration_ms
    };
    if duration_ms < MAX_HEATER_DURATION_MS {
        pack_wait_code(duration_ms as u32)
    } else {
        0xFF
    }
}

/// Calculate the shared gas wait duration for the sensor based on the desired duration in milliseconds.
///
/// # Arguments
/// * `duration_ms` - The desired shared gas wait duration in milliseconds (1 to 1923 ms).
///
/// # Returns
/// The calculated shared gas wait duration value to be set in the sensor: the duration in steps of
/// 0.477 ms, rounded down, packed as a wait code; 0xFF from 1923 ms on.
pub fn calc_shared_gas_wait_duration(duration_ms: u16) -> (r: u8)
    ensures
        r == spec_shared_gas_wait_duration(duration_ms),
        duration_ms < MAX_SHARED_HEATER_DURATION_MS ==> r == spec_pack_wait_code(
            (duration_ms as nat * 1000) / 477,
        ),
        duration_ms >= MAX_SHARED_HEATER_DURATION_MS ==> r == 0xFF,
{
    if duration_ms < MAX_SHARED_HEATER_DURATION_MS {
        // Step size of 0.477ms
        let duration = duration_ms as u32 * 1000 / 477;
        pack_wait_code(duration)
    } else {
        0xFF
    }
}

/// The heater duration programmed for a request of 1 to 4031 ms never exceeds the request and
/// falls short of it by less than one multiplication step; requests up to 63 ms are exact.
pub proof fn lemma_gas_wait_time_accuracy(duration_ms: u16, code: u8)
    requires
        1 <= duration_ms < MAX_HEATER_DURATION_MS,
        code == spec_pack_wait_code(duration_ms as nat),
    ensures
        spec_wait_duration(code) <= duration_ms,
        duration_ms < spec_wait_duration(code) + pow4((code / 64) as nat),
        duration_ms <= 0x3F ==> code == duration_ms,
{
    lemma_wait_code(duration_ms as nat);
    let (f, m) = spec_wait_code(duration_ms as nat);
    assert(code % 64 == m && code / 64 == f);
}

} // verus!

verus! {

/// The shared heater duration programmed for a request below 1923 ms, counted in 0.477 ms steps,
/// never exceeds the request and falls short of it by less than one multiplication step plus
/// one 0.477 ms step.
pub proof fn lemma_shared_gas_wait_accuracy(duration_ms: u16, code: u8)
    requires
        duration_ms < MAX_SHARED_HEATER_DURATION_MS,
        code == spec_pack_wait_code((duration_ms as nat * 1000) / 477),
    ensures
        spec_wait_duration(code) * 477 <= duration_ms as nat * 1000,
        duration_ms as nat * 1000 < (spec_wait_duration(code) + pow4((code / 64) as nat)) * 477,
{
    let v = (duration_ms as nat * 1000) / 477;
    assert(v < 4032);
    lemma_wait_code(v);
    let (f, m) = spec_wait_code(v);
    assert(code % 64 == m && code / 64 == f);
    let p = pow4(f);
    assert(m * p * 477 <= v * 477) by (nonlinear_arith)
        requires m * p <= v;
    assert(v < m * p + p);
    assert((v + 1) * 477 <= (m * p + p) * 477) by (nonlinear_arith)
        requires v + 1 <= m * p + p;
}

} // verus!
