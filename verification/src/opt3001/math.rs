//! Fixed-point conversions between raw result fields and illuminance.
//!
//! A result register holds an exponent `E` and a 12-bit mantissa `R`; the illuminance is
//! `0.01 * 2^E * R` lux. Working in hundredths of a lux keeps the conversions in integers.
use vstd::prelude::*;
use vstd::arithmetic::power2::*;
use vstd::arithmetic::div_mod::*;
use vstd::arithmetic::mul::*;
use vstd::bits::*;

verus! {

/// Largest mantissa of a result or limit register.
pub const MAX_FRACTIONAL_RESULT: u32 = 0x0FFF;

/// Largest exponent produced when encoding an illuminance.
pub const MAX_EXPONENT: u8 = 11;

/// Illuminance in hundredths of a lux encoded by `exponent` and `fractional_result`.
pub open spec fn spec_lux_hundredths(exponent: nat, fractional_result: nat) -> nat {
    pow2(exponent) * fractional_result
}

/// Converts an exponent and mantissa to illuminance in hundredths of a lux: `2^exponent *
/// fractional_result`.
pub fn lux_hundredths(exponent: u8, fractional_result: u16) -> (hundredths: u64)
    requires
        exponent < 32,
    ensures
        hundredths == spec_lux_hundredths(exponent as nat, fractional_result as nat),
{
    proof {
        lemma_u64_pow2_no_overflow(exponent as nat);
        lemma_u64_shl_is_mul(1, exponent as u64);
        lemma_pow2_strictly_increases(exponent as nat, 32);
        lemma2_to64();
        lemma_mul_upper_bound(
            pow2(exponent as nat) as int,
            0x1_0000_0000,
            fractional_result as int,
            0xFFFF,
        );
    }
    let scale: u64 = 1u64 << (exponent as u64);
    scale * (fractional_result as u64)
}

/// The exponent and mantissa chosen for `hundredths`: the smallest exponent (at most 11) at
/// which the shifted value fits the 12-bit mantissa, with the mantissa saturated at 0xFFF when
/// even exponent 11 is not enough.
pub open spec fn spec_encode_lux(hundredths: nat) -> (nat, nat) {
    spec_encode_lux_from(hundredths, 0)
}

/// Encoding that starts its search at exponent `exponent`.
pub open spec fn spec_encode_lux_from(hundredths: nat, exponent: nat) -> (nat, nat)
    decreases 11 - exponent,
{
    let shifted = hundredths / pow2(exponent);
    if shifted > 0xFFF && exponent < 11 {
        spec_encode_lux_from(hundredths, exponent + 1)
    } else {
        (exponent, if shifted > 0xFFF { 0xFFFnat } else { shifted })
    }
}

/// Encodes an illuminance given in hundredths of a lux into an exponent and a 12-bit mantissa.
pub fn encode_lux_hundredths(hundredths: u32) -> (r: (u8, u16))
    ensures
        r.0 <= 11,
        r.1 <= 0xFFF,
        (r.0 as nat, r.1 as nat) == spec_encode_lux(hundredths as nat),
        forall|e: nat| e < r.0 ==> hundredths as nat / pow2(e) > 0xFFF,
        r.0 < 11 ==> hundredths as nat / pow2(r.0 as nat) <= 0xFFF,
        r.1 as nat == (if hundredths as nat / pow2(r.0 as nat) > 0xFFF { 0xFFFnat } else {
            hundredths as nat / pow2(r.0 as nat)
        }),
{
    let mut exp: u8 = 0;
    let mut fractional_result: u32 = hundredths;
    proof {
        lemma2_to64();
    }
    while fractional_result > 0x0FFF && exp < 11
        invariant
            exp <= 11,
            fractional_result as nat == hundredths as nat / pow2(exp as nat),
            forall|e: nat| e < exp ==> hundredths as nat / pow2(e) > 0xFFF,
            spec_encode_lux_from(hundredths as nat, exp as nat) == spec_encode_lux(hundredths as nat),
        decreases 11 - exp,
    {
        proof {
            lemma_pow2_pos(exp as nat);
            lemma_div_denominator(hundredths as int, pow2(exp as nat) as int, 2);
            lemma_pow2_unfold((exp + 1) as nat);
            lemma_u32_shr_is_div(fractional_result, 1);
        }
        fractional_result = fractional_result >> 1;
        exp = exp + 1;
        proof {
            lemma2_to64();
        }
    }
    let clamped: u32 = if fractional_result < MAX_FRACTIONAL_RESULT { fractional_result } else { MAX_FRACTIONAL_RESULT };
    (exp, clamped as u16)
}

/// Encoding never overstates an illuminance, and below the largest encodable value
/// (0xFFF * 2^11 + 2^11 hundredths of a lux) it loses less than one step of the chosen exponent.
pub proof fn lemma_encode_lux_roundtrip(hundredths: nat)
    ensures
        spec_lux_hundredths(spec_encode_lux(hundredths).0, spec_encode_lux(hundredths).1)
            <= hundredths,
        hundredths < 0x1000 * pow2(11) ==> hundredths < spec_lux_hundredths(
            spec_encode_lux(hundredths).0,
            spec_encode_lux(hundredths).1,
        ) + pow2(spec_encode_lux(hundredths).0),
{
    lemma_encode_lux_from_shape(hundredths, 0);
    let (e, f) = spec_encode_lux(hundredths);
    let p = pow2(e);
    lemma_pow2_pos(e);
    lemma_fundamental_div_mod(hundredths as int, p as int);
    lemma_mod_bound(hundredths as int, p as int);
    let q = hundredths / p;
    if q > 0xFFF {
        lemma_mul_inequality(0xFFF, q as int, p as int);
        lemma_mul_is_commutative(0xFFF, p as int);
        lemma_mul_is_commutative(q as int, p as int);
        if hundredths < 0x1000 * pow2(11) {
            lemma2_to64();
            lemma_mul_is_commutative(0x1000, pow2(11) as int);
            lemma_multiply_divide_lt(hundredths as int, pow2(11) as int, 0x1000);
        }
    } else {
        lemma_mul_is_commutative(q as int, p as int);
    }
}

/// The encoding found from a starting exponent ends at or after it, at exponent 11 at most, and
/// its mantissa is the saturated shifted value at the final exponent; below exponent 11 the
/// shifted value fits.
proof fn lemma_encode_lux_from_shape(hundredths: nat, exponent: nat)
    requires
        exponent <= 11,
    ensures
        exponent <= spec_encode_lux_from(hundredths, exponent).0 <= 11,
        spec_encode_lux_from(hundredths, exponent).1 == (if hundredths / pow2(
            spec_encode_lux_from(hundredths, exponent).0,
        ) > 0xFFF {
            0xFFFnat
        } else {
            hundredths / pow2(spec_encode_lux_from(hundredths, exponent).0)
        }),
        spec_encode_lux_from(hundredths, exponent).0 < 11 ==> hundredths / pow2(
            spec_encode_lux_from(hundredths, exponent).0,
        ) <= 0xFFF,
    decreases 11 - exponent,
{
    if hundredths / pow2(exponent) > 0xFFF && exponent < 11 {
        lemma_encode_lux_from_shape(hundredths, exponent + 1);
    }
}

} // verus!
