//! Sample decoding for the ICS-43434 I2S MEMS microphone.
use vstd::prelude::*;

verus! {

/// The two's-complement value of the low 24 bits of `raw`, as a mathematical integer.
pub open spec fn spec_signed_24(raw: u32) -> int {
    let v = raw % 0x100_0000;
    if v >= 0x80_0000 { v - 0x100_0000 } else { v as int }
}

/// Interprets the low 24 bits of a raw I2S word as a signed 24-bit sample.
pub fn signed_24(raw: u32) -> (sample: i32)
    ensures
        sample == spec_signed_24(raw),
        -0x80_0000 <= sample < 0x80_0000,
{
    let value = raw & 0x00ff_ffff;
    assert(value == raw % 0x100_0000) by (bit_vector)
        requires value == raw & 0x00ff_ffff;
    if value & 0x0080_0000 != 0 {
        assert(value >= 0x80_0000) by (bit_vector)
            requires value & 0x0080_0000 != 0, value == raw & 0x00ff_ffff;
        let r = (value | 0xff00_0000) as i32;
        assert(r == value - 0x100_0000) by (bit_vector)
            requires r == (value | 0xff00_0000) as i32, value < 0x100_0000, value >= 0x80_0000;
        r
    } else {
        assert(value < 0x80_0000) by (bit_vector)
            requires value & 0x0080_0000 == 0, value == raw & 0x00ff_ffff;
        value as i32
    }
}

/// The signed 24-bit audio sample that an I2S word carries in its upper 24 bits.
pub fn sample_from_word(raw: u32) -> (sample: i32)
    ensures
        sample == spec_signed_24(raw / 256),
        -0x80_0000 <= sample < 0x80_0000,
{
    signed_24(raw / 256)
}

} // verus!
