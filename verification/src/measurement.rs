//! Samples and their decoding from the six data registers.

use byteorder::{ByteOrder, LittleEndian};
use vstd::prelude::*;
use vstd::slice::slice_subrange;

verus! {

/// Raw temperature counts per degree Celsius.
pub const TEMPERATURE_COUNTS_PER_CELSIUS: i32 = 65536;

/// Raw pressure counts per pascal.
pub const PRESSURE_COUNTS_PER_PASCAL: i32 = 64;

/// Measurement data, as signed fixed-point counts.
#[derive(Debug, Clone, Copy, PartialEq, Eq)]
pub struct Measurement {
    /// Temperature in counts of 1/65536 degree Celsius
    pub raw_temperature: i32,
    /// Pressure in counts of 1/64 pascal
    pub raw_pressure: i32,
}

/// The signed 24-bit number whose little-endian bytes are `b0`, `b1`, `b2`:
/// bit 23 is the sign.
pub open spec fn signed24(b0: u8, b1: u8, b2: u8) -> int {
    let unsigned = b0 as int + 256 * (b1 as int) + 65536 * (b2 as int);
    if unsigned < 0x80_0000 {
        unsigned
    } else {
        unsigned - 0x100_0000
    }
}

/// The three little-endian bytes of `value` in 24-bit two's complement.
pub open spec fn bytes24(value: int) -> (u8, u8, u8) {
    let unsigned = if value < 0 {
        value + 0x100_0000
    } else {
        value
    };
    ((unsigned % 256) as u8, ((unsigned / 256) % 256) as u8, (unsigned / 65536) as u8)
}

/// The sample held in six data bytes: temperature triplet, then pressure
/// triplet.
pub open spec fn decoded(block: [u8; 6]) -> Measurement {
    Measurement {
        raw_temperature: signed24(block@[0], block@[1], block@[2]) as i32,
        raw_pressure: signed24(block@[3], block@[4], block@[5]) as i32,
    }
}

/// Calls `byteorder::LittleEndian::read_i24`, which reads the first three
/// bytes of the slice as a little-endian number and extends its sign from
/// bit 23. It panics on a slice shorter than three bytes, which `requires`
/// leaves out.
#[verifier::external_body]
fn read_i24(bytes: &[u8]) -> (value: i32)
    requires
        bytes@.len() >= 3,
    ensures
        value == signed24(bytes@[0], bytes@[1], bytes@[2]),
{
    LittleEndian::read_i24(bytes)
}

impl Measurement {
    /// Decodes one burst read of the data registers: the temperature triplet
    /// followed by the pressure triplet, each a little-endian signed 24-bit
    /// number.
    pub fn decode(block: &[u8; 6]) -> (sample: Measurement)
        ensures
            sample == decoded(*block),
            sample.raw_temperature == signed24(block@[0], block@[1], block@[2]),
            sample.raw_pressure == signed24(block@[3], block@[4], block@[5]),
            -0x80_0000 <= sample.raw_temperature < 0x80_0000,
            -0x80_0000 <= sample.raw_pressure < 0x80_0000,
    {
        let bytes = block.as_slice();
        let raw_temperature = read_i24(bytes);
        let raw_pressure = read_i24(slice_subrange(bytes, 3, 6));
        Measurement { raw_temperature, raw_pressure }
    }
}

/// Decoding inverts the 24-bit two's complement encoding over its whole
/// range: every value from -2^23 up to 2^23 - 1 comes back unchanged from
/// its three bytes.
pub proof fn lemma_signed24_round_trip(value: int)
    requires
        -0x80_0000 <= value < 0x80_0000,
    ensures
        signed24(bytes24(value).0, bytes24(value).1, bytes24(value).2) == value,
{
}

/// Every triplet of bytes decodes into the 24-bit signed range, and the
/// triplet is recovered from the decoded value.
pub proof fn lemma_bytes24_of_signed24(b0: u8, b1: u8, b2: u8)
    ensures
        -0x80_0000 <= signed24(b0, b1, b2) < 0x80_0000,
        bytes24(signed24(b0, b1, b2)) == (b0, b1, b2),
{
}

} // verus!
