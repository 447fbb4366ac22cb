use vstd::prelude::*;

use crate::bytes::{be_u16, read_be_u16};

verus! {

/// Errors of a climate measurement.
#[derive(Clone, Copy, PartialEq, Eq, Structural, Debug)]
pub enum SHT31Error {
    NotConnected,
    NoResponse,
}

/// 7-bit I2C address of the SHT31 sensor.
pub const SHT31_ADDRESS: u8 = 0x44;

/// Time in milliseconds between the measurement command and reading the result.
pub const MEASUREMENT_DELAY_MS: u64 = 15;

/// The single-shot, high-repeatability measurement command.
pub fn measure_command() -> (r: [u8; 2])
    ensures
        r@ == seq![0x24u8, 0x00u8],
{
    let r: [u8; 2] = [0x24, 0x00];
    assert(r@ =~= seq![0x24u8, 0x00u8]);
    r
}

/// True when `bits` is the bit pattern of a single-precision NaN: all exponent bits set
/// and a non-zero fraction.
pub open spec fn f32_bits_is_nan(bits: u32) -> bool {
    (bits / 0x80_0000) % 0x100 == 0xFF && bits % 0x80_0000 != 0
}

/// Whether `bits` is the bit pattern of a single-precision NaN.
pub fn is_nan_bits(bits: u32) -> (r: bool)
    ensures
        r == f32_bits_is_nan(bits),
{
    assert((bits & 0x7F80_0000 == 0x7F80_0000) == ((bits / 0x80_0000) % 0x100 == 0xFF))
        by (bit_vector);
    assert((bits & 0x007F_FFFF != 0) == (bits % 0x80_0000 != 0)) by (bit_vector);
    (bits & 0x7F80_0000) == 0x7F80_0000 && (bits & 0x007F_FFFF) != 0
}

/// A temperature (degrees Celsius) and relative humidity (percent) pair, each held as
/// the bit pattern of a single-precision floating-point number.
#[derive(Clone, Copy, PartialEq, Eq, Structural, Debug)]
pub struct SHT31Reading {
    pub temp_bits: u32,
    pub humid_bits: u32,
}

impl Default for SHT31Reading {
    /// Both values zero.
    fn default() -> (r: Self)
        ensures
            r.temp_bits == 0,
            r.humid_bits == 0,
    {
        SHT31Reading { temp_bits: 0, humid_bits: 0 }
    }
}

/// The SHT31 temperature and humidity sensor, with the calibration offsets added to
/// every measurement.
pub struct SHT31 {
    calibration: SHT31Reading,
}

impl SHT31 {
    pub closed spec fn spec_calibration(&self) -> SHT31Reading {
        self.calibration
    }

    pub fn new(calibration: SHT31Reading) -> (r: Self)
        ensures
            r.spec_calibration() == calibration,
    {
        Self { calibration }
    }

    /// The calibration offsets.
    pub fn calibration(&self) -> (r: SHT31Reading)
        ensures
            r == self.spec_calibration(),
    {
        self.calibration
    }

    /// The raw temperature and humidity ticks of a six-byte measurement frame: the
    /// big-endian words at bytes 0-1 and 3-4 (bytes 2 and 5 are their checksums, which are
    /// not checked).
    pub fn raw_measurement(reading: &[u8; 6]) -> (r: (u16, u16))
        ensures
            r.0 == be_u16(reading@[0], reading@[1]),
            r.1 == be_u16(reading@[3], reading@[4]),
    {
        (read_be_u16(reading[0], reading[1]), read_be_u16(reading[3], reading[4]))
    }
}

} // verus!
