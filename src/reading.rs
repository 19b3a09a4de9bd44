use vstd::prelude::*;

verus! {

/// Full scale of a 20-bit measurement field: a raw value `v` stands for the
/// fraction `v / FULL_SCALE` of the sensor's range.
pub const FULL_SCALE: u32 = 0x10_0000;

/// The two 20-bit fields of a measurement payload.
#[derive(Clone, Copy, Debug, PartialEq, Eq, Structural)]
pub struct AhtRaw {
    /// Relative humidity, as a fraction of `FULL_SCALE` of 100 %.
    pub hum: u32,
    /// Temperature, as a fraction of `FULL_SCALE` of a 200 degree span
    /// that starts at -50 degrees Celsius.
    pub temp: u32,
}

/// The humidity field: byte 0, byte 1 and the high nibble of byte 2.
pub open spec fn spec_humidity_raw(b: Seq<u8>) -> int {
    b[0] * 0x1000 + b[1] * 0x10 + b[2] / 0x10
}

/// The temperature field: the low nibble of byte 2, byte 3 and byte 4.
pub open spec fn spec_temperature_raw(b: Seq<u8>) -> int {
    (b[2] % 0x10) * 0x1_0000 + b[3] * 0x100 + b[4]
}

/// Splits a 5-byte measurement payload into its humidity and temperature
/// fields, each a 20-bit unsigned integer.
pub fn decode_raw(bytes: [u8; 5]) -> (r: AhtRaw)
    ensures
        r.hum == spec_humidity_raw(bytes@),
        r.temp == spec_temperature_raw(bytes@),
        r.hum < FULL_SCALE,
        r.temp < FULL_SCALE,
{
    let b0 = bytes[0];
    let b1 = bytes[1];
    let b2 = bytes[2];
    let b3 = bytes[3];
    let b4 = bytes[4];
    let hum: u32 = ((b0 as u32) << 12) | ((b1 as u32) << 4) | ((b2 >> 4) as u32);
    let temp: u32 = (((b2 & 0x0F) as u32) << 16) | ((b3 as u32) << 8) | (b4 as u32);
    assert(hum == b0 as u32 * 0x1000 + b1 as u32 * 0x10 + b2 as u32 / 0x10 && hum < 0x10_0000)
        by (bit_vector)
        requires
            hum == ((b0 as u32) << 12) | ((b1 as u32) << 4) | ((b2 >> 4) as u32),
    ;
    assert(temp == (b2 as u32 % 0x10) * 0x1_0000 + b3 as u32 * 0x100 + b4 as u32 && temp
        < 0x10_0000) by (bit_vector)
        requires
            temp == (((b2 & 0x0F) as u32) << 16) | ((b3 as u32) << 8) | (b4 as u32),
    ;
    AhtRaw { hum, temp }
}

} // verus!
