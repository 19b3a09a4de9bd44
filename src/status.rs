use vstd::prelude::*;

verus! {

/// Operating mode reported in bits 6..5 of the status byte.
#[derive(Clone, Copy, Debug, PartialEq, Eq, Structural)]
pub enum AhtMode {
    /// Bits `00`.
    Nor,
    /// Bits `01`.
    Cyc,
    /// Bits `10` and `11` alike.
    Cmd,
}

/// The device status decoded from one status byte.
#[derive(Clone, Copy, Debug, PartialEq, Eq, Structural)]
pub struct AhtStatus {
    /// The device is still processing a command.
    pub busy: bool,
    /// The operating mode.
    pub mode: AhtMode,
    /// The device's internal calibration has completed.
    pub cal: bool,
}

/// The mode that a status byte encodes in its bits 6..5.
pub open spec fn spec_mode_of(byte: u8) -> AhtMode {
    let bits = (byte as int / 32) % 4;
    if bits == 0 {
        AhtMode::Nor
    } else if bits == 1 {
        AhtMode::Cyc
    } else {
        AhtMode::Cmd
    }
}

/// The status that a status byte encodes.
pub open spec fn spec_decode_status(byte: u8) -> AhtStatus {
    AhtStatus { busy: byte > 0x7F, mode: spec_mode_of(byte), cal: (byte as int / 8) % 2 == 1 }
}

/// Decodes a status byte: bit 7 is the busy flag, bits 6..5 the mode and
/// bit 3 the calibration flag.
pub fn decode_status(byte: u8) -> (r: AhtStatus)
    ensures
        r.busy == (byte > 0x7F),
        r.mode == spec_mode_of(byte),
        r.cal == ((byte & 0x08) != 0),
        r == spec_decode_status(byte),
{
    let masked: u8 = byte & 0b0110_0000;
    assert(masked as int == ((byte as int / 32) % 4) * 32) by (bit_vector)
        requires
            masked == byte & 0b0110_0000,
    ;
    assert(((byte & 0x08) == 0x08) == ((byte & 0x08) != 0)) by (bit_vector);
    assert(((byte & 0x08) != 0) == ((byte / 8) % 2 == 1)) by (bit_vector);
    let mode = if masked == 0x00 {
        AhtMode::Nor
    } else if masked == 0x20 {
        AhtMode::Cyc
    } else {
        AhtMode::Cmd
    };
    AhtStatus { busy: byte > 0x7F, mode, cal: (byte & 0x08) == 0x08 }
}

} // verus!
