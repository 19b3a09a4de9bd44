use crate::protocol::{
    ActionView, AhtError, Event, PROCESS_MS, Phase, RESPONSE_LEN, ReplyView, spec_step,
};
use crate::status::spec_decode_status;
use vstd::prelude::*;

verus! {

/// A failed bus write ends `reset`, `init` or `measure` at once with
/// `BusError`: the driver goes idle and asks for no read.
pub proof fn lemma_write_failure_is_bus_error(p: Phase)
    requires
        p is ResetWrite || p is InitWrite || p is MeasureWrite,
    ensures
        spec_step(p, Event::WriteFailed) == (
        Phase::Idle,
        ActionView::Done(Err(AhtError::BusError)),
        ),
{
}

/// A failed bus read ends `init` or `measure` with `BusError`, and no status
/// byte is decoded.
pub proof fn lemma_read_failure_is_bus_error(p: Phase)
    requires
        p is InitRead || p is MeasureRead,
    ensures
        spec_step(p, Event::ReadFailed) == (
        Phase::Idle,
        ActionView::Done(Err(AhtError::BusError)),
        ),
{
}

/// A measurement whose status byte has bit 7 set fails with `DeviceBusy`,
/// whatever the payload holds.
pub proof fn lemma_busy_measurement_refused(buf: [u8; 6])
    requires
        (buf[0] & 0x80) != 0,
    ensures
        spec_step(Phase::MeasureRead, Event::ReadOk(buf)) == (
        Phase::Idle,
        ActionView::Done(Err(AhtError::DeviceBusy)),
        ),
{
    let b = buf[0];
    assert(((b & 0x80) != 0) == (b > 0x7F)) by (bit_vector);
}

/// A measurement whose status byte has bit 7 clear and bit 3 clear fails
/// with `NotCalibrated`.
pub proof fn lemma_uncalibrated_measurement_refused(buf: [u8; 6])
    requires
        (buf[0] & 0x80) == 0,
        (buf[0] & 0x08) == 0,
    ensures
        spec_step(Phase::MeasureRead, Event::ReadOk(buf)) == (
        Phase::Idle,
        ActionView::Done(Err(AhtError::NotCalibrated)),
        ),
{
    let b = buf[0];
    assert(((b & 0x80) != 0) == (b > 0x7F)) by (bit_vector);
    assert(((b & 0x08) != 0) == ((b / 8) % 2 == 1)) by (bit_vector);
}

/// A measurement whose write and read succeed waits the processing time,
/// reads the whole response, and then succeeds with the 5 payload bytes
/// exactly when the status byte shows the device idle and calibrated.
pub proof fn lemma_measure_session(buf: [u8; 6])
    ensures
        ({
            let (p1, a1) = spec_step(Phase::MeasureWrite, Event::WriteOk);
            let (p2, a2) = spec_step(p1, Event::WaitDone);
            let (p3, a3) = spec_step(p2, Event::ReadOk(buf));
            &&& a1 == ActionView::Wait(PROCESS_MS)
            &&& a2 == ActionView::Read(RESPONSE_LEN as nat)
            &&& p3 == Phase::Idle
            &&& a3 == ActionView::Done(
                if buf[0] > 0x7F {
                    Err(AhtError::DeviceBusy)
                } else if !spec_decode_status(buf[0]).cal {
                    Err(AhtError::NotCalibrated)
                } else {
                    Ok(ReplyView::Data(buf@.subrange(1, 6)))
                },
            )
        }),
{
}

} // verus!
