use crate::status::{AhtStatus, decode_status, spec_decode_status};
use vstd::prelude::*;

verus! {

/// The device's fixed 7-bit bus address.
pub const ADDR: u8 = 0x38;

/// Opcode of the initialisation command.
pub const CMD_INIT: u8 = 0xE1;

/// First argument of the initialisation command (enables calibration).
pub const INIT_ARG1: u8 = 0x08;

/// Second argument of the initialisation command.
pub const INIT_ARG2: u8 = 0x00;

/// Opcode of the measurement trigger.
pub const CMD_MEASURE: u8 = 0xAC;

/// First argument of the measurement trigger.
pub const MEASURE_ARG1: u8 = 0x33;

/// Second argument of the measurement trigger.
pub const MEASURE_ARG2: u8 = 0x00;

/// Opcode of the soft reset command.
pub const CMD_RESET: u8 = 0xBA;

/// Settling time after power-up, waited at the start of every `init`.
pub const POWER_UP_MS: u16 = 40;

/// Processing time between a command and reading its response.
pub const PROCESS_MS: u16 = 75;

/// Length of the device's response to `init` and `measure`.
pub const RESPONSE_LEN: usize = 6;

/// Why an operation failed. Every failure ends the operation.
#[derive(Clone, Copy, Debug, PartialEq, Eq, Structural)]
pub enum AhtError {
    /// The bus write or read failed.
    BusError,
    /// The status byte says the device has not finished the measurement.
    DeviceBusy,
    /// The status byte says the device has never completed calibration.
    NotCalibrated,
}

/// What a successful operation hands back.
#[derive(Clone, Copy, Debug, PartialEq, Eq)]
pub enum Reply {
    /// `reset` went out.
    Ack,
    /// `init` read this status.
    Status(AhtStatus),
    /// `measure` read this 5-byte payload.
    Data([u8; 5]),
}

/// A `Reply` with its payload as a sequence.
pub enum ReplyView {
    Ack,
    Status(AhtStatus),
    Data(Seq<u8>),
}

impl View for Reply {
    type V = ReplyView;

    open spec fn view(&self) -> ReplyView {
        match *self {
            Reply::Ack => ReplyView::Ack,
            Reply::Status(s) => ReplyView::Status(s),
            Reply::Data(d) => ReplyView::Data(d@),
        }
    }
}

/// The next thing the caller must do on the driver's behalf.
#[derive(Debug, PartialEq, Eq)]
pub enum Action {
    /// Block for this many milliseconds, then report `Event::WaitDone`.
    Wait(u16),
    /// Write these bytes to `ADDR`, then report `WriteOk` or `WriteFailed`.
    Write(Vec<u8>),
    /// Read this many bytes from `ADDR`, then report `ReadOk` or `ReadFailed`.
    Read(usize),
    /// The operation is over, with this outcome.
    Done(Result<Reply, AhtError>),
}

/// An `Action` with its bytes as sequences.
pub enum ActionView {
    Wait(u16),
    Write(Seq<u8>),
    Read(nat),
    Done(Result<ReplyView, AhtError>),
}

impl View for Action {
    type V = ActionView;

    open spec fn view(&self) -> ActionView {
        match self {
            Action::Wait(ms) => ActionView::Wait(*ms),
            Action::Write(bytes) => ActionView::Write(bytes@),
            Action::Read(n) => ActionView::Read(*n as nat),
            Action::Done(Ok(reply)) => ActionView::Done(Ok(reply@)),
            Action::Done(Err(e)) => ActionView::Done(Err(*e)),
        }
    }
}

/// How the last action went.
#[derive(Clone, Copy, Debug, PartialEq, Eq)]
pub enum Event {
    WaitDone,
    WriteOk,
    WriteFailed,
    /// The read succeeded and filled the whole buffer.
    ReadOk([u8; 6]),
    ReadFailed,
}

/// Where the driver stands: idle, or which step of which operation it
/// waits on.
#[derive(Clone, Copy, Debug, PartialEq, Eq, Structural)]
pub enum Phase {
    Idle,
    ResetWrite,
    InitSettle,
    InitWrite,
    InitProcess,
    InitRead,
    MeasureWrite,
    MeasureProcess,
    MeasureRead,
}

/// The outcome of a measurement, given the 6-byte response: refused while
/// busy, then refused while uncalibrated, else the 5 bytes after the status.
pub open spec fn spec_measurement(buf: Seq<u8>) -> Result<Seq<u8>, AhtError> {
    let status = spec_decode_status(buf[0]);
    if status.busy {
        Err(AhtError::DeviceBusy)
    } else if !status.cal {
        Err(AhtError::NotCalibrated)
    } else {
        Ok(buf.subrange(1, 6))
    }
}

/// Whether a driver in phase `p` takes event `e`: the event must answer the
/// action that the driver asked for last.
pub open spec fn spec_accepts(p: Phase, e: Event) -> bool {
    match p {
        Phase::Idle => false,
        Phase::ResetWrite | Phase::InitWrite | Phase::MeasureWrite => e is WriteOk || e is WriteFailed,
        Phase::InitSettle | Phase::InitProcess | Phase::MeasureProcess => e is WaitDone,
        Phase::InitRead | Phase::MeasureRead => e is ReadOk || e is ReadFailed,
    }
}

/// The next phase and action of a driver in phase `p` that is told `e`.
pub open spec fn spec_step(p: Phase, e: Event) -> (Phase, ActionView) {
    match e {
        Event::WriteFailed | Event::ReadFailed => (Phase::Idle, ActionView::Done(Err(AhtError::BusError))),
        Event::WriteOk => match p {
            Phase::ResetWrite => (Phase::Idle, ActionView::Done(Ok(ReplyView::Ack))),
            Phase::InitWrite => (Phase::InitProcess, ActionView::Wait(PROCESS_MS)),
            _ => (Phase::MeasureProcess, ActionView::Wait(PROCESS_MS)),
        },
        Event::WaitDone => match p {
            Phase::InitSettle => (
                Phase::InitWrite,
                ActionView::Write(seq![CMD_INIT, INIT_ARG1, INIT_ARG2]),
            ),
            Phase::InitProcess => (Phase::InitRead, ActionView::Read(RESPONSE_LEN as nat)),
            _ => (Phase::MeasureRead, ActionView::Read(RESPONSE_LEN as nat)),
        },
        Event::ReadOk(buf) => match p {
            Phase::InitRead => (
                Phase::Idle,
                ActionView::Done(Ok(ReplyView::Status(spec_decode_status(buf[0])))),
            ),
            _ => (
                Phase::Idle,
                ActionView::Done(
                    match spec_measurement(buf@) {
                        Ok(d) => Ok(ReplyView::Data(d)),
                        Err(err) => Err(err),
                    },
                ),
            ),
        },
    }
}

/// Checks the status byte of a measurement response and, if the device is
/// neither busy nor uncalibrated, returns the payload that follows it.
pub fn check_measurement(buf: [u8; 6]) -> (r: Result<[u8; 5], AhtError>)
    ensures
        buf[0] > 0x7F ==> r == Err::<[u8; 5], AhtError>(AhtError::DeviceBusy),
        buf[0] <= 0x7F && (buf[0] & 0x08) == 0 ==> r == Err::<[u8; 5], AhtError>(
            AhtError::NotCalibrated,
        ),
        match r {
            Ok(d) => spec_measurement(buf@) == Ok::<Seq<u8>, AhtError>(d@),
            Err(e) => spec_measurement(buf@) == Err::<Seq<u8>, AhtError>(e),
        },
{
    let status = decode_status(buf[0]);
    if status.busy {
        return Err(AhtError::DeviceBusy);
    }
    if !status.cal {
        return Err(AhtError::NotCalibrated);
    }
    let d = [buf[1], buf[2], buf[3], buf[4], buf[5]];
    assert(d@ =~= buf@.subrange(1, 6));
    Ok(d)
}

/// The sensor driver. It owns no bus: each operation hands out actions for
/// the caller to perform and is fed the events that report how they went.
pub struct Aht100 {
    phase: Phase,
}

impl View for Aht100 {
    type V = Phase;

    closed spec fn view(&self) -> Phase {
        self.phase
    }
}

impl Aht100 {
    /// A driver with no operation under way.
    pub fn new() -> (r: Self)
        ensures
            r@ == Phase::Idle,
    {
        Aht100 { phase: Phase::Idle }
    }

    /// Starts a soft reset, abandoning any unfinished operation: write the
    /// reset opcode; no response is read.
    pub fn reset(&mut self) -> (r: Action)
        ensures
            final(self)@ == Phase::ResetWrite,
            r@ == ActionView::Write(seq![CMD_RESET]),
    {
        self.phase = Phase::ResetWrite;
        let bytes = vec![CMD_RESET];
        assert(bytes@ =~= seq![CMD_RESET]);
        Action::Write(bytes)
    }

    /// Starts an initialisation, abandoning any unfinished operation: it
    /// always begins with the power-up wait.
    pub fn init(&mut self) -> (r: Action)
        ensures
            final(self)@ == Phase::InitSettle,
            r@ == ActionView::Wait(POWER_UP_MS),
    {
        self.phase = Phase::InitSettle;
        Action::Wait(POWER_UP_MS)
    }

    /// Starts a measurement, abandoning any unfinished operation: write the
    /// measurement trigger.
    pub fn measure(&mut self) -> (r: Action)
        ensures
            final(self)@ == Phase::MeasureWrite,
            r@ == ActionView::Write(seq![CMD_MEASURE, MEASURE_ARG1, MEASURE_ARG2]),
    {
        self.phase = Phase::MeasureWrite;
        Action::Write(vec![CMD_MEASURE, MEASURE_ARG1, MEASURE_ARG2])
    }

    /// Whether `event` answers the action that this driver asked for last.
    pub fn accepts(&self, event: &Event) -> (r: bool)
        ensures
            r == spec_accepts(self@, *event),
    {
        match self.phase {
            Phase::Idle => false,
            Phase::ResetWrite | Phase::InitWrite | Phase::MeasureWrite => match event {
                Event::WriteOk | Event::WriteFailed => true,
                _ => false,
            },
            Phase::InitSettle | Phase::InitProcess | Phase::MeasureProcess => match event {
                Event::WaitDone => true,
                _ => false,
            },
            Phase::InitRead | Phase::MeasureRead => match event {
                Event::ReadOk(_) | Event::ReadFailed => true,
                _ => false,
            },
        }
    }

    /// Reports how the last action went and returns the next one.
    pub fn step(&mut self, event: Event) -> (r: Action)
        requires
            spec_accepts(old(self)@, event),
        ensures
            (final(self)@, r@) == spec_step(old(self)@, event),
    {
        match event {
            Event::WriteFailed | Event::ReadFailed => {
                self.phase = Phase::Idle;
                Action::Done(Err(AhtError::BusError))
            },
            Event::WriteOk => match self.phase {
                Phase::ResetWrite => {
                    self.phase = Phase::Idle;
                    Action::Done(Ok(Reply::Ack))
                },
                Phase::InitWrite => {
                    self.phase = Phase::InitProcess;
                    Action::Wait(PROCESS_MS)
                },
                _ => {
                    self.phase = Phase::MeasureProcess;
                    Action::Wait(PROCESS_MS)
                },
            },
            Event::WaitDone => match self.phase {
                Phase::InitSettle => {
                    self.phase = Phase::InitWrite;
                    Action::Write(vec![CMD_INIT, INIT_ARG1, INIT_ARG2])
                },
                Phase::InitProcess => {
                    self.phase = Phase::InitRead;
                    Action::Read(RESPONSE_LEN)
                },
                _ => {
                    self.phase = Phase::MeasureRead;
                    Action::Read(RESPONSE_LEN)
                },
            },
            Event::ReadOk(buf) => match self.phase {
                Phase::InitRead => {
                    self.phase = Phase::Idle;
                    Action::Done(Ok(Reply::Status(decode_status(buf[0]))))
                },
                _ => {
                    self.phase = Phase::Idle;
                    match check_measurement(buf) {
                        Ok(d) => Action::Done(Ok(Reply::Data(d))),
                        Err(e) => Action::Done(Err(e)),
                    }
                },
            },
        }
    }
}

} // verus!
