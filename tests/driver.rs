use aht100::{
    Action, Aht100, AhtError, AhtMode, Event, Reply, check_measurement, decode_raw,
    decode_status, ADDR, FULL_SCALE,
};

/// A scripted bus: each write and read succeeds or fails as told, and every
/// action the driver asks for is logged.
struct MockBus {
    write_ok: bool,
    read: Option<[u8; 6]>,
    log: Vec<String>,
}

impl MockBus {
    fn new(write_ok: bool, read: Option<[u8; 6]>) -> Self {
        MockBus { write_ok, read, log: Vec::new() }
    }

    fn run(&mut self, driver: &mut Aht100, first: Action) -> Result<Reply, AhtError> {
        let mut action = first;
        loop {
            let event = match action {
                Action::Done(outcome) => return outcome,
                Action::Wait(ms) => {
                    self.log.push(format!("wait {}", ms));
                    Event::WaitDone
                }
                Action::Write(bytes) => {
                    self.log.push(format!("write {:02x} {:02x?}", ADDR, bytes));
                    if self.write_ok {
                        Event::WriteOk
                    } else {
                        Event::WriteFailed
                    }
                }
                Action::Read(n) => {
                    self.log.push(format!("read {:02x} {}", ADDR, n));
                    match self.read {
                        Some(buf) => Event::ReadOk(buf),
                        None => Event::ReadFailed,
                    }
                }
            };
            assert!(driver.accepts(&event));
            action = driver.step(event);
        }
    }
}

#[test]
fn status_flags_for_every_byte() {
    for b in 0..=255u8 {
        let s = decode_status(b);
        assert_eq!(s.busy, b > 0x7F);
        assert_eq!(s.cal, (b & 0x08) != 0);
    }
}

#[test]
fn status_modes() {
    assert_eq!(decode_status(0x00).mode, AhtMode::Nor);
    assert_eq!(decode_status(0x20).mode, AhtMode::Cyc);
    assert_eq!(decode_status(0x40).mode, AhtMode::Cmd);
    assert_eq!(decode_status(0x60).mode, AhtMode::Cmd);
    assert_eq!(decode_status(0xFF).mode, AhtMode::Cmd);
    assert_eq!(decode_status(0x9F).mode, AhtMode::Nor);
}

#[test]
fn raw_fields_of_half_scale() {
    let raw = decode_raw([0x80, 0x00, 0x08, 0x00, 0x00]);
    assert_eq!(raw.hum, 1 << 19);
    assert_eq!(raw.temp, 1 << 19);
    let hum = raw.hum as f32 / FULL_SCALE as f32 * 100.0;
    let temp = raw.temp as f32 / FULL_SCALE as f32 * 200.0 - 50.0;
    assert_eq!(hum, 50.0);
    assert_eq!(temp, 50.0);
}

#[test]
fn raw_fields_split_the_middle_byte() {
    let raw = decode_raw([0x19, 0x99, 0x9A, 0x06, 0x66]);
    assert_eq!(raw.hum, 0x19999);
    assert_eq!(raw.temp, 0xA0666);
    let raw = decode_raw([0xFF, 0xFF, 0xFF, 0xFF, 0xFF]);
    assert_eq!(raw.hum, FULL_SCALE - 1);
    assert_eq!(raw.temp, FULL_SCALE - 1);
    let raw = decode_raw([0, 0, 0, 0, 0]);
    assert_eq!(raw.hum, 0);
    assert_eq!(raw.temp, 0);
}

#[test]
fn check_measurement_outcomes() {
    assert_eq!(check_measurement([0x98, 1, 2, 3, 4, 5]), Err(AhtError::DeviceBusy));
    assert_eq!(check_measurement([0x80, 1, 2, 3, 4, 5]), Err(AhtError::DeviceBusy));
    assert_eq!(check_measurement([0x10, 1, 2, 3, 4, 5]), Err(AhtError::NotCalibrated));
    assert_eq!(check_measurement([0x08, 1, 2, 3, 4, 5]), Ok([1, 2, 3, 4, 5]));
}

#[test]
fn measure_busy_is_refused() {
    let mut d = Aht100::new();
    let first = d.measure();
    let mut bus = MockBus::new(true, Some([0x98, 0x19, 0x99, 0x9A, 0x06, 0x66]));
    assert_eq!(bus.run(&mut d, first), Err(AhtError::DeviceBusy));
    let first = d.measure();
    let mut bus = MockBus::new(true, Some([0xFF, 0, 0, 0, 0, 0]));
    assert_eq!(bus.run(&mut d, first), Err(AhtError::DeviceBusy));
}

#[test]
fn measure_uncalibrated_is_refused() {
    let mut d = Aht100::new();
    let first = d.measure();
    let mut bus = MockBus::new(true, Some([0x10, 0x19, 0x99, 0x9A, 0x06, 0x66]));
    assert_eq!(bus.run(&mut d, first), Err(AhtError::NotCalibrated));
}

#[test]
fn write_failure_skips_the_read() {
    let mut d = Aht100::new();

    let first = d.reset();
    let mut bus = MockBus::new(false, Some([0x18, 0, 0, 0, 0, 0]));
    assert_eq!(bus.run(&mut d, first), Err(AhtError::BusError));
    assert_eq!(bus.log, vec!["write 38 [ba]".to_string()]);

    let first = d.init();
    let mut bus = MockBus::new(false, Some([0x18, 0, 0, 0, 0, 0]));
    assert_eq!(bus.run(&mut d, first), Err(AhtError::BusError));
    assert_eq!(bus.log, vec!["wait 40".to_string(), "write 38 [e1, 08, 00]".to_string()]);

    let first = d.measure();
    let mut bus = MockBus::new(false, Some([0x18, 0, 0, 0, 0, 0]));
    assert_eq!(bus.run(&mut d, first), Err(AhtError::BusError));
    assert_eq!(bus.log, vec!["write 38 [ac, 33, 00]".to_string()]);
}

#[test]
fn read_failure_is_bus_error() {
    let mut d = Aht100::new();
    let first = d.init();
    let mut bus = MockBus::new(true, None);
    assert_eq!(bus.run(&mut d, first), Err(AhtError::BusError));
    let first = d.measure();
    let mut bus = MockBus::new(true, None);
    assert_eq!(bus.run(&mut d, first), Err(AhtError::BusError));
    assert_eq!(
        bus.log,
        vec!["write 38 [ac, 33, 00]".to_string(), "wait 75".to_string(), "read 38 6".to_string()]
    );
}

#[test]
fn reset_success() {
    let mut d = Aht100::new();
    let first = d.reset();
    assert_eq!(first, Action::Write(vec![0xBA]));
    let mut bus = MockBus::new(true, None);
    assert_eq!(bus.run(&mut d, first), Ok(Reply::Ack));
    assert_eq!(bus.log, vec!["write 38 [ba]".to_string()]);
}

#[test]
fn init_returns_status_even_uncalibrated() {
    let mut d = Aht100::new();
    let first = d.init();
    let mut bus = MockBus::new(true, Some([0x20, 0, 0, 0, 0, 0]));
    let r = bus.run(&mut d, first);
    assert_eq!(
        bus.log,
        vec![
            "wait 40".to_string(),
            "write 38 [e1, 08, 00]".to_string(),
            "wait 75".to_string(),
            "read 38 6".to_string()
        ]
    );
    match r {
        Ok(Reply::Status(s)) => {
            assert!(!s.busy);
            assert!(!s.cal);
            assert_eq!(s.mode, AhtMode::Cyc);
        }
        other => panic!("unexpected outcome {:?}", other),
    }
}

#[test]
fn measure_end_to_end() {
    let mut d = Aht100::new();
    let first = d.measure();
    let mut bus = MockBus::new(true, Some([0x18, 0x19, 0x99, 0x9A, 0x06, 0x66]));
    let r = bus.run(&mut d, first);
    assert_eq!(r, Ok(Reply::Data([0x19, 0x99, 0x9A, 0x06, 0x66])));
    let raw = decode_raw([0x19, 0x99, 0x9A, 0x06, 0x66]);
    assert_eq!(raw.hum, (0x19 << 12) | (0x99 << 4) | (0x9A >> 4));
    assert_eq!(raw.temp, (0x0A << 16) | (0x06 << 8) | 0x66);
}

#[test]
fn events_must_answer_the_last_action() {
    let mut d = Aht100::new();
    assert!(!d.accepts(&Event::WaitDone));
    assert!(!d.accepts(&Event::WriteOk));
    d.init();
    assert!(d.accepts(&Event::WaitDone));
    assert!(!d.accepts(&Event::WriteOk));
    assert!(!d.accepts(&Event::ReadFailed));
    assert_eq!(d.step(Event::WaitDone), Action::Write(vec![0xE1, 0x08, 0x00]));
    assert!(d.accepts(&Event::WriteFailed));
    assert!(!d.accepts(&Event::ReadOk([0; 6])));
    assert_eq!(d.step(Event::WriteOk), Action::Wait(75));
    assert_eq!(d.step(Event::WaitDone), Action::Read(6));
    assert!(d.accepts(&Event::ReadOk([0; 6])));
}

#[test]
fn starting_again_abandons_the_unfinished_operation() {
    let mut d = Aht100::new();
    d.init();
    d.step(Event::WaitDone);
    let a = d.measure();
    assert_eq!(a, Action::Write(vec![0xAC, 0x33, 0x00]));
    assert_eq!(d.step(Event::WriteOk), Action::Wait(75));
}
