use ft6x06::CalibState;
use ft6x06::Ft6X06;
use ft6x06::MockBus;
use ft6x06::MockDelay;
use ft6x06::TouchError;
use ft6x06::calib_poll_step;

const ADDR: u8 = 0x38;

/// Drive the polling state machine over a prepared sequence of mode
/// readings; returns the terminal state and how many polls were made.
fn run_polls(readings: &[u8]) -> (CalibState, u32) {
    let mut attempt: u8 = 1;
    let mut polls: u32 = 0;
    loop {
        let reading = readings[(attempt - 1) as usize];
        polls += 1;
        match calib_poll_step(attempt, reading) {
            CalibState::Polling(next) => {
                attempt = next;
            },
            done => {
                return (done, polls);
            },
        }
    }
}

#[test]
fn poll_machine_succeeds_on_attempt_one() {
    let readings = [0x00u8; 100];
    assert_eq!(run_polls(&readings), (CalibState::Calibrated, 1));
}

#[test]
fn poll_machine_succeeds_after_exactly_k_polls() {
    for k in [2usize, 7, 50, 99, 100] {
        let mut readings = [0x01u8; 100];
        readings[k - 1] = 0x00;
        assert_eq!(run_polls(&readings), (CalibState::Calibrated, k as u32));
    }
}

#[test]
fn poll_machine_times_out_after_exactly_100_polls() {
    let readings = [0x01u8; 100];
    assert_eq!(run_polls(&readings), (CalibState::TimedOut, 100));
}

#[test]
fn calibration_succeeds_on_first_poll() {
    let mut d = Ft6X06::new(ADDR).unwrap();
    let mut bus = MockBus::new(ADDR);
    let mut delay = MockDelay::new();
    assert_eq!(d.ts_calibration(&mut bus, &mut delay), Ok(true));
    // one mode read inside the factory-mode request, then one poll
    assert_eq!(bus.reads_made, 2);
    assert_eq!(bus.writes_made, 1);
    // only the settle delay ran: success comes before any inter-poll delay
    assert_eq!(delay.log, vec![300]);
}

#[test]
fn calibration_succeeds_even_in_factory_looking_mode() {
    // the two device-mode masks share no bits, so whatever the register
    // holds reads back as the working mode
    let mut d = Ft6X06::new(ADDR).unwrap();
    let mut bus = MockBus::new(ADDR);
    bus.set_reg(0x00, 0x70);
    let mut delay = MockDelay::new();
    assert_eq!(d.ts_calibration(&mut bus, &mut delay), Ok(true));
    assert_eq!(bus.reads_made, 2);
}

#[test]
fn calibration_reports_poll_bus_fault() {
    let mut d = Ft6X06::new(ADDR).unwrap();
    let mut bus = MockBus::new(ADDR);
    // the factory-request read succeeds, the first poll read fails
    bus.read_faults = vec![false, true];
    let mut delay = MockDelay::new();
    assert_eq!(d.ts_calibration(&mut bus, &mut delay), Err(TouchError::Bus));
    assert_eq!(bus.reads_made, 2);
    // the settle delay ran; the failed poll returned before any inter-poll delay
    assert_eq!(delay.log, vec![300]);
}

#[test]
fn calibration_proceeds_when_factory_request_fails() {
    // the mode-write result is ignored; polling still runs
    let mut d = Ft6X06::new(ADDR).unwrap();
    let mut bus = MockBus::new(ADDR);
    bus.read_faults = vec![true, false];
    let mut delay = MockDelay::new();
    assert_eq!(d.ts_calibration(&mut bus, &mut delay), Ok(true));
    assert_eq!(bus.writes_made, 0);
}

#[test]
fn init_exchanges_nothing() {
    let mut d = Ft6X06::new(ADDR).unwrap();
    let mut bus = MockBus::new(ADDR);
    let mut delay = MockDelay::new();
    d.init(&mut bus, &mut delay);
    assert_eq!(bus.reads_made, 0);
    assert_eq!(bus.writes_made, 0);
    assert!(delay.log.is_empty());
}

#[test]
fn delay_ms_forwards_to_the_delay_source() {
    let mut d = Ft6X06::new(ADDR).unwrap();
    let mut delay = MockDelay::new();
    d.delay_ms(&mut delay, 25);
    d.delay_ms(&mut delay, 17);
    assert_eq!(delay.log, vec![25, 17]);
}
