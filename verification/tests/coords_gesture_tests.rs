use ft6x06::Ft6X06;
use ft6x06::GestureInit;
use ft6x06::GestureKind;
use ft6x06::MockBus;
use ft6x06::TouchError;
use ft6x06::classify_swipe;

const ADDR: u8 = 0x38;

fn touched_bus() -> MockBus {
    let mut bus = MockBus::new(ADDR);
    bus.set_reg(0x02, 1); // one active touch
    bus.set_reg(0x03, 0x01);
    bus.set_reg(0x04, 0x20);
    bus.set_reg(0x05, 0x00);
    bus.set_reg(0x06, 0x30);
    bus
}

#[test]
fn get_coordinates_returns_first_slot_pair() {
    let mut d = Ft6X06::new(ADDR).unwrap();
    let mut bus = touched_bus();
    assert_eq!(d.get_coordinates(&mut bus, 10), Ok((288, 48)));
    // one status poll, then the six-byte block fetch
    assert_eq!(bus.reads_made, 2);
}

#[test]
fn get_coordinates_exhausts_its_attempt_budget() {
    let mut d = Ft6X06::new(ADDR).unwrap();
    let mut bus = MockBus::new(ADDR); // touch count stays zero
    assert_eq!(d.get_coordinates(&mut bus, 7), Err(TouchError::NoTouch));
    assert_eq!(bus.reads_made, 7);
}

#[test]
fn get_coordinates_zero_budget_is_no_touch() {
    let mut d = Ft6X06::new(ADDR).unwrap();
    let mut bus = touched_bus();
    assert_eq!(d.get_coordinates(&mut bus, 0), Err(TouchError::NoTouch));
    assert_eq!(bus.reads_made, 0);
}

#[test]
fn get_coordinates_retries_after_failed_poll() {
    let mut d = Ft6X06::new(ADDR).unwrap();
    let mut bus = touched_bus();
    bus.read_faults = vec![true, false];
    assert_eq!(d.get_coordinates(&mut bus, 3), Ok((288, 48)));
    assert_eq!(bus.reads_made, 3);
}

#[test]
fn get_coordinates_reports_failed_block_fetch() {
    let mut d = Ft6X06::new(ADDR).unwrap();
    let mut bus = touched_bus();
    bus.read_faults = vec![false, true]; // the status poll succeeds, the fetch fails
    assert_eq!(d.get_coordinates(&mut bus, 3), Err(TouchError::Bus));
}

#[test]
fn classify_swipe_large_delta_is_fault_not_right() {
    // first x sample 10, last 150: the delta exceeds the ±100 bound
    let g = classify_swipe(10, 150, 10, 10);
    assert_eq!(g, GestureKind::Fault);
    assert_ne!(g, GestureKind::Right);
}

#[test]
fn classify_swipe_directions() {
    assert_eq!(classify_swipe(10, 60, 0, 0), GestureKind::Right);
    assert_eq!(classify_swipe(60, 10, 0, 0), GestureKind::Left);
    assert_eq!(classify_swipe(0, 0, 10, 60), GestureKind::Up);
    // a dominantly downward motion classifies as Left: no Down is reachable
    assert_eq!(classify_swipe(0, 0, 60, 10), GestureKind::Left);
}

#[test]
fn classify_swipe_equal_deltas_fault() {
    assert_eq!(classify_swipe(0, 10, 0, 10), GestureKind::Fault);
    assert_eq!(classify_swipe(5, 5, 9, 9), GestureKind::Fault);
}

#[test]
fn classify_swipe_bound_is_exclusive() {
    assert_eq!(classify_swipe(0, 100, 0, 0), GestureKind::Right);
    assert_eq!(classify_swipe(0, 101, 0, 0), GestureKind::Fault);
    assert_eq!(classify_swipe(0, 0, 101, 0), GestureKind::Fault);
}

#[test]
fn gest_logic_still_touch_is_fault() {
    // nineteen identical samples: both deltas are zero
    let mut d = Ft6X06::new(ADDR).unwrap();
    let mut bus = touched_bus();
    assert_eq!(d.gest_logic(&mut bus, 1), GestureKind::Fault);
    assert_eq!(bus.reads_made, 38);
}

#[test]
fn gest_logic_moving_touch_classifies_right() {
    // script the x low byte to move under the sampling window: each read
    // exchange bumps it, so the nineteen samples drift rightward
    let mut d = Ft6X06::new(ADDR).unwrap();
    let mut bus = touched_bus();
    bus.bump_on_read = Some(0x04);
    assert_eq!(d.gest_logic(&mut bus, 1), GestureKind::Right);
}

#[test]
fn gest_logic_no_touch_at_all_is_fault() {
    let mut d = Ft6X06::new(ADDR).unwrap();
    let mut bus = MockBus::new(ADDR);
    assert_eq!(d.gest_logic(&mut bus, 1), GestureKind::Fault);
    assert_eq!(bus.reads_made, 19);
}

#[test]
fn gesture_init_roundtrip_through_register_store() {
    let mut d = Ft6X06::new(ADDR).unwrap();
    let mut bus = MockBus::new(ADDR);
    let params = GestureInit {
        radian: 10,
        offset_left_right: 20,
        offset_up_down: 30,
        distance_left_right: 40,
        distance_up_down: 50,
        distance_zoom: 60,
    };
    assert_eq!(d.gesture_init_write(&mut bus, &params), Ok(()));
    assert_eq!(&bus.regs[0x91..0x97], &[10, 20, 30, 40, 50, 60]);
    assert_eq!(d.gesture_init_read(&mut bus), Ok(params));
}

#[test]
fn gesture_init_write_stops_at_first_failed_write() {
    let mut d = Ft6X06::new(ADDR).unwrap();
    let mut bus = MockBus::new(ADDR);
    bus.write_faults = vec![false, true];
    let params = GestureInit {
        radian: 10,
        offset_left_right: 20,
        offset_up_down: 30,
        distance_left_right: 40,
        distance_up_down: 50,
        distance_zoom: 60,
    };
    assert_eq!(d.gesture_init_write(&mut bus, &params), Err(TouchError::Bus));
    assert_eq!(bus.regs[0x91], 10);
    assert_eq!(bus.regs[0x92], 0); // the failed write landed nowhere
    assert_eq!(bus.regs[0x93], 0); // and nothing after it was attempted
    assert_eq!(bus.writes_made, 2);
}
