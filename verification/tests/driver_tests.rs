use ft6x06::Ft6X06;
use ft6x06::GestureKind;
use ft6x06::MockBus;
use ft6x06::TouchError;

const ADDR: u8 = 0x38;

fn driver() -> Ft6X06 {
    Ft6X06::new(ADDR).unwrap()
}

#[test]
fn new_always_succeeds() {
    assert!(Ft6X06::new(ADDR).is_ok());
    assert!(Ft6X06::new(0x00).is_ok());
}

#[test]
fn capabilities_table() {
    let d = driver();
    let caps = d.get_capabilities();
    assert!(caps.multi_touch);
    assert!(!caps.gesture);
    assert_eq!(caps.max_touch, 2);
    assert_eq!(caps.max_x_length, 800);
    assert_eq!(caps.may_y_length, 480);
}

#[test]
fn chip_id_accepts_ft6x06() {
    let d = driver();
    let mut bus = MockBus::new(ADDR);
    bus.set_reg(0xA8, 0x11);
    assert_eq!(d.chip_id(&mut bus), Ok(0x11));
    assert_eq!(bus.reads_made, 1);
}

#[test]
fn chip_id_rejects_wrong_id() {
    let d = driver();
    let mut bus = MockBus::new(ADDR);
    bus.set_reg(0xA8, 0xCD);
    assert_eq!(d.chip_id(&mut bus), Err(TouchError::IdMismatch));
}

#[test]
fn chip_id_reports_bus_fault() {
    let d = driver();
    let mut bus = MockBus::new(ADDR);
    bus.set_reg(0xA8, 0x11);
    bus.read_faults = vec![true];
    assert_eq!(d.chip_id(&mut bus), Err(TouchError::Bus));
}

#[test]
fn td_status_reads_raw_count() {
    let d = driver();
    let mut bus = MockBus::new(ADDR);
    bus.set_reg(0x02, 5);
    assert_eq!(d.td_status(&mut bus), Ok(5));
}

#[test]
fn detect_touch_passes_valid_counts() {
    let mut d = driver();
    let mut bus = MockBus::new(ADDR);
    bus.set_reg(0x02, 2);
    assert_eq!(d.detect_touch(&mut bus), Ok(2));
}

#[test]
fn detect_touch_clamps_out_of_range_status_to_zero() {
    let mut d = driver();
    let mut bus = MockBus::new(ADDR);
    bus.set_reg(0x02, 5);
    // above the maximum simultaneous-touch count: zero touches, not an error
    assert_eq!(d.detect_touch(&mut bus), Ok(0));
    bus.set_reg(0x02, 0xFF);
    assert_eq!(d.detect_touch(&mut bus), Ok(0));
}

#[test]
fn detect_touch_propagates_bus_fault() {
    let mut d = driver();
    let mut bus = MockBus::new(ADDR);
    bus.read_faults = vec![true];
    assert_eq!(d.detect_touch(&mut bus), Err(TouchError::Bus));
}

#[test]
fn get_touch_decodes_slot_one() {
    let mut d = driver();
    let mut bus = MockBus::new(ADDR);
    bus.set_reg(0x03, 0x01);
    bus.set_reg(0x04, 0x20);
    bus.set_reg(0x05, 0x00);
    bus.set_reg(0x06, 0x30);
    bus.set_reg(0x07, 0x64);
    bus.set_reg(0x08, 0x05);
    let t = d.get_touch(&mut bus, 1).unwrap();
    assert!(t.detected);
    assert_eq!((t.x, t.y, t.weight, t.misc), (288, 48, 100, 5));
}

#[test]
fn get_touch_decodes_slot_two() {
    let mut d = driver();
    let mut bus = MockBus::new(ADDR);
    bus.set_reg(0x09, 0x02);
    bus.set_reg(0x0A, 0x10);
    bus.set_reg(0x0B, 0x01);
    bus.set_reg(0x0C, 0x40);
    bus.set_reg(0x0D, 0x21);
    bus.set_reg(0x0E, 0x06);
    let t = d.get_touch(&mut bus, 2).unwrap();
    assert_eq!((t.x, t.y), (2 * 256 + 0x10, 1 * 256 + 0x40));
    assert_eq!((t.weight, t.misc), (0x21, 0x06));
}

#[test]
fn get_multi_touch_decodes_both_slots() {
    let mut d = driver();
    let mut bus = MockBus::new(ADDR);
    let block: [u8; 12] = [0x01, 0x20, 0x00, 0x30, 0x64, 0x05, 0x02, 0x10, 0x01, 0x40, 0x21, 0x06];
    for (i, b) in block.iter().enumerate() {
        bus.set_reg(0x03 + i as u8, *b);
    }
    let m = d.get_multi_touch(&mut bus, 1).unwrap();
    assert!(m.detected);
    assert_eq!(m.touch_x, [288, 2 * 256 + 0x10]);
    assert_eq!(m.touch_y, [48, 1 * 256 + 0x40]);
    assert_eq!(m.touch_weight, [0x64, 0x21]);
    assert_eq!(m.touch_area, [0x05, 0x06]);
    assert_eq!(bus.reads_made, 1);
}

#[test]
fn get_gesture_decodes_code() {
    let mut d = driver();
    let mut bus = MockBus::new(ADDR);
    bus.set_reg(0x01, 0x14);
    assert_eq!(d.get_gesture(&mut bus), Ok(GestureKind::Right));
    bus.set_reg(0x01, 0x33);
    assert_eq!(d.get_gesture(&mut bus), Ok(GestureKind::Fault));
}

#[test]
fn firmware_id_reads_register() {
    let mut d = driver();
    let mut bus = MockBus::new(ADDR);
    bus.set_reg(0xA6, 0x42);
    assert_eq!(d.firmware_id(&mut bus), Ok(0x42));
}

#[test]
fn gesture_radian_read_reads_register() {
    let mut d = driver();
    let mut bus = MockBus::new(ADDR);
    bus.set_reg(0x91, 0x2A);
    assert_eq!(d.gesture_radian_read(&mut bus), Ok(0x2A));
}

#[test]
fn gesture_radian_write_stores_the_value() {
    let mut d = driver();
    let mut bus = MockBus::new(ADDR);
    bus.set_reg(0x91, 0x55);
    assert_eq!(d.gesture_radian_write(&mut bus, 0x10), Ok(false));
    // the value is pushed back: a subsequent read returns it
    assert_eq!(bus.regs[0x91], 0x10);
    assert_eq!(d.gesture_radian_read(&mut bus), Ok(0x10));
    assert_eq!(d.gesture_radian_write(&mut bus, 0), Ok(true));
    assert_eq!(bus.regs[0x91], 0x00);
    assert_eq!(bus.writes_made, 2);
}

#[test]
fn gesture_radian_write_reports_bus_fault() {
    let d = driver();
    let mut bus = MockBus::new(ADDR);
    bus.write_faults = vec![true];
    assert_eq!(d.gesture_radian_write(&mut bus, 0x10), Err(TouchError::Bus));
    assert_eq!(bus.regs[0x91], 0x00);
}

#[test]
fn dev_mode_r_always_reads_working_mode() {
    let d = driver();
    let mut bus = MockBus::new(ADDR);
    for stored in [0x00u8, 0x04, 0x40, 0x70, 0xFF] {
        bus.set_reg(0x00, stored);
        assert_eq!(d.dev_mode_r(&mut bus), Ok(0));
    }
}

#[test]
fn dev_mode_w_reports_whether_request_was_zero() {
    let d = driver();
    let mut bus = MockBus::new(ADDR);
    assert_eq!(d.dev_mode_w(&mut bus, 4), Ok(false));
    assert_eq!(d.dev_mode_w(&mut bus, 0), Ok(true));
    // a one-byte payload does not reach the register store
    assert_eq!(bus.regs[0x00], 0);
    assert_eq!(bus.writes_made, 2);
}

#[test]
fn operations_fail_for_wrong_device_address() {
    let mut d = Ft6X06::new(0x2A).unwrap();
    let mut bus = MockBus::new(ADDR);
    bus.set_reg(0x02, 1);
    assert_eq!(d.detect_touch(&mut bus), Err(TouchError::Bus));
}
