use ft6x06::GestureKind;
use ft6x06::TouchError;
use ft6x06::clamp_touch_count;
use ft6x06::decode_chip_id;
use ft6x06::decode_dev_mode;
use ft6x06::decode_gesture;
use ft6x06::decode_multi_touch;
use ft6x06::decode_touch;

#[test]
fn decode_touch_example_scenario() {
    let buf: Vec<u8> = vec![0x01, 0x20, 0x00, 0x30, 0x64, 0x05];
    let t = decode_touch(&buf);
    assert!(t.detected);
    assert_eq!(t.x, 1 * 256 + 0x20);
    assert_eq!(t.x, 288);
    assert_eq!(t.y, 0 * 256 + 0x30);
    assert_eq!(t.y, 48);
    assert_eq!(t.weight, 100);
    assert_eq!(t.misc, 5);
}

#[test]
fn decode_touch_masks_high_nibble() {
    // the upper nibble of each high byte carries event flags and must not
    // reach the coordinate
    let buf: Vec<u8> = vec![0xFF, 0xFF, 0xC3, 0x01, 0x07, 0x09];
    let t = decode_touch(&buf);
    assert_eq!(t.x, 0x0F * 256 + 0xFF);
    assert_eq!(t.x, 4095);
    assert_eq!(t.y, 0x03 * 256 + 0x01);
    assert_eq!(t.weight, 7);
    assert_eq!(t.misc, 9);
    assert!(t.x < 4096 && t.y < 4096);
}

#[test]
fn decode_touch_bounds_hold_for_extremes() {
    for hi in [0x00u8, 0x0F, 0xF0, 0xFF] {
        let buf: Vec<u8> = vec![hi, 0xFF, hi, 0xFF, 0xFF, 0xFF];
        let t = decode_touch(&buf);
        assert!(t.x < 4096);
        assert!(t.y < 4096);
    }
}

#[test]
fn decode_multi_touch_two_slots() {
    let buf: Vec<u8> = vec![
        0x01, 0x20, 0x00, 0x30, 0x64, 0x05, // slot 0
        0x02, 0x10, 0x01, 0x40, 0x21, 0x06, // slot 1
    ];
    let m = decode_multi_touch(&buf);
    assert!(m.detected);
    assert_eq!(m.touch_x, [288, 2 * 256 + 0x10]);
    assert_eq!(m.touch_y, [48, 1 * 256 + 0x40]);
    assert_eq!(m.touch_weight, [0x64, 0x21]);
    assert_eq!(m.touch_area, [0x05, 0x06]);
}

#[test]
fn decode_gesture_known_codes() {
    assert_eq!(decode_gesture(0x00), GestureKind::NoGesture);
    assert_eq!(decode_gesture(0x10), GestureKind::Up);
    assert_eq!(decode_gesture(0x14), GestureKind::Right);
    assert_eq!(decode_gesture(0x18), GestureKind::Down);
    assert_eq!(decode_gesture(0x1C), GestureKind::Left);
    assert_eq!(decode_gesture(0x48), GestureKind::ZoomIn);
    assert_eq!(decode_gesture(0x49), GestureKind::ZoomOut);
}

#[test]
fn decode_gesture_total_and_seven_codes_recognized() {
    let mut recognized: u32 = 0;
    for code in 0u16..=255 {
        let kind = decode_gesture(code as u8);
        if kind != GestureKind::Fault {
            recognized += 1;
        }
    }
    assert_eq!(recognized, 7);
}

#[test]
fn decode_gesture_unknown_codes_fault() {
    for code in [0x01u8, 0x13, 0x15, 0x1B, 0x1D, 0x47, 0x4A, 0xFF] {
        assert_eq!(decode_gesture(code), GestureKind::Fault);
    }
}

#[test]
fn decode_chip_id_accepts_expected_id() {
    assert_eq!(decode_chip_id(0x11), Ok(0x11));
}

#[test]
fn decode_chip_id_rejects_other_ids() {
    assert_eq!(decode_chip_id(0x00), Err(TouchError::IdMismatch));
    assert_eq!(decode_chip_id(0xCD), Err(TouchError::IdMismatch));
}

#[test]
fn decode_dev_mode_masks_collapse_to_zero() {
    // the two sequential AND masks share no bits: every byte decodes to 0
    for b in 0u16..=255 {
        assert_eq!(decode_dev_mode(b as u8), 0);
    }
}

#[test]
fn clamp_touch_count_passes_valid_counts() {
    assert_eq!(clamp_touch_count(0), 0);
    assert_eq!(clamp_touch_count(1), 1);
    assert_eq!(clamp_touch_count(2), 2);
}

#[test]
fn clamp_touch_count_clamps_out_of_range_to_zero() {
    assert_eq!(clamp_touch_count(3), 0);
    assert_eq!(clamp_touch_count(0x0F), 0);
    assert_eq!(clamp_touch_count(0xFF), 0);
}
