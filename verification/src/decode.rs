//! Pure decoders: from raw register bytes to typed touch, gesture and
//! capability values. No I/O happens here.

use vstd::prelude::*;
use crate::constant::FT6X06_DEV_MODE_BIT_MASK;
use crate::constant::FT6X06_DEV_MODE_BIT_POSITION;
use crate::constant::FT6X06_DEV_MODE_WORKING;
use crate::constant::FT6X06_GEST_ID_MOVE_DOWN;
use crate::constant::FT6X06_GEST_ID_MOVE_LEFT;
use crate::constant::FT6X06_GEST_ID_MOVE_RIGHT;
use crate::constant::FT6X06_GEST_ID_MOVE_UP;
use crate::constant::FT6X06_GEST_ID_NO_GESTURE;
use crate::constant::FT6X06_GEST_ID_ZOOM_IN;
use crate::constant::FT6X06_GEST_ID_ZOOM_OUT;
use crate::constant::FT6X06_ID;
use crate::constant::FT6X06_MAX_NB_TOUCH;
use crate::constant::FT6X06_P1_XH_TP_BIT_MASK;
use crate::constant::FT6X06_P1_YH_TP_BIT_MASK;
use crate::error::TouchError;
use crate::types::GestureKind;
use crate::types::MultiTouch;
use crate::types::TouchState;

verus! {

/// A 12-bit coordinate assembled from its register pair: only the low
/// nibble of the high byte contributes (the upper nibble carries event
/// flags), combined as `high nibble * 256 + low byte`.
pub open spec fn coord_of(hi: u8, lo: u8) -> u16 {
    (((hi & FT6X06_P1_XH_TP_BIT_MASK) as int) * 256 + lo as int) as u16
}

/// Bitwise AND of bytes is commutative (the decoders mask with the
/// constant on the left, as the chip documentation writes it).
pub proof fn lemma_and_comm(a: u8, b: u8)
    by (bit_vector)
    ensures
        a & b == b & a,
{
}

/// Every assembled coordinate fits in 12 bits.
pub proof fn lemma_coord_bound(hi: u8, lo: u8)
    ensures
        coord_of(hi, lo) < 4096,
{
    assert(((hi & 0x0Fu8) as int) * 256 + (lo as int) < 4096) by (bit_vector);
}

/// The touch record held in a six-byte register block.
pub open spec fn touch_state_of(buf: Seq<u8>) -> TouchState {
    TouchState {
        detected: true,
        x: coord_of(buf[0], buf[1]),
        y: coord_of(buf[2], buf[3]),
        weight: buf[4],
        misc: buf[5],
    }
}

/// Decode one six-byte touch register block.
///
/// The caller is responsible for having checked that the touch count is
/// nonzero first; this function reports `detected` unconditionally.
pub fn decode_touch(buf: &Vec<u8>) -> (r: TouchState)
    requires
        buf@.len() == 6,
    ensures
        r == touch_state_of(buf@),
        r.x < 4096,
        r.y < 4096,
        r.weight == buf@[4],
        r.misc == buf@[5],
{
    proof {
        lemma_coord_bound(buf@[0], buf@[1]);
        lemma_coord_bound(buf@[2], buf@[3]);
    }
    let x: u16 = (FT6X06_P1_XH_TP_BIT_MASK & buf[0]) as u16 * 256 + buf[1] as u16;
    let y: u16 = (FT6X06_P1_YH_TP_BIT_MASK & buf[2]) as u16 * 256 + buf[3] as u16;
    proof {
        lemma_and_comm(FT6X06_P1_XH_TP_BIT_MASK, buf@[0]);
        lemma_and_comm(FT6X06_P1_YH_TP_BIT_MASK, buf@[2]);
    }
    TouchState { detected: true, x, y, weight: buf[4], misc: buf[5] }
}

/// The multi-touch record held in a twelve-byte register block: the
/// single-touch layout applied to each consecutive six-byte sub-block.
pub open spec fn multi_touch_of(buf: Seq<u8>) -> MultiTouch {
    MultiTouch {
        detected: true,
        touch_x: [coord_of(buf[0], buf[1]), coord_of(buf[6], buf[7])],
        touch_y: [coord_of(buf[2], buf[3]), coord_of(buf[8], buf[9])],
        touch_weight: [buf[4] as u16, buf[10] as u16],
        touch_area: [buf[5] as u16, buf[11] as u16],
    }
}

/// Decode a twelve-byte register block holding both touch slots.
pub fn decode_multi_touch(buf: &Vec<u8>) -> (r: MultiTouch)
    requires
        buf@.len() == 12,
    ensures
        r == multi_touch_of(buf@),
{
    proof {
        lemma_coord_bound(buf@[0], buf@[1]);
        lemma_coord_bound(buf@[2], buf@[3]);
        lemma_coord_bound(buf@[6], buf@[7]);
        lemma_coord_bound(buf@[8], buf@[9]);
        lemma_and_comm(FT6X06_P1_XH_TP_BIT_MASK, buf@[0]);
        lemma_and_comm(FT6X06_P1_YH_TP_BIT_MASK, buf@[2]);
        lemma_and_comm(FT6X06_P1_XH_TP_BIT_MASK, buf@[6]);
        lemma_and_comm(FT6X06_P1_YH_TP_BIT_MASK, buf@[8]);
    }
    let x0: u16 = (FT6X06_P1_XH_TP_BIT_MASK & buf[0]) as u16 * 256 + buf[1] as u16;
    let y0: u16 = (FT6X06_P1_YH_TP_BIT_MASK & buf[2]) as u16 * 256 + buf[3] as u16;
    let x1: u16 = (FT6X06_P1_XH_TP_BIT_MASK & buf[6]) as u16 * 256 + buf[7] as u16;
    let y1: u16 = (FT6X06_P1_YH_TP_BIT_MASK & buf[8]) as u16 * 256 + buf[9] as u16;
    MultiTouch {
        detected: true,
        touch_x: [x0, x1],
        touch_y: [y0, y1],
        touch_weight: [buf[4] as u16, buf[10] as u16],
        touch_area: [buf[5] as u16, buf[11] as u16],
    }
}

/// The gesture kind reported for a gesture-ID register value.
pub open spec fn gesture_kind_of(code: u8) -> GestureKind {
    if code == FT6X06_GEST_ID_NO_GESTURE {
        GestureKind::NoGesture
    } else if code == FT6X06_GEST_ID_MOVE_UP {
        GestureKind::Up
    } else if code == FT6X06_GEST_ID_MOVE_RIGHT {
        GestureKind::Right
    } else if code == FT6X06_GEST_ID_MOVE_DOWN {
        GestureKind::Down
    } else if code == FT6X06_GEST_ID_MOVE_LEFT {
        GestureKind::Left
    } else if code == FT6X06_GEST_ID_ZOOM_IN {
        GestureKind::ZoomIn
    } else if code == FT6X06_GEST_ID_ZOOM_OUT {
        GestureKind::ZoomOut
    } else {
        GestureKind::Fault
    }
}

/// Decode the gesture-ID register. Total: every byte value maps to exactly
/// one kind, and any unrecognized code maps to `Fault`.
pub fn decode_gesture(code: u8) -> (r: GestureKind)
    ensures
        r == gesture_kind_of(code),
{
    if code == FT6X06_GEST_ID_NO_GESTURE {
        GestureKind::NoGesture
    } else if code == FT6X06_GEST_ID_MOVE_UP {
        GestureKind::Up
    } else if code == FT6X06_GEST_ID_MOVE_RIGHT {
        GestureKind::Right
    } else if code == FT6X06_GEST_ID_MOVE_DOWN {
        GestureKind::Down
    } else if code == FT6X06_GEST_ID_MOVE_LEFT {
        GestureKind::Left
    } else if code == FT6X06_GEST_ID_ZOOM_IN {
        GestureKind::ZoomIn
    } else if code == FT6X06_GEST_ID_ZOOM_OUT {
        GestureKind::ZoomOut
    } else {
        GestureKind::Fault
    }
}

/// Exactly seven codes decode to a kind other than `Fault`, each to a
/// distinct one; every other byte value decodes to `Fault`.
pub proof fn lemma_gesture_decode_total(code: u8)
    ensures
        (gesture_kind_of(code) != GestureKind::Fault) <==> (code == 0x00 || code == 0x10
            || code == 0x14 || code == 0x18 || code == 0x1C || code == 0x48 || code == 0x49),
        gesture_kind_of(0x00) == GestureKind::NoGesture,
        gesture_kind_of(0x10) == GestureKind::Up,
        gesture_kind_of(0x14) == GestureKind::Right,
        gesture_kind_of(0x18) == GestureKind::Down,
        gesture_kind_of(0x1C) == GestureKind::Left,
        gesture_kind_of(0x48) == GestureKind::ZoomIn,
        gesture_kind_of(0x49) == GestureKind::ZoomOut,
{
}

/// Check the chip-ID register value against the expected identifier for
/// this chip family.
pub fn decode_chip_id(b: u8) -> (r: Result<u8, TouchError>)
    ensures
        b == FT6X06_ID ==> r == Ok::<u8, TouchError>(b),
        b != FT6X06_ID ==> r == Err::<u8, TouchError>(TouchError::IdMismatch),
{
    if b == FT6X06_ID {
        Ok(b)
    } else {
        Err(TouchError::IdMismatch)
    }
}

/// The device-mode field as this driver extracts it: the mode-register
/// byte masked with the mode bit mask and then with the bit-position
/// constant, as two sequential AND operations.
pub open spec fn dev_mode_of(b: u8) -> u8 {
    (b & FT6X06_DEV_MODE_BIT_MASK) & FT6X06_DEV_MODE_BIT_POSITION
}

/// Extract the device-mode field from the mode-register byte.
///
/// The second constant is applied as a mask, not as a shift amount, so the
/// two masks have no bits in common and the result is always zero (see
/// `lemma_dev_mode_always_working`). This is kept as documented behavior
/// pending hardware clarification; do not fold the two masks together.
pub fn decode_dev_mode(b: u8) -> (r: u8)
    ensures
        r == dev_mode_of(b),
{
    let mut value = b;
    value &= FT6X06_DEV_MODE_BIT_MASK;
    value &= FT6X06_DEV_MODE_BIT_POSITION;
    value
}

/// The two sequential masks share no bits, so the extracted device-mode
/// field equals the working-mode value for every register byte.
pub proof fn lemma_dev_mode_always_working(b: u8)
    ensures
        dev_mode_of(b) == FT6X06_DEV_MODE_WORKING,
{
    assert((b & 0x70u8) & 0x04u8 == 0u8) by (bit_vector);
}

/// The touch count reported for a touch-status register value: counts
/// above the maximum simultaneous-touch bound are clamped to zero rather
/// than reported as errors.
pub open spec fn touch_count_of(status: u8) -> u8 {
    if status <= FT6X06_MAX_NB_TOUCH {
        status
    } else {
        0
    }
}

/// Clamp a raw touch-status byte to a valid touch count.
pub fn clamp_touch_count(status: u8) -> (r: u8)
    ensures
        r == touch_count_of(status),
        r <= FT6X06_MAX_NB_TOUCH,
{
    if status <= FT6X06_MAX_NB_TOUCH {
        status
    } else {
        0
    }
}

} // verus!
