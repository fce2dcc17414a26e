//! Typed values produced by the decoder.

use vstd::prelude::*;
use crate::constant::FT6X06_MAX_NB_TOUCH;
use crate::constant::FT6X06_MAX_X_LENGTH;
use crate::constant::FT6X06_MAX_Y_LENGTH;

verus! {

/// The preset capabilities of the FT6x06 controller family.
///
/// Multi-touch is supported with at most two simultaneous touches; the
/// hardware gesture engine is reported as unsupported because it could not
/// be made to work reliably, and gesture classification is done in software
/// instead.
#[derive(Clone, Copy, Debug, PartialEq, Eq, Structural)]
pub struct Ft6x06Capabilities {
    pub multi_touch: bool,
    pub gesture: bool,
    pub max_touch: u8,
    pub max_x_length: u16,
    pub may_y_length: u16,
}

/// The capability table as a mathematical value.
pub open spec fn spec_capabilities() -> Ft6x06Capabilities {
    Ft6x06Capabilities {
        multi_touch: true,
        gesture: false,
        max_touch: FT6X06_MAX_NB_TOUCH,
        max_x_length: FT6X06_MAX_X_LENGTH,
        may_y_length: FT6X06_MAX_Y_LENGTH,
    }
}

/// A single touch record, decoded from one six-byte register block.
#[derive(Clone, Copy, Debug, PartialEq, Eq, Structural)]
pub struct TouchState {
    /// Was a touch detected.
    pub detected: bool,
    /// X position.
    pub x: u16,
    /// Y position.
    pub y: u16,
    /// Weight of touch.
    pub weight: u8,
    /// Misc (contents not known).
    pub misc: u8,
}

/// Data for up to two simultaneous touches, decoded from a twelve-byte
/// register block. Each array holds one entry per touch slot.
#[derive(Clone, Copy, Debug, PartialEq, Eq)]
pub struct MultiTouch {
    pub detected: bool,
    /// X positions.
    pub touch_x: [u16; 2],
    /// Y positions.
    pub touch_y: [u16; 2],
    /// Weights of touch.
    pub touch_weight: [u16; 2],
    /// Touch areas (contents not known).
    pub touch_area: [u16; 2],
}

/// Possible choices of gesture.
#[derive(Clone, Copy, Debug, PartialEq, Eq, Structural)]
pub enum GestureKind {
    /// No gesture detected.
    NoGesture,
    /// Up gesture.
    Up,
    /// Right gesture.
    Right,
    /// Down gesture.
    Down,
    /// Left gesture.
    Left,
    /// Zoom-in gesture.
    ZoomIn,
    /// Zoom-out gesture.
    ZoomOut,
    /// Decode failure or unrecognized motion.
    Fault,
}

/// The six tunable gesture-sensitivity parameters, mirroring the six
/// contiguous gesture registers starting at the radian-value register.
/// They are cached in memory after a read and pushed back on a write.
#[derive(Clone, Copy, Debug, PartialEq, Eq, Structural)]
pub struct GestureInit {
    /// Radians required to sense a circle (probably not used).
    pub radian: u8,
    /// Offset distance left right.
    pub offset_left_right: u8,
    /// Offset distance up down.
    pub offset_up_down: u8,
    /// Distance for swipes left right.
    pub distance_left_right: u8,
    /// Distance for swipes up down.
    pub distance_up_down: u8,
    /// Distance for zoom.
    pub distance_zoom: u8,
}

} // verus!
