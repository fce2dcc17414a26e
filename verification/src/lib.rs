//! A platform-agnostic driver for the FT6x06 family of capacitive
//! touch-panel controllers.
//!
//! The driver maps raw two-wire bus reads to typed touch, gesture and
//! capability values, drives the calibration mode-switch handshake, and
//! classifies coarse swipe gestures from a sliding window of coordinate
//! samples. The bus itself is a collaborator supplied by the caller
//! through the [`bus::TouchBus`] trait; [`mock::MockBus`] is an in-memory
//! register-store implementation for exercising the driver without
//! hardware.

pub mod bus;
pub mod calib;
pub mod constant;
pub mod coords;
pub mod decode;
pub mod driver;
pub mod error;
pub mod gesture;
pub mod mock;
pub mod params;
pub mod types;

pub use bus::DelaySource;
pub use bus::TouchBus;
pub use calib::CalibState;
pub use calib::calib_poll_step;
pub use decode::clamp_touch_count;
pub use decode::decode_chip_id;
pub use decode::decode_dev_mode;
pub use decode::decode_gesture;
pub use decode::decode_multi_touch;
pub use decode::decode_touch;
pub use driver::Ft6X06;
pub use error::TouchError;
pub use gesture::classify_swipe;
pub use mock::MockBus;
pub use mock::MockDelay;
pub use types::Ft6x06Capabilities;
pub use types::GestureInit;
pub use types::GestureKind;
pub use types::MultiTouch;
pub use types::TouchState;
