//! Error taxonomy of the driver.

use vstd::prelude::*;

verus! {

/// A failure surfaced by a driver operation.
///
/// `Bus` is a transport-level failure; it is always propagated and never
/// retried at this layer. `IdMismatch` means a decoded value violated an
/// expected invariant (the chip-ID register did not hold the FT6x06 ID).
/// `CalibrationTimeout` means the bounded calibration poll loop was
/// exhausted. `NoTouch` means the bounded coordinate poll loop ran out of
/// attempts without observing a touch.
#[derive(Clone, Copy, Debug, PartialEq, Eq, Structural)]
pub enum TouchError {
    /// The underlying bus transaction failed.
    Bus,
    /// The chip-ID register did not hold the expected identifier.
    IdMismatch,
    /// The calibration poll loop exhausted all its attempts.
    CalibrationTimeout,
    /// The coordinate poll loop exhausted its attempt budget with no touch.
    NoTouch,
}

} // verus!
