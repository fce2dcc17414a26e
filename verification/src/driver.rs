//! The FT6x06 driver object: addressed register exchanges and their
//! decoding into typed values.
//!
//! Every method is generic over the bus collaborator and states its result
//! over the bus model: which exchange it performs, what it returns for
//! every possible reply, and the bus state it leaves behind.

use vstd::prelude::*;
use crate::bus::DelaySource;
use crate::bus::TouchBus;
use crate::constant::FT6X06_AUTO_CALIBRATION_ENABLED;
use crate::constant::FT6X06_CHIP_ID_REG;
use crate::constant::FT6X06_DEV_MODE_BIT_MASK;
use crate::constant::FT6X06_DEV_MODE_BIT_POSITION;
use crate::constant::FT6X06_DEV_MODE_REG;
use crate::constant::FT6X06_FIRMID_REG;
use crate::constant::FT6X06_GEST_ID_REG;
use crate::constant::FT6X06_MAX_NB_TOUCH;
use crate::constant::FT6X06_P1_XH_REG;
use crate::constant::FT6X06_RADIAN_VALUE_REG;
use crate::decode::clamp_touch_count;
use crate::decode::decode_chip_id;
use crate::decode::decode_dev_mode;
use crate::decode::decode_gesture;
use crate::decode::decode_multi_touch;
use crate::decode::decode_touch;
use crate::decode::dev_mode_of;
use crate::decode::gesture_kind_of;
use crate::decode::multi_touch_of;
use crate::decode::touch_count_of;
use crate::decode::touch_state_of;
use crate::error::TouchError;
use crate::types::Ft6x06Capabilities;
use crate::types::GestureKind;
use crate::types::MultiTouch;
use crate::types::TouchState;
use crate::types::spec_capabilities;

verus! {

/// FT6x06 driver object. It owns nothing but the chip's fixed 7-bit bus
/// address, captured at construction; the bus itself is passed to each
/// operation.
pub struct Ft6X06 {
    addr: u8,
}

/// The device-mode register byte with the mode field replaced by `value`:
/// the mode bits are cleared and `value`, shifted to the mode position, is
/// merged in.
pub open spec fn dev_mode_merged(cur: u8, value: u8) -> u8 {
    (cur & !FT6X06_DEV_MODE_BIT_MASK) | (value << FT6X06_DEV_MODE_BIT_POSITION)
}

/// The register address of a touch slot's six-byte block; slots are
/// numbered from 1.
pub open spec fn touch_block_reg(touch_i: u8) -> u8 {
    (FT6X06_P1_XH_REG + 6 * (touch_i - 1)) as u8
}

impl Ft6X06 {
    /// The chip bus address this driver was created with.
    pub closed spec fn spec_addr(&self) -> u8 {
        self.addr
    }

    /// The chip bus address, for composing exchanges.
    pub(crate) fn addr_value(&self) -> (r: u8)
        ensures
            r == self.spec_addr(),
    {
        self.addr
    }

    /// Creates a new driver for the device at bus address `addr`.
    pub fn new(addr: u8) -> (r: Result<Ft6X06, TouchError>)
        ensures
            r matches Ok(d) && d.spec_addr() == addr,
    {
        Ok(Ft6X06 { addr })
    }

    /// Initialise the device. The FT6x06 should be calibrated once after
    /// each power up, but automatic calibration is disabled for this chip
    /// family configuration, so nothing is exchanged.
    pub fn init<B: TouchBus, D: DelaySource>(&mut self, bus: &mut B, delay_source: &mut D)
        ensures
            *final(self) == *old(self),
            final(bus).model() == old(bus).model(),
            final(delay_source).delay_log() == old(delay_source).delay_log(),
    {
        if FT6X06_AUTO_CALIBRATION_ENABLED {
            let _ = self.ts_calibration(bus, delay_source);
        }
    }

    /// Block for `delay` milliseconds on the caller's delay source: one
    /// delay call with the given duration, nothing else.
    pub fn delay_ms<D: DelaySource>(&mut self, delay_source: &mut D, delay: u32)
        ensures
            *final(self) == *old(self),
            final(delay_source).delay_log() == old(delay_source).delay_log().push(delay),
    {
        delay_source.delay_ms(delay);
    }

    /// The preset capabilities of the FT6x06: multi-touch with at most two
    /// simultaneous touches, no hardware gesture engine.
    pub fn get_capabilities(&self) -> (r: Ft6x06Capabilities)
        ensures
            r == spec_capabilities(),
    {
        Ft6x06Capabilities {
            multi_touch: true,
            gesture: false,
            max_touch: FT6X06_MAX_NB_TOUCH,
            max_x_length: crate::constant::FT6X06_MAX_X_LENGTH,
            may_y_length: crate::constant::FT6X06_MAX_Y_LENGTH,
        }
    }

    /// Read the device-mode register and extract the mode field.
    pub fn dev_mode_r<B: TouchBus>(&self, bus: &mut B) -> (r: Result<u8, TouchError>)
        ensures
            final(bus).model() == B::state_after_read(old(bus).model(), self.spec_addr(), FT6X06_DEV_MODE_REG, 1),
            (match B::read_reply(old(bus).model(), self.spec_addr(), FT6X06_DEV_MODE_REG, 1) {
                Some(bytes) => r == Ok::<u8, TouchError>(dev_mode_of(bytes[0])),
                None => r == Err::<u8, TouchError>(TouchError::Bus),
            }),
    {
        let buf = match bus.bus_write_read(self.addr, FT6X06_DEV_MODE_REG, 1) {
            Ok(b) => b,
            Err(e) => {
                return Err(e);
            },
        };
        Ok(decode_dev_mode(buf[0]))
    }

    /// Write `value` into the mode field of the device-mode register,
    /// keeping the other bits of the register byte: the byte is read,
    /// merged and written back. Returns whether the requested value was
    /// zero (the working mode).
    pub fn dev_mode_w<B: TouchBus>(&self, bus: &mut B, value: u8) -> (r: Result<bool, TouchError>)
        ensures
            (match B::read_reply(old(bus).model(), self.spec_addr(), FT6X06_DEV_MODE_REG, 1) {
                Some(bytes) => {
                    let m1 = B::state_after_read(old(bus).model(), self.spec_addr(), FT6X06_DEV_MODE_REG, 1);
                    let payload = seq![dev_mode_merged(bytes[0], value)];
                    &&& final(bus).model() == B::state_after_write(m1, self.spec_addr(), payload)
                    &&& r == (if B::write_ok(m1, self.spec_addr(), payload) {
                        Ok::<bool, TouchError>(value == 0)
                    } else {
                        Err::<bool, TouchError>(TouchError::Bus)
                    })
                },
                None => {
                    &&& final(bus).model() == B::state_after_read(old(bus).model(), self.spec_addr(), FT6X06_DEV_MODE_REG, 1)
                    &&& r == Err::<bool, TouchError>(TouchError::Bus)
                },
            }),
    {
        let buf = match bus.bus_write_read(self.addr, FT6X06_DEV_MODE_REG, 1) {
            Ok(b) => b,
            Err(e) => {
                return Err(e);
            },
        };
        let mut tmp = buf[0];
        tmp &= !FT6X06_DEV_MODE_BIT_MASK;
        tmp |= value << FT6X06_DEV_MODE_BIT_POSITION;

        let mut payload: Vec<u8> = Vec::new();
        payload.push(tmp);
        proof {
            assert(payload@ =~= seq![dev_mode_merged(buf@[0], value)]);
        }
        match bus.bus_write(self.addr, &payload) {
            Ok(()) => Ok(value == 0),
            Err(e) => Err(e),
        }
    }

    /// Read the touch device status register: the raw number of active
    /// touch points.
    pub fn td_status<B: TouchBus>(&self, bus: &mut B) -> (r: Result<u8, TouchError>)
        ensures
            final(bus).model() == B::state_after_read(old(bus).model(), self.spec_addr(), crate::constant::FT6X06_TD_STAT_REG, 1),
            (match B::read_reply(old(bus).model(), self.spec_addr(), crate::constant::FT6X06_TD_STAT_REG, 1) {
                Some(bytes) => r == Ok::<u8, TouchError>(bytes[0]),
                None => r == Err::<u8, TouchError>(TouchError::Bus),
            }),
    {
        let buf = match bus.bus_write_read(self.addr, crate::constant::FT6X06_TD_STAT_REG, 1) {
            Ok(b) => b,
            Err(e) => {
                return Err(e);
            },
        };
        Ok(buf[0])
    }

    /// Read the chip-ID register and check it against the expected
    /// identifier: `Ok` exactly when the bus exchange succeeds and the
    /// chip reports the FT6x06 ID.
    pub fn chip_id<B: TouchBus>(&self, bus: &mut B) -> (r: Result<u8, TouchError>)
        ensures
            final(bus).model() == B::state_after_read(old(bus).model(), self.spec_addr(), FT6X06_CHIP_ID_REG, 1),
            (match B::read_reply(old(bus).model(), self.spec_addr(), FT6X06_CHIP_ID_REG, 1) {
                Some(bytes) => r == (if bytes[0] == crate::constant::FT6X06_ID {
                    Ok::<u8, TouchError>(bytes[0])
                } else {
                    Err::<u8, TouchError>(TouchError::IdMismatch)
                }),
                None => r == Err::<u8, TouchError>(TouchError::Bus),
            }),
    {
        let buf = match bus.bus_write_read(self.addr, FT6X06_CHIP_ID_REG, 1) {
            Ok(b) => b,
            Err(e) => {
                return Err(e);
            },
        };
        decode_chip_id(buf[0])
    }

    /// Is the device being touched? If so, with how many fingers? A status
    /// byte above the maximum simultaneous-touch bound is reported as zero
    /// touches, not as an error.
    pub fn detect_touch<B: TouchBus>(&mut self, bus: &mut B) -> (r: Result<u8, TouchError>)
        ensures
            *final(self) == *old(self),
            final(bus).model() == B::state_after_read(old(bus).model(), old(self).spec_addr(), crate::constant::FT6X06_TD_STAT_REG, 1),
            (match B::read_reply(old(bus).model(), old(self).spec_addr(), crate::constant::FT6X06_TD_STAT_REG, 1) {
                Some(bytes) => {
                    &&& r == Ok::<u8, TouchError>(touch_count_of(bytes[0]))
                    &&& touch_count_of(bytes[0]) <= FT6X06_MAX_NB_TOUCH
                },
                None => r == Err::<u8, TouchError>(TouchError::Bus),
            }),
    {
        let status = match self.td_status(bus) {
            Ok(n) => n,
            Err(e) => {
                return Err(e);
            },
        };
        Ok(clamp_touch_count(status))
    }

    /// Retrieve the FT6x06 firmware id.
    pub fn firmware_id<B: TouchBus>(&mut self, bus: &mut B) -> (r: Result<u8, TouchError>)
        ensures
            *final(self) == *old(self),
            final(bus).model() == B::state_after_read(old(bus).model(), old(self).spec_addr(), FT6X06_FIRMID_REG, 1),
            (match B::read_reply(old(bus).model(), old(self).spec_addr(), FT6X06_FIRMID_REG, 1) {
                Some(bytes) => r == Ok::<u8, TouchError>(bytes[0]),
                None => r == Err::<u8, TouchError>(TouchError::Bus),
            }),
    {
        let buf = match bus.bus_write_read(self.addr, FT6X06_FIRMID_REG, 1) {
            Ok(b) => b,
            Err(e) => {
                return Err(e);
            },
        };
        Ok(buf[0])
    }

    /// Read the gesture radian-threshold register.
    pub fn gesture_radian_read<B: TouchBus>(&mut self, bus: &mut B) -> (r: Result<u8, TouchError>)
        ensures
            *final(self) == *old(self),
            final(bus).model() == B::state_after_read(old(bus).model(), old(self).spec_addr(), FT6X06_RADIAN_VALUE_REG, 1),
            (match B::read_reply(old(bus).model(), old(self).spec_addr(), FT6X06_RADIAN_VALUE_REG, 1) {
                Some(bytes) => r == Ok::<u8, TouchError>(bytes[0]),
                None => r == Err::<u8, TouchError>(TouchError::Bus),
            }),
    {
        let buf = match bus.bus_write_read(self.addr, FT6X06_RADIAN_VALUE_REG, 1) {
            Ok(b) => b,
            Err(e) => {
                return Err(e);
            },
        };
        Ok(buf[0])
    }

    /// Push `value` into the radian-threshold register, so that a
    /// subsequent read returns it. Returns whether the requested value was
    /// zero.
    pub fn gesture_radian_write<B: TouchBus>(&self, bus: &mut B, value: u8) -> (r: Result<bool, TouchError>)
        ensures
            final(bus).model() == B::state_after_write(old(bus).model(), self.spec_addr(), seq![FT6X06_RADIAN_VALUE_REG, value]),
            r == (if B::write_ok(old(bus).model(), self.spec_addr(), seq![FT6X06_RADIAN_VALUE_REG, value]) {
                Ok::<bool, TouchError>(value == 0)
            } else {
                Err::<bool, TouchError>(TouchError::Bus)
            }),
    {
        match self.write_param(bus, FT6X06_RADIAN_VALUE_REG, value) {
            Ok(()) => Ok(value == 0),
            Err(e) => Err(e),
        }
    }

    /// Fetch the touch record of slot `touch_i` (slots are numbered from 1
    /// to the maximum simultaneous-touch count): one six-byte block read
    /// and decoded.
    pub fn get_touch<B: TouchBus>(&mut self, bus: &mut B, touch_i: u8) -> (r: Result<TouchState, TouchError>)
        requires
            1 <= touch_i <= FT6X06_MAX_NB_TOUCH,
        ensures
            *final(self) == *old(self),
            final(bus).model() == B::state_after_read(old(bus).model(), old(self).spec_addr(), touch_block_reg(touch_i), 6),
            (match B::read_reply(old(bus).model(), old(self).spec_addr(), touch_block_reg(touch_i), 6) {
                Some(bytes) => r == Ok::<TouchState, TouchError>(touch_state_of(bytes)),
                None => r == Err::<TouchState, TouchError>(TouchError::Bus),
            }),
    {
        let reg = FT6X06_P1_XH_REG + 6 * (touch_i - 1);
        let buf = match bus.bus_write_read(self.addr, reg, 6) {
            Ok(b) => b,
            Err(e) => {
                return Err(e);
            },
        };
        Ok(decode_touch(&buf))
    }

    /// Fetch both touch slots in one twelve-byte block read starting at
    /// slot `touch_i`'s block.
    pub fn get_multi_touch<B: TouchBus>(&mut self, bus: &mut B, touch_i: u8) -> (r: Result<MultiTouch, TouchError>)
        requires
            1 <= touch_i <= FT6X06_MAX_NB_TOUCH,
        ensures
            *final(self) == *old(self),
            final(bus).model() == B::state_after_read(old(bus).model(), old(self).spec_addr(), touch_block_reg(touch_i), 12),
            (match B::read_reply(old(bus).model(), old(self).spec_addr(), touch_block_reg(touch_i), 12) {
                Some(bytes) => r == Ok::<MultiTouch, TouchError>(multi_touch_of(bytes)),
                None => r == Err::<MultiTouch, TouchError>(TouchError::Bus),
            }),
    {
        let reg = FT6X06_P1_XH_REG + 6 * (touch_i - 1);
        let buf = match bus.bus_write_read(self.addr, reg, 12) {
            Ok(b) => b,
            Err(e) => {
                return Err(e);
            },
        };
        Ok(decode_multi_touch(&buf))
    }

    /// Read the gesture-ID register and decode the gesture the chip's own
    /// engine reports. The engine is unreliable on this chip family; see
    /// the software classifier for the supported path.
    pub fn get_gesture<B: TouchBus>(&mut self, bus: &mut B) -> (r: Result<GestureKind, TouchError>)
        ensures
            *final(self) == *old(self),
            final(bus).model() == B::state_after_read(old(bus).model(), old(self).spec_addr(), FT6X06_GEST_ID_REG, 1),
            (match B::read_reply(old(bus).model(), old(self).spec_addr(), FT6X06_GEST_ID_REG, 1) {
                Some(bytes) => r == Ok::<GestureKind, TouchError>(gesture_kind_of(bytes[0])),
                None => r == Err::<GestureKind, TouchError>(TouchError::Bus),
            }),
    {
        let buf = match bus.bus_write_read(self.addr, FT6X06_GEST_ID_REG, 1) {
            Ok(b) => b,
            Err(e) => {
                return Err(e);
            },
        };
        Ok(decode_gesture(buf[0]))
    }
}

} // verus!
