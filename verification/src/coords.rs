//! Waiting for a touch: a bounded busy-poll over the touch counter.
//!
//! The touch-status register is polled until a nonzero touch count is
//! seen, then the first touch slot's coordinates are fetched. An open
//! busy-wait would spin forever over a quiet panel, so the poll takes an
//! explicit attempt budget and reports [`TouchError::NoTouch`] when the
//! budget runs out; a poll whose bus exchange fails is retried like a
//! zero reading, against the same budget.

use vstd::prelude::*;
use crate::bus::TouchBus;
use crate::constant::FT6X06_P1_XH_REG;
use crate::constant::FT6X06_TD_STAT_REG;
use crate::decode::coord_of;
use crate::decode::touch_count_of;
use crate::decode::touch_state_of;
use crate::driver::Ft6X06;
use crate::driver::touch_block_reg;
use crate::error::TouchError;

verus! {

/// What the coordinate wait returns when it starts in bus state `m` with
/// `fuel` polls left: the first poll that reads back a nonzero clamped
/// touch count leads to a six-byte fetch of touch slot 1, whose x and y
/// make the result; a spent budget is `NoTouch`; a failed fetch is a bus
/// error.
pub open spec fn coords_verdict<B: TouchBus>(m: B::Model, addr: u8, fuel: nat) -> Result<(u16, u16), TouchError>
    decreases fuel,
{
    if fuel == 0 {
        Err(TouchError::NoTouch)
    } else {
        let m1 = B::state_after_read(m, addr, FT6X06_TD_STAT_REG, 1);
        match B::read_reply(m, addr, FT6X06_TD_STAT_REG, 1) {
            None => coords_verdict::<B>(m1, addr, (fuel - 1) as nat),
            Some(bytes) => {
                if touch_count_of(bytes[0]) == 0 {
                    coords_verdict::<B>(m1, addr, (fuel - 1) as nat)
                } else {
                    match B::read_reply(m1, addr, FT6X06_P1_XH_REG, 6) {
                        Some(tb) => Ok((coord_of(tb[0], tb[1]), coord_of(tb[2], tb[3]))),
                        None => Err(TouchError::Bus),
                    }
                }
            },
        }
    }
}

/// The bus state the coordinate wait leaves behind.
pub open spec fn coords_final_state<B: TouchBus>(m: B::Model, addr: u8, fuel: nat) -> B::Model
    decreases fuel,
{
    if fuel == 0 {
        m
    } else {
        let m1 = B::state_after_read(m, addr, FT6X06_TD_STAT_REG, 1);
        match B::read_reply(m, addr, FT6X06_TD_STAT_REG, 1) {
            None => coords_final_state::<B>(m1, addr, (fuel - 1) as nat),
            Some(bytes) => {
                if touch_count_of(bytes[0]) == 0 {
                    coords_final_state::<B>(m1, addr, (fuel - 1) as nat)
                } else {
                    B::state_after_read(m1, addr, FT6X06_P1_XH_REG, 6)
                }
            },
        }
    }
}

impl Ft6X06 {
    /// Wait for a touch and return its coordinates: poll the touch
    /// counter until it is nonzero, at most `max_attempts` times, then
    /// fetch touch slot 1's record and return its (x, y) pair.
    pub fn get_coordinates<B: TouchBus>(&mut self, bus: &mut B, max_attempts: u32) -> (r: Result<(u16, u16), TouchError>)
        ensures
            *final(self) == *old(self),
            r == coords_verdict::<B>(old(bus).model(), old(self).spec_addr(), max_attempts as nat),
            final(bus).model() == coords_final_state::<B>(old(bus).model(), old(self).spec_addr(), max_attempts as nat),
    {
        let ghost a = self.spec_addr();
        let ghost m0 = bus.model();
        let ghost me = *self;
        let mut i: u32 = 0;
        #[verifier::loop_isolation(false)]
        while i < max_attempts
            invariant
                i <= max_attempts,
                *self == me,
                coords_verdict::<B>(m0, a, max_attempts as nat)
                    == coords_verdict::<B>(bus.model(), a, (max_attempts - i) as nat),
                coords_final_state::<B>(m0, a, max_attempts as nat)
                    == coords_final_state::<B>(bus.model(), a, (max_attempts - i) as nat),
            decreases max_attempts - i,
        {
            let ghost pre = bus.model();
            let ghost fuel = (max_attempts - i) as nat;
            match self.detect_touch(bus) {
                Err(_e) => {
                    proof {
                        assert(coords_verdict::<B>(pre, a, fuel)
                            == coords_verdict::<B>(bus.model(), a, (fuel - 1) as nat));
                        assert(coords_final_state::<B>(pre, a, fuel)
                            == coords_final_state::<B>(bus.model(), a, (fuel - 1) as nat));
                    }
                },
                Ok(n) => {
                    if n > 0 {
                        let ghost m1 = bus.model();
                        let t = self.get_touch(bus, 1);
                        proof {
                            assert(touch_block_reg(1) == FT6X06_P1_XH_REG);
                            assert(coords_final_state::<B>(pre, a, fuel)
                                == B::state_after_read(m1, a, FT6X06_P1_XH_REG, 6));
                        }
                        return match t {
                            Err(e) => Err(e),
                            Ok(state) => Ok((state.x, state.y)),
                        };
                    }
                    proof {
                        assert(coords_verdict::<B>(pre, a, fuel)
                            == coords_verdict::<B>(bus.model(), a, (fuel - 1) as nat));
                        assert(coords_final_state::<B>(pre, a, fuel)
                            == coords_final_state::<B>(bus.model(), a, (fuel - 1) as nat));
                    }
                },
            }
            i = i + 1;
        }
        Err(TouchError::NoTouch)
    }
}

} // verus!
