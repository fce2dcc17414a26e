//! The calibration handshake: a bounded-retry convergence loop.
//!
//! Calibration writes the factory mode into the device-mode register,
//! waits a fixed settle delay, then polls the device-mode register up to
//! 100 times, 200 ms apart, succeeding as soon as the read-back mode field
//! equals the working mode and timing out when all attempts are exhausted.
//!
//! The polling phase is a small state machine, [`CalibState`], whose step
//! function is pure and proved exact, so the attempt arithmetic can be
//! examined apart from any bus. [`Ft6X06::ts_calibration`] drives it over
//! a real bus and is specified over the bus model.

use vstd::prelude::*;
use crate::bus::DelaySource;
use crate::bus::TouchBus;
use crate::constant::FT6X06_DEV_MODE_FACTORY;
use crate::constant::FT6X06_DEV_MODE_REG;
use crate::constant::FT6X06_DEV_MODE_WORKING;
use crate::decode::dev_mode_of;
use crate::decode::lemma_dev_mode_always_working;
use crate::driver::Ft6X06;
use crate::driver::dev_mode_merged;
use crate::error::TouchError;

verus! {

/// The number of device-mode polls calibration makes before giving up.
pub const CALIB_MAX_POLLS: u8 = 100;

/// States of the calibration handshake.
#[derive(Clone, Copy, Debug, PartialEq, Eq, Structural)]
pub enum CalibState {
    /// No calibration in progress.
    Idle,
    /// The factory mode has been written; the settle delay is running.
    FactoryModeRequested,
    /// Poll number `attempt` (counted from 1) is about to read the
    /// device mode.
    Polling(u8),
    /// A poll read back the working mode: calibration succeeded.
    Calibrated,
    /// All polls were exhausted without seeing the working mode.
    TimedOut,
}

/// One step of the polling phase: the mode field read back by poll
/// `attempt` decides the next state. The working mode ends the handshake
/// at once; any other reading either moves to the next poll or, when the
/// attempt bound is reached, times out.
pub open spec fn calib_poll_step_spec(attempt: u8, reading: u8) -> CalibState {
    if reading == FT6X06_DEV_MODE_WORKING {
        CalibState::Calibrated
    } else if attempt >= CALIB_MAX_POLLS {
        CalibState::TimedOut
    } else {
        CalibState::Polling((attempt + 1) as u8)
    }
}

/// Take one step of the polling phase.
pub fn calib_poll_step(attempt: u8, reading: u8) -> (r: CalibState)
    requires
        1 <= attempt <= CALIB_MAX_POLLS,
    ensures
        r == calib_poll_step_spec(attempt, reading),
{
    if reading == FT6X06_DEV_MODE_WORKING {
        CalibState::Calibrated
    } else if attempt >= CALIB_MAX_POLLS {
        CalibState::TimedOut
    } else {
        CalibState::Polling(attempt + 1)
    }
}

/// Run the polling phase from poll `attempt` over a sequence of mode
/// readings, `readings[i]` being what poll `i + 1` reads back. A run that
/// needs a reading past the end of the sequence stops in its `Polling`
/// state.
pub open spec fn calib_run(readings: Seq<u8>, attempt: u8) -> CalibState
    decreases 101 - attempt,
{
    if !(1 <= attempt && attempt <= CALIB_MAX_POLLS && attempt <= readings.len()) {
        CalibState::Polling(attempt)
    } else {
        match calib_poll_step_spec(attempt, readings[attempt - 1]) {
            CalibState::Polling(k) => calib_run(readings, k),
            next => next,
        }
    }
}

/// How many polls the run from poll `attempt` makes before it stops.
pub open spec fn calib_run_polls(readings: Seq<u8>, attempt: u8) -> int
    decreases 101 - attempt,
{
    if !(1 <= attempt && attempt <= CALIB_MAX_POLLS && attempt <= readings.len()) {
        0
    } else {
        match calib_poll_step_spec(attempt, readings[attempt - 1]) {
            CalibState::Polling(k) => 1 + calib_run_polls(readings, k),
            _ => 1,
        }
    }
}

proof fn lemma_calib_run_succeeds_from(readings: Seq<u8>, attempt: u8, k: int)
    requires
        1 <= attempt <= k <= CALIB_MAX_POLLS,
        k <= readings.len(),
        readings[k - 1] == FT6X06_DEV_MODE_WORKING,
        forall|j: int| attempt - 1 <= j < k - 1 ==> readings[j] != FT6X06_DEV_MODE_WORKING,
    ensures
        calib_run(readings, attempt) == CalibState::Calibrated,
        calib_run_polls(readings, attempt) == k - attempt + 1,
    decreases k - attempt,
{
    if attempt < k {
        lemma_calib_run_succeeds_from(readings, (attempt + 1) as u8, k);
    }
}

/// A device that first reports the working mode on poll `k` (1 ≤ k ≤ 100)
/// makes the polling phase succeed after exactly `k` polls.
pub proof fn lemma_calibration_succeeds_at(readings: Seq<u8>, k: int)
    requires
        1 <= k <= CALIB_MAX_POLLS,
        k <= readings.len(),
        readings[k - 1] == FT6X06_DEV_MODE_WORKING,
        forall|j: int| 0 <= j < k - 1 ==> readings[j] != FT6X06_DEV_MODE_WORKING,
    ensures
        calib_run(readings, 1) == CalibState::Calibrated,
        calib_run_polls(readings, 1) == k,
{
    lemma_calib_run_succeeds_from(readings, 1, k);
}

proof fn lemma_calib_run_times_out_from(readings: Seq<u8>, attempt: u8)
    requires
        1 <= attempt <= CALIB_MAX_POLLS,
        readings.len() >= CALIB_MAX_POLLS,
        forall|j: int| attempt - 1 <= j < CALIB_MAX_POLLS ==> readings[j] != FT6X06_DEV_MODE_WORKING,
    ensures
        calib_run(readings, attempt) == CalibState::TimedOut,
        calib_run_polls(readings, attempt) == CALIB_MAX_POLLS - attempt + 1,
    decreases CALIB_MAX_POLLS - attempt,
{
    if attempt < CALIB_MAX_POLLS {
        lemma_calib_run_times_out_from(readings, (attempt + 1) as u8);
    }
}

/// A device that never reports the working mode makes the polling phase
/// time out after exactly 100 polls.
pub proof fn lemma_calibration_times_out(readings: Seq<u8>)
    requires
        readings.len() >= CALIB_MAX_POLLS,
        forall|j: int| 0 <= j < CALIB_MAX_POLLS ==> readings[j] != FT6X06_DEV_MODE_WORKING,
    ensures
        calib_run(readings, 1) == CalibState::TimedOut,
        calib_run_polls(readings, 1) == CALIB_MAX_POLLS as int,
{
    lemma_calib_run_times_out_from(readings, 1);
}

/// The bus state after `i` device-mode polls starting from state `m`.
pub open spec fn poll_state<B: TouchBus>(m: B::Model, addr: u8, i: nat) -> B::Model
    decreases i,
{
    if i == 0 {
        m
    } else {
        B::state_after_read(poll_state::<B>(m, addr, (i - 1) as nat), addr, FT6X06_DEV_MODE_REG, 1)
    }
}

/// The decoded mode field that poll `i + 1` reads back (after `i` earlier
/// polls), or `None` when that exchange fails.
pub open spec fn poll_reading<B: TouchBus>(m: B::Model, addr: u8, i: nat) -> Option<u8> {
    match B::read_reply(poll_state::<B>(m, addr, i), addr, FT6X06_DEV_MODE_REG, 1) {
        Some(bytes) => Some(dev_mode_of(bytes[0])),
        None => None,
    }
}

/// What the calibration poll loop returns when it starts in bus state `m`
/// at poll `attempt`: success on the working mode, a bus error on a failed
/// exchange, a timeout after the hundredth other reading.
pub open spec fn calib_verdict<B: TouchBus>(m: B::Model, addr: u8, attempt: int) -> Result<bool, TouchError>
    decreases 101 - attempt,
{
    if !(1 <= attempt && attempt <= CALIB_MAX_POLLS) {
        Err(TouchError::CalibrationTimeout)
    } else {
        match B::read_reply(m, addr, FT6X06_DEV_MODE_REG, 1) {
            None => Err(TouchError::Bus),
            Some(bytes) => {
                if dev_mode_of(bytes[0]) == FT6X06_DEV_MODE_WORKING {
                    Ok(true)
                } else if attempt == CALIB_MAX_POLLS {
                    Err(TouchError::CalibrationTimeout)
                } else {
                    calib_verdict::<B>(
                        B::state_after_read(m, addr, FT6X06_DEV_MODE_REG, 1),
                        addr,
                        attempt + 1,
                    )
                }
            },
        }
    }
}

/// How many polls the loop makes from bus state `m` at poll `attempt`.
pub open spec fn calib_poll_count<B: TouchBus>(m: B::Model, addr: u8, attempt: int) -> int
    decreases 101 - attempt,
{
    if !(1 <= attempt && attempt <= CALIB_MAX_POLLS) {
        0
    } else {
        match B::read_reply(m, addr, FT6X06_DEV_MODE_REG, 1) {
            None => 1,
            Some(bytes) => {
                if dev_mode_of(bytes[0]) == FT6X06_DEV_MODE_WORKING {
                    1
                } else if attempt == CALIB_MAX_POLLS {
                    1
                } else {
                    1 + calib_poll_count::<B>(
                        B::state_after_read(m, addr, FT6X06_DEV_MODE_REG, 1),
                        addr,
                        attempt + 1,
                    )
                }
            },
        }
    }
}

/// How many inter-poll delays a calibration run makes from bus state `m`:
/// one after every poll whose reading moves the loop on, so one fewer
/// than the polls made when the loop returns early, and one per poll when
/// it times out.
pub open spec fn calib_delay_count<B: TouchBus>(m: B::Model, addr: u8) -> int {
    if calib_verdict::<B>(m, addr, 1) == Err::<bool, TouchError>(TouchError::CalibrationTimeout) {
        CALIB_MAX_POLLS as int
    } else {
        calib_poll_count::<B>(m, addr, 1) - 1
    }
}

/// The bus state after the factory-mode request that opens calibration:
/// the device-mode register is read and, when that read succeeds, the
/// merged byte is written back.
pub open spec fn factory_request_state<B: TouchBus>(m: B::Model, addr: u8) -> B::Model {
    let m1 = B::state_after_read(m, addr, FT6X06_DEV_MODE_REG, 1);
    match B::read_reply(m, addr, FT6X06_DEV_MODE_REG, 1) {
        Some(bytes) => B::state_after_write(
            m1,
            addr,
            seq![dev_mode_merged(bytes[0], FT6X06_DEV_MODE_FACTORY)],
        ),
        None => m1,
    }
}

proof fn lemma_verdict_follows_machine_from<B: TouchBus>(
    m0: B::Model,
    addr: u8,
    readings: Seq<u8>,
    attempt: u8,
)
    requires
        1 <= attempt <= CALIB_MAX_POLLS,
        readings.len() == CALIB_MAX_POLLS,
        forall|i: int| 0 <= i < CALIB_MAX_POLLS ==> poll_reading::<B>(m0, addr, i as nat)
            == Some(readings[i]),
    ensures
        calib_verdict::<B>(poll_state::<B>(m0, addr, (attempt - 1) as nat), addr, attempt as int)
            == (match calib_run(readings, attempt) {
                CalibState::Calibrated => Ok::<bool, TouchError>(true),
                _ => Err::<bool, TouchError>(TouchError::CalibrationTimeout),
            }),
        calib_poll_count::<B>(poll_state::<B>(m0, addr, (attempt - 1) as nat), addr, attempt as int)
            == calib_run_polls(readings, attempt),
    decreases CALIB_MAX_POLLS - attempt,
{
    let cur = poll_state::<B>(m0, addr, (attempt - 1) as nat);
    assert(poll_reading::<B>(m0, addr, (attempt - 1) as nat) == Some(readings[attempt - 1]));
    if readings[attempt - 1] != FT6X06_DEV_MODE_WORKING && attempt < CALIB_MAX_POLLS {
        assert(poll_state::<B>(m0, addr, attempt as nat)
            == B::state_after_read(cur, addr, FT6X06_DEV_MODE_REG, 1));
        lemma_verdict_follows_machine_from::<B>(m0, addr, readings, (attempt + 1) as u8);
    }
}

/// When every poll exchange on the bus succeeds, the calibration loop's
/// verdict and poll count agree with the polling state machine run over
/// the decoded readings: calibrated means success, anything else is the
/// timeout.
pub proof fn lemma_calibration_follows_machine<B: TouchBus>(m: B::Model, addr: u8, readings: Seq<u8>)
    requires
        readings.len() == CALIB_MAX_POLLS,
        forall|i: int| 0 <= i < CALIB_MAX_POLLS ==> poll_reading::<B>(m, addr, i as nat)
            == Some(readings[i]),
    ensures
        calib_verdict::<B>(m, addr, 1) == (match calib_run(readings, 1) {
            CalibState::Calibrated => Ok::<bool, TouchError>(true),
            _ => Err::<bool, TouchError>(TouchError::CalibrationTimeout),
        }),
        calib_poll_count::<B>(m, addr, 1) == calib_run_polls(readings, 1),
{
    lemma_verdict_follows_machine_from::<B>(m, addr, readings, 1);
    assert(poll_state::<B>(m, addr, 0) == m);
}

/// Through this driver's device-mode decode the mode field of every
/// successful poll equals the working mode, so a calibration run resolves
/// on its very first poll: success if that exchange went through, a bus
/// error otherwise, never a timeout.
pub proof fn lemma_calibration_resolves_on_first_poll<B: TouchBus>(m: B::Model, addr: u8)
    ensures
        poll_reading::<B>(m, addr, 0) is Some ==> calib_verdict::<B>(m, addr, 1) == Ok::<bool, TouchError>(true),
        poll_reading::<B>(m, addr, 0) is None ==> calib_verdict::<B>(m, addr, 1) == Err::<bool, TouchError>(TouchError::Bus),
        calib_poll_count::<B>(m, addr, 1) == 1,
{
    match B::read_reply(m, addr, FT6X06_DEV_MODE_REG, 1) {
        Some(bytes) => {
            lemma_dev_mode_always_working(bytes[0]);
        },
        None => {},
    }
}

impl Ft6X06 {
    /// Run an internal calibration on the FT6x06: request the factory
    /// mode, wait 300 ms, then poll the device mode up to 100 times,
    /// 200 ms apart. Returns `Ok(true)` as soon as a poll reads back the
    /// working mode, a bus error if a poll exchange fails, and a timeout
    /// after 100 other readings.
    #[verifier::loop_isolation(false)]
    pub fn ts_calibration<B: TouchBus, D: DelaySource>(
        &mut self,
        bus: &mut B,
        delay_source: &mut D,
    ) -> (r: Result<bool, TouchError>)
        ensures
            *final(self) == *old(self),
            ({
                let m1 = factory_request_state::<B>(old(bus).model(), old(self).spec_addr());
                &&& r == calib_verdict::<B>(m1, old(self).spec_addr(), 1)
                &&& final(bus).model() == poll_state::<B>(
                    m1,
                    old(self).spec_addr(),
                    calib_poll_count::<B>(m1, old(self).spec_addr(), 1) as nat,
                )
                &&& final(delay_source).delay_log() == old(delay_source).delay_log().push(300u32)
                    + Seq::new(
                    calib_delay_count::<B>(m1, old(self).spec_addr()) as nat,
                    |i: int| 200u32,
                )
            }),
    {
        let ghost a = self.spec_addr();
        let ghost dlog0 = delay_source.delay_log();
        let _result = self.dev_mode_w(bus, FT6X06_DEV_MODE_FACTORY);
        let ghost m1 = bus.model();
        proof {
            assert(m1 == factory_request_state::<B>(old(bus).model(), a));
        }

        delay_source.delay_ms(300);
        proof {
            assert(delay_source.delay_log() =~= dlog0.push(300u32) + Seq::new(0, |i: int| 200u32));
        }

        let mut attempt: u8 = 1;
        while attempt <= CALIB_MAX_POLLS
            invariant
                1 <= attempt <= 101,
                bus.model() == poll_state::<B>(m1, a, (attempt - 1) as nat),
                delay_source.delay_log() == dlog0.push(300u32) + Seq::new(
                    (attempt - 1) as nat,
                    |i: int| 200u32,
                ),
                attempt <= 100 ==> calib_verdict::<B>(m1, a, 1) == calib_verdict::<B>(bus.model(), a, attempt as int),
                attempt <= 100 ==> calib_poll_count::<B>(m1, a, 1) == attempt - 1 + calib_poll_count::<B>(bus.model(), a, attempt as int),
                attempt == 101 ==> calib_verdict::<B>(m1, a, 1) == Err::<bool, TouchError>(TouchError::CalibrationTimeout),
                attempt == 101 ==> calib_poll_count::<B>(m1, a, 1) == 100,
            decreases 101 - attempt,
        {
            let ghost pre = bus.model();
            let n = match self.dev_mode_r(bus) {
                Err(e) => {
                    proof {
                        assert(B::read_reply(pre, a, FT6X06_DEV_MODE_REG, 1) is None);
                        assert(calib_verdict::<B>(pre, a, attempt as int)
                            == Err::<bool, TouchError>(TouchError::Bus));
                        assert(calib_poll_count::<B>(pre, a, attempt as int) == 1);
                        assert(bus.model() == poll_state::<B>(m1, a, attempt as nat));
                    }
                    return Err(e);
                },
                Ok(n) => n,
            };
            match calib_poll_step(attempt, n) {
                CalibState::Calibrated => {
                    proof {
                        assert(calib_verdict::<B>(pre, a, attempt as int)
                            == Ok::<bool, TouchError>(true));
                        assert(calib_poll_count::<B>(pre, a, attempt as int) == 1);
                        assert(bus.model() == poll_state::<B>(m1, a, attempt as nat));
                    }
                    return Ok(true);
                },
                CalibState::Polling(k) => {
                    proof {
                        assert(calib_verdict::<B>(pre, a, attempt as int)
                            == calib_verdict::<B>(bus.model(), a, attempt + 1));
                        assert(calib_poll_count::<B>(pre, a, attempt as int)
                            == 1 + calib_poll_count::<B>(bus.model(), a, attempt + 1));
                        assert(bus.model() == poll_state::<B>(m1, a, attempt as nat));
                    }
                    delay_source.delay_ms(200);
                    proof {
                        assert(delay_source.delay_log() =~= dlog0.push(300u32) + Seq::new(
                            attempt as nat,
                            |i: int| 200u32,
                        ));
                    }
                    attempt = k;
                },
                _ => {
                    // from a polling state the step only ever times out here
                    proof {
                        assert(attempt == 100 && n != FT6X06_DEV_MODE_WORKING);
                        assert(calib_verdict::<B>(pre, a, attempt as int)
                            == Err::<bool, TouchError>(TouchError::CalibrationTimeout));
                        assert(calib_poll_count::<B>(pre, a, attempt as int) == 1);
                        assert(bus.model() == poll_state::<B>(m1, a, attempt as nat));
                    }
                    delay_source.delay_ms(200);
                    proof {
                        assert(delay_source.delay_log() =~= dlog0.push(300u32) + Seq::new(
                            attempt as nat,
                            |i: int| 200u32,
                        ));
                    }
                    attempt = 101;
                },
            }
        }
        Err(TouchError::CalibrationTimeout)
    }
}

} // verus!
