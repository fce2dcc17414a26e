//! The two-wire bus collaborator the driver runs on.
//!
//! The chip is addressed over an external bus that the caller supplies.
//! `TouchBus` captures the two primitives the driver needs — an addressed
//! write and an addressed write-then-read — together with a mathematical
//! model of the bus: an implementation names an abstract state type, says
//! what reply a write-then-read would get in a state, and how each
//! exchange moves the state. Every driver contract is stated over that
//! model, so whatever the bus does — including failing — the driver's
//! behavior is pinned down. [`crate::mock::MockBus`] is a verified
//! register-store implementation.

use vstd::prelude::*;
use vstd::pervasive::arbitrary;
use crate::error::TouchError;

verus! {

/// An addressed two-wire bus, with a model of its replies.
///
/// An exchange may fail at the transport level; the model decides when.
/// Errors are reported as [`TouchError::Bus`] and never retried at this
/// layer — retries are a caller-level policy.
/// The model's spec functions carry defaults that leave it entirely
/// unspecified, so a platform adapter outside the verified world can
/// implement the trait with only the two exchange methods; nothing can be
/// proved against an implementation that keeps the defaults. A verified
/// implementation overrides them with its real abstraction, as
/// [`crate::mock::MockBus`] does.
pub trait TouchBus: Sized {
    /// The abstract state of this bus, over which its replies are
    /// modeled.
    type Model;

    /// The abstract state this bus is in.
    open spec fn model(&self) -> Self::Model {
        arbitrary()
    }

    /// The reply that a write-then-read of `n` bytes from register `reg`
    /// of device `addr` would get in state `m`: the bytes on success,
    /// `None` on a transport failure.
    open spec fn read_reply(m: Self::Model, addr: u8, reg: u8, n: nat) -> Option<Seq<u8>> {
        arbitrary()
    }

    /// The bus state after that exchange.
    open spec fn state_after_read(m: Self::Model, addr: u8, reg: u8, n: nat) -> Self::Model {
        arbitrary()
    }

    /// Whether a raw write of `data` to device `addr` succeeds in state `m`.
    open spec fn write_ok(m: Self::Model, addr: u8, data: Seq<u8>) -> bool {
        arbitrary()
    }

    /// The bus state after that write.
    open spec fn state_after_write(m: Self::Model, addr: u8, data: Seq<u8>) -> Self::Model {
        arbitrary()
    }

    /// Write the register index `reg` to device `addr`, then read `n`
    /// bytes back.
    fn bus_write_read(&mut self, addr: u8, reg: u8, n: usize) -> (r: Result<Vec<u8>, TouchError>)
        ensures
            final(self).model() == Self::state_after_read(old(self).model(), addr, reg, n as nat),
            (match Self::read_reply(old(self).model(), addr, reg, n as nat) {
                Some(bytes) => r matches Ok(v) && v@ == bytes && bytes.len() == n as nat,
                None => r == Err::<Vec<u8>, TouchError>(TouchError::Bus),
            }),
    ;

    /// Write `data` to device `addr`.
    fn bus_write(&mut self, addr: u8, data: &Vec<u8>) -> (r: Result<(), TouchError>)
        ensures
            final(self).model() == Self::state_after_write(old(self).model(), addr, data@),
            r == (if Self::write_ok(old(self).model(), addr, data@) {
                Ok::<(), TouchError>(())
            } else {
                Err::<(), TouchError>(TouchError::Bus)
            }),
    ;
}

/// A blocking delay collaborator, supplied by the platform. The driver
/// promises nothing about real time; the model is the log of delay calls
/// made, so a contract can fix where the fixed settle and inter-poll
/// delays happen and with what durations.
/// The default of `delay_log` leaves the log unspecified so that a
/// platform delay outside the verified world can implement the trait; a
/// verified implementation overrides it.
pub trait DelaySource: Sized {
    /// The delays performed so far, in milliseconds, in call order.
    open spec fn delay_log(&self) -> Seq<u32> {
        arbitrary()
    }

    /// Block for `ms` milliseconds.
    fn delay_ms(&mut self, ms: u32)
        ensures
            final(self).delay_log() == old(self).delay_log().push(ms),
    ;
}

} // verus!
