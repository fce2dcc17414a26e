//! An in-memory bus for exercising the driver without hardware.
//!
//! `MockBus` keeps a register store of plain bytes and echoes two-byte
//! writes (register index, value) into it; a write-then-read replies with
//! the stored bytes. Fault scripts let a test schedule transport failures
//! for upcoming exchanges, and two counters record how many exchanges of
//! each kind were made, so a test can observe, say, how many polls a
//! calibration run took.

use vstd::prelude::*;
use crate::bus::DelaySource;
use crate::bus::TouchBus;
use crate::error::TouchError;

verus! {

/// The abstract state of a [`MockBus`]: the device address it answers,
/// its register store, and the scripts of scheduled transport faults
/// (one entry consumed per exchange; an empty script means no faults).
#[verifier::ext_equal]
pub struct MockBusModel {
    pub addr: u8,
    pub store: Seq<u8>,
    pub read_faults: Seq<bool>,
    pub write_faults: Seq<bool>,
    pub bump_on_read: Option<u8>,
}

/// A register store after one read exchange: when a bump register is
/// scripted, it is incremented (wrapping) — a moving value with which a
/// test can make successive reads differ.
pub open spec fn store_after_bump(store: Seq<u8>, bump_on_read: Option<u8>) -> Seq<u8> {
    match bump_on_read {
        Some(reg) => if (reg as int) < store.len() {
            let v = store[reg as int];
            store.update(reg as int, if v == 255 { 0u8 } else { (v + 1) as u8 })
        } else {
            store
        },
        None => store,
    }
}

/// Whether the front of a fault script schedules a failure now.
pub open spec fn fault_now(script: Seq<bool>) -> bool {
    script.len() > 0 && script[0]
}

/// A fault script with its front entry consumed.
pub open spec fn script_rest(script: Seq<bool>) -> Seq<bool> {
    if script.len() > 0 {
        script.drop_first()
    } else {
        script
    }
}

/// An in-memory register-store bus.
pub struct MockBus {
    /// The device address this bus answers; exchanges aimed at any other
    /// address fail.
    pub addr: u8,
    /// The register store, indexed by register address.
    pub regs: Vec<u8>,
    /// Scheduled transport faults for upcoming write-then-read exchanges.
    pub read_faults: Vec<bool>,
    /// Scheduled transport faults for upcoming writes.
    pub write_faults: Vec<bool>,
    /// A register incremented after every read exchange, when scripted.
    pub bump_on_read: Option<u8>,
    /// How many write-then-read exchanges were made (saturating).
    pub reads_made: usize,
    /// How many writes were made (saturating).
    pub writes_made: usize,
}

impl MockBus {
    /// A fault-free mock for device `addr` with 256 registers, all zero.
    #[verifier::loop_isolation(false)]
    pub fn new(addr: u8) -> (r: MockBus)
        ensures
            r.model().addr == addr,
            r.model().store.len() == 256,
            forall|i: int| 0 <= i < 256 ==> r.model().store[i] == 0u8,
            r.model().read_faults.len() == 0,
            r.model().write_faults.len() == 0,
            r.model().bump_on_read is None,
            r.reads_made == 0,
            r.writes_made == 0,
    {
        let mut regs: Vec<u8> = Vec::new();
        let mut i: usize = 0;
        while i < 256
            invariant
                i <= 256,
                regs@.len() == i,
                forall|j: int| 0 <= j < i ==> regs@[j] == 0u8,
            decreases 256 - i,
        {
            regs.push(0);
            i = i + 1;
        }
        MockBus {
            addr,
            regs,
            read_faults: Vec::new(),
            write_faults: Vec::new(),
            bump_on_read: None,
            reads_made: 0,
            writes_made: 0,
        }
    }

    /// Store `value` in register `reg`, as test setup.
    pub fn set_reg(&mut self, reg: u8, value: u8)
        requires
            (reg as int) < old(self).model().store.len(),
        ensures
            final(self).model() == (MockBusModel { store: old(self).model().store.update(reg as int, value), ..old(self).model() }),
            final(self).reads_made == old(self).reads_made,
            final(self).writes_made == old(self).writes_made,
    {
        let idx = reg as usize;
        self.regs[idx] = value;
        proof {
            assert(self.model() =~= (MockBusModel { store: old(self).model().store.update(reg as int, value), ..old(self).model() }));
        }
    }
}

impl TouchBus for MockBus {
    type Model = MockBusModel;

    open spec fn model(&self) -> MockBusModel {
        MockBusModel {
            addr: self.addr,
            store: self.regs@,
            read_faults: self.read_faults@,
            write_faults: self.write_faults@,
            bump_on_read: self.bump_on_read,
        }
    }

    open spec fn read_reply(m: MockBusModel, addr: u8, reg: u8, n: nat) -> Option<Seq<u8>> {
        if addr != m.addr || fault_now(m.read_faults) {
            None
        } else if reg as int + n <= m.store.len() {
            Some(m.store.subrange(reg as int, reg as int + n))
        } else {
            None
        }
    }

    open spec fn state_after_read(m: MockBusModel, addr: u8, reg: u8, n: nat) -> MockBusModel {
        MockBusModel {
            read_faults: script_rest(m.read_faults),
            store: store_after_bump(m.store, m.bump_on_read),
            ..m
        }
    }

    open spec fn write_ok(m: MockBusModel, addr: u8, data: Seq<u8>) -> bool {
        addr == m.addr && !fault_now(m.write_faults)
    }

    open spec fn state_after_write(m: MockBusModel, addr: u8, data: Seq<u8>) -> MockBusModel {
        let consumed = MockBusModel { write_faults: script_rest(m.write_faults), ..m };
        if Self::write_ok(m, addr, data) && data.len() == 2 && data[0] < m.store.len() {
            MockBusModel { store: m.store.update(data[0] as int, data[1]), ..consumed }
        } else {
            consumed
        }
    }

    #[verifier::loop_isolation(false)]
    fn bus_write_read(&mut self, addr: u8, reg: u8, n: usize) -> (r: Result<Vec<u8>, TouchError>) {
        if self.reads_made < usize::MAX {
            self.reads_made = self.reads_made + 1;
        }
        let fault = if self.read_faults.len() > 0 {
            self.read_faults.remove(0)
        } else {
            false
        };
        let replied = if fault || addr != self.addr
            || !(n <= self.regs.len() && (reg as usize) <= self.regs.len() - n) {
            Err(TouchError::Bus)
        } else {
            let base = reg as usize;
            let ghost snap = *self;
            let mut out: Vec<u8> = Vec::new();
            let mut i: usize = 0;
            while i < n
                invariant
                    i <= n,
                    *self == snap,
                    out@ == self.regs@.subrange(base as int, base as int + i),
                decreases n - i,
            {
                out.push(self.regs[base + i]);
                proof {
                    assert(out@ =~= self.regs@.subrange(base as int, base as int + i + 1));
                }
                i = i + 1;
            }
            Ok(out)
        };
        if let Some(bump) = self.bump_on_read {
            let idx = bump as usize;
            if idx < self.regs.len() {
                let v = self.regs[idx];
                let bumped: u8 = if v == 255 {
                    0
                } else {
                    v + 1
                };
                self.regs[idx] = bumped;
            }
        }
        proof {
            assert(self.model() =~= MockBus::state_after_read(old(self).model(), addr, reg, n as nat));
        }
        replied
    }

    fn bus_write(&mut self, addr: u8, data: &Vec<u8>) -> (r: Result<(), TouchError>) {
        if self.writes_made < usize::MAX {
            self.writes_made = self.writes_made + 1;
        }
        let fault = if self.write_faults.len() > 0 {
            self.write_faults.remove(0)
        } else {
            false
        };
        let ok = addr == self.addr && !fault;
        if ok && data.len() == 2 && (data[0] as usize) < self.regs.len() {
            let idx = data[0] as usize;
            self.regs[idx] = data[1];
        }
        proof {
            assert(self.model() =~= MockBus::state_after_write(old(self).model(), addr, data@));
        }
        if ok {
            Ok(())
        } else {
            Err(TouchError::Bus)
        }
    }
}

/// A delay source that records its calls instead of sleeping.
pub struct MockDelay {
    /// The requested delays, in milliseconds, in call order.
    pub log: Vec<u32>,
}

impl MockDelay {
    /// A fresh recorder with an empty log.
    pub fn new() -> (r: MockDelay)
        ensures
            r.delay_log() == Seq::<u32>::empty(),
            r.log@.len() == 0,
    {
        MockDelay { log: Vec::new() }
    }
}

impl DelaySource for MockDelay {
    open spec fn delay_log(&self) -> Seq<u32> {
        self.log@
    }

    fn delay_ms(&mut self, ms: u32) {
        self.log.push(ms);
    }
}

} // verus!
