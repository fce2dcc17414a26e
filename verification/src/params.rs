//! Reading and writing the six gesture-sensitivity parameters.
//!
//! The parameters mirror six contiguous registers starting at the
//! radian-value register. A read fetches all six in one block; a write
//! pushes them one register at a time, stopping at the first failed
//! write. Over a bus that echoes writes into its register store — such as
//! [`crate::mock::MockBus`] — writing a parameter set and reading it back
//! yields the same six values, proved in
//! [`lemma_gesture_init_roundtrip`].

use vstd::prelude::*;
use crate::bus::TouchBus;
use crate::constant::FT6X06_DISTANCE_LEFT_RIGHT_REG;
use crate::constant::FT6X06_DISTANCE_UP_DOWN_REG;
use crate::constant::FT6X06_DISTANCE_ZOOM_REG;
use crate::constant::FT6X06_OFFSET_LEFT_RIGHT_REG;
use crate::constant::FT6X06_OFFSET_UP_DOWN_REG;
use crate::constant::FT6X06_RADIAN_VALUE_REG;
use crate::driver::Ft6X06;
use crate::error::TouchError;
use crate::mock::MockBus;
use crate::mock::MockBusModel;
use crate::types::GestureInit;

verus! {

/// The gesture parameter set held in a six-byte block read from the
/// radian-value register onward.
pub open spec fn gesture_init_of(bytes: Seq<u8>) -> GestureInit {
    GestureInit {
        radian: bytes[0],
        offset_left_right: bytes[1],
        offset_up_down: bytes[2],
        distance_left_right: bytes[3],
        distance_up_down: bytes[4],
        distance_zoom: bytes[5],
    }
}

/// The six write payloads that push a parameter set, in register order:
/// each is a register index followed by the value for it.
pub open spec fn gesture_init_writes(g: GestureInit) -> Seq<Seq<u8>> {
    seq![
        seq![FT6X06_RADIAN_VALUE_REG, g.radian],
        seq![FT6X06_OFFSET_LEFT_RIGHT_REG, g.offset_left_right],
        seq![FT6X06_OFFSET_UP_DOWN_REG, g.offset_up_down],
        seq![FT6X06_DISTANCE_LEFT_RIGHT_REG, g.distance_left_right],
        seq![FT6X06_DISTANCE_UP_DOWN_REG, g.distance_up_down],
        seq![FT6X06_DISTANCE_ZOOM_REG, g.distance_zoom],
    ]
}

/// The bus state after performing the writes of `ops` in order, stopping
/// after the first one that fails.
pub open spec fn multi_write_state<B: TouchBus>(m: B::Model, addr: u8, ops: Seq<Seq<u8>>) -> B::Model
    decreases ops.len(),
{
    if ops.len() == 0 {
        m
    } else {
        let m1 = B::state_after_write(m, addr, ops[0]);
        if B::write_ok(m, addr, ops[0]) {
            multi_write_state::<B>(m1, addr, ops.drop_first())
        } else {
            m1
        }
    }
}

/// One unfolding of the write sequence: its first write either hands the
/// rest of the sequence on or, failing, ends it.
pub proof fn lemma_multi_write_step<B: TouchBus>(m: B::Model, addr: u8, ops: Seq<Seq<u8>>)
    requires
        ops.len() > 0,
    ensures
        B::write_ok(m, addr, ops[0]) ==> multi_write_state::<B>(m, addr, ops)
            == multi_write_state::<B>(B::state_after_write(m, addr, ops[0]), addr, ops.drop_first()),
        !B::write_ok(m, addr, ops[0]) ==> multi_write_state::<B>(m, addr, ops)
            == B::state_after_write(m, addr, ops[0]),
        multi_write_ok::<B>(m, addr, ops) == (B::write_ok(m, addr, ops[0])
            && multi_write_ok::<B>(B::state_after_write(m, addr, ops[0]), addr, ops.drop_first())),
{
}

/// Whether every write of `ops`, performed in order, succeeds.
pub open spec fn multi_write_ok<B: TouchBus>(m: B::Model, addr: u8, ops: Seq<Seq<u8>>) -> bool
    decreases ops.len(),
{
    if ops.len() == 0 {
        true
    } else {
        B::write_ok(m, addr, ops[0]) && multi_write_ok::<B>(
            B::state_after_write(m, addr, ops[0]),
            addr,
            ops.drop_first(),
        )
    }
}

/// Round trip: writing a gesture parameter set and then reading it back
/// yields the same six values, over any fault-free mock bus — the six
/// writes land in the register store and the block read replies from it.
pub proof fn lemma_gesture_init_roundtrip(m: MockBusModel, addr: u8, g: GestureInit)
    requires
        m.addr == addr,
        m.store.len() == 256,
        m.read_faults.len() == 0,
        m.write_faults.len() == 0,
    ensures
        multi_write_ok::<MockBus>(m, addr, gesture_init_writes(g)),
        MockBus::read_reply(
            multi_write_state::<MockBus>(m, addr, gesture_init_writes(g)),
            addr,
            FT6X06_RADIAN_VALUE_REG,
            6,
        ) == Some(
            seq![
                g.radian,
                g.offset_left_right,
                g.offset_up_down,
                g.distance_left_right,
                g.distance_up_down,
                g.distance_zoom,
            ],
        ),
{
    let ops = gesture_init_writes(g);

    let s1 = MockBus::state_after_write(m, addr, ops[0]);
    lemma_multi_write_step::<MockBus>(m, addr, ops);
    let r1 = ops.drop_first();
    assert(r1[0] == ops[1]);

    let s2 = MockBus::state_after_write(s1, addr, r1[0]);
    lemma_multi_write_step::<MockBus>(s1, addr, r1);
    let r2 = r1.drop_first();
    assert(r2[0] == ops[2]);

    let s3 = MockBus::state_after_write(s2, addr, r2[0]);
    lemma_multi_write_step::<MockBus>(s2, addr, r2);
    let r3 = r2.drop_first();
    assert(r3[0] == ops[3]);

    let s4 = MockBus::state_after_write(s3, addr, r3[0]);
    lemma_multi_write_step::<MockBus>(s3, addr, r3);
    let r4 = r3.drop_first();
    assert(r4[0] == ops[4]);

    let s5 = MockBus::state_after_write(s4, addr, r4[0]);
    lemma_multi_write_step::<MockBus>(s4, addr, r4);
    let r5 = r4.drop_first();
    assert(r5[0] == ops[5]);

    let s6 = MockBus::state_after_write(s5, addr, r5[0]);
    lemma_multi_write_step::<MockBus>(s5, addr, r5);
    assert(r5.drop_first().len() == 0);

    assert(multi_write_state::<MockBus>(m, addr, ops) == s6);
    assert(multi_write_ok::<MockBus>(m, addr, ops));

    assert(s6.store.len() == 256);
    assert(s6.store.subrange(FT6X06_RADIAN_VALUE_REG as int, FT6X06_RADIAN_VALUE_REG + 6) =~= seq![
        g.radian,
        g.offset_left_right,
        g.offset_up_down,
        g.distance_left_right,
        g.distance_up_down,
        g.distance_zoom,
    ]);
}

impl Ft6X06 {
    /// Write one register: the payload is the register index followed by
    /// the value.
    pub(crate) fn write_param<B: TouchBus>(&self, bus: &mut B, reg: u8, value: u8) -> (r: Result<(), TouchError>)
        ensures
            final(bus).model() == B::state_after_write(old(bus).model(), self.spec_addr(), seq![reg, value]),
            r == (if B::write_ok(old(bus).model(), self.spec_addr(), seq![reg, value]) {
                Ok::<(), TouchError>(())
            } else {
                Err::<(), TouchError>(TouchError::Bus)
            }),
    {
        let mut payload: Vec<u8> = Vec::new();
        payload.push(reg);
        payload.push(value);
        proof {
            assert(payload@ =~= seq![reg, value]);
        }
        bus.bus_write(self.addr_value(), &payload)
    }

    /// Read the six gesture parameters in one block from the radian-value
    /// register onward.
    pub fn gesture_init_read<B: TouchBus>(&mut self, bus: &mut B) -> (r: Result<GestureInit, TouchError>)
        ensures
            *final(self) == *old(self),
            final(bus).model() == B::state_after_read(old(bus).model(), old(self).spec_addr(), FT6X06_RADIAN_VALUE_REG, 6),
            (match B::read_reply(old(bus).model(), old(self).spec_addr(), FT6X06_RADIAN_VALUE_REG, 6) {
                Some(bytes) => r == Ok::<GestureInit, TouchError>(gesture_init_of(bytes)),
                None => r == Err::<GestureInit, TouchError>(TouchError::Bus),
            }),
    {
        let buf = match bus.bus_write_read(self.addr_value(), FT6X06_RADIAN_VALUE_REG, 6) {
            Ok(b) => b,
            Err(e) => {
                return Err(e);
            },
        };
        Ok(GestureInit {
            radian: buf[0],
            offset_left_right: buf[1],
            offset_up_down: buf[2],
            distance_left_right: buf[3],
            distance_up_down: buf[4],
            distance_zoom: buf[5],
        })
    }

    /// Push the six gesture parameters, one register write each, in
    /// register order; the first failed write stops the sequence and is
    /// reported.
    pub fn gesture_init_write<B: TouchBus>(&mut self, bus: &mut B, g: &GestureInit) -> (r: Result<(), TouchError>)
        ensures
            *final(self) == *old(self),
            final(bus).model() == multi_write_state::<B>(old(bus).model(), old(self).spec_addr(), gesture_init_writes(*g)),
            r == (if multi_write_ok::<B>(old(bus).model(), old(self).spec_addr(), gesture_init_writes(*g)) {
                Ok::<(), TouchError>(())
            } else {
                Err::<(), TouchError>(TouchError::Bus)
            }),
    {
        let ghost a = self.spec_addr();
        let ghost ops = gesture_init_writes(*g);

        let ghost pre = bus.model();
        let r1 = self.write_param(bus, FT6X06_RADIAN_VALUE_REG, g.radian);
        proof {
            lemma_multi_write_step::<B>(pre, a, ops);
        }
        let ghost rest = ops.drop_first();
        if let Err(e) = r1 {
            return Err(e);
        }

        let ghost pre = bus.model();
        let r2 = self.write_param(bus, FT6X06_OFFSET_LEFT_RIGHT_REG, g.offset_left_right);
        proof {
            assert(rest[0] == ops[1]);
            lemma_multi_write_step::<B>(pre, a, rest);
        }
        let ghost rest = rest.drop_first();
        if let Err(e) = r2 {
            return Err(e);
        }

        let ghost pre = bus.model();
        let r3 = self.write_param(bus, FT6X06_OFFSET_UP_DOWN_REG, g.offset_up_down);
        proof {
            assert(rest[0] == ops[2]);
            lemma_multi_write_step::<B>(pre, a, rest);
        }
        let ghost rest = rest.drop_first();
        if let Err(e) = r3 {
            return Err(e);
        }

        let ghost pre = bus.model();
        let r4 = self.write_param(bus, FT6X06_DISTANCE_LEFT_RIGHT_REG, g.distance_left_right);
        proof {
            assert(rest[0] == ops[3]);
            lemma_multi_write_step::<B>(pre, a, rest);
        }
        let ghost rest = rest.drop_first();
        if let Err(e) = r4 {
            return Err(e);
        }

        let ghost pre = bus.model();
        let r5 = self.write_param(bus, FT6X06_DISTANCE_UP_DOWN_REG, g.distance_up_down);
        proof {
            assert(rest[0] == ops[4]);
            lemma_multi_write_step::<B>(pre, a, rest);
        }
        let ghost rest = rest.drop_first();
        if let Err(e) = r5 {
            return Err(e);
        }

        let ghost pre = bus.model();
        let r6 = self.write_param(bus, FT6X06_DISTANCE_ZOOM_REG, g.distance_zoom);
        proof {
            assert(rest[0] == ops[5]);
            lemma_multi_write_step::<B>(pre, a, rest);
            assert(rest.drop_first().len() == 0);
        }
        if let Err(e) = r6 {
            return Err(e);
        }
        Ok(())
    }
}

} // verus!
