//! The software swipe classifier.
//!
//! The chip's own gesture engine is unreliable on this family, so the
//! driver samples coordinates over a fixed window of nineteen rounds and
//! classifies the coarse swipe direction from the first and last sample:
//! a single-axis-dominant rule, with motion beyond ±100 on either axis
//! rejected as a fault. The samples are collected into fixed-capacity
//! `heapless` vectors, the same no-allocation buffers an embedded build
//! would use.

use vstd::prelude::*;
use crate::bus::TouchBus;
use crate::coords::coords_final_state;
use crate::coords::coords_verdict;
use crate::driver::Ft6X06;
use crate::types::GestureKind;

verus! {

/// How many sampling rounds one classification makes.
pub const GESTURE_SAMPLE_ROUNDS: u8 = 19;

#[verifier::external_type_specification]
#[verifier::external_body]
#[verifier::reject_recursive_types(T)]
pub struct ExHeaplessVec<T, const N: usize>(heapless::Vec<T, N>);

/// What a sample buffer holds, in order of collection.
pub uninterp spec fn sample_buf_contents(v: heapless::Vec<u16, 100>) -> Seq<u16>;

/// Relies on heapless::Vec::new: a fresh vector is empty.
#[verifier::external_body]
fn sample_buf_new() -> (r: heapless::Vec<u16, 100>)
    ensures
        sample_buf_contents(r) == Seq::<u16>::empty(),
{
    heapless::Vec::new()
}

/// Relies on heapless::Vec::push: below capacity, the item is appended
/// at the back and the call succeeds.
#[verifier::external_body]
fn sample_buf_push(v: &mut heapless::Vec<u16, 100>, x: u16)
    requires
        sample_buf_contents(*old(v)).len() < 100,
    ensures
        sample_buf_contents(*final(v)) == sample_buf_contents(*old(v)).push(x),
{
    let _ = v.push(x);
}

/// Relies on heapless::Vec's slice view: `len` is the number of items
/// held.
#[verifier::external_body]
fn sample_buf_len(v: &heapless::Vec<u16, 100>) -> (r: usize)
    ensures
        r == sample_buf_contents(*v).len(),
{
    v.len()
}

/// Relies on heapless::Vec's slice view: indexing below the length
/// yields the item held at that position.
#[verifier::external_body]
fn sample_buf_get(v: &heapless::Vec<u16, 100>, i: usize) -> (r: u16)
    requires
        i < sample_buf_contents(*v).len(),
    ensures
        r == sample_buf_contents(*v)[i as int],
{
    v[i]
}

/// The swipe kind for a window whose x samples run from `x0` to `x1` and
/// whose y samples run from `y0` to `y1`, classified from the two deltas.
///
/// A delta beyond ±100 on either axis is a fault (out-of-bounds motion,
/// treated as invalid rather than as a large valid swipe). Otherwise the
/// dominant axis decides: horizontally `Right` for positive dx, else
/// `Left`; vertically `Up` for positive dy, else `Left` — a dominantly
/// downward motion classifies as `Left`, no `Down` is reachable here, and
/// exactly equal magnitudes are a fault. That asymmetry is kept as the
/// classifier's documented behavior; it is unresolved intent, not a rule
/// to build on.
pub open spec fn swipe_kind_of(x0: u16, x1: u16, y0: u16, y1: u16) -> GestureKind {
    let dx = x1 - x0;
    let dy = y1 - y0;
    let adx = if dx < 0 { -dx } else { dx };
    let ady = if dy < 0 { -dy } else { dy };
    if adx > 100 || ady > 100 {
        GestureKind::Fault
    } else if adx > ady {
        if dx > 0 {
            GestureKind::Right
        } else {
            GestureKind::Left
        }
    } else if adx < ady {
        if dy > 0 {
            GestureKind::Up
        } else {
            GestureKind::Left
        }
    } else {
        GestureKind::Fault
    }
}

/// Classify one sampling window from its first and last coordinates.
pub fn classify_swipe(x0: u16, x1: u16, y0: u16, y1: u16) -> (r: GestureKind)
    ensures
        r == swipe_kind_of(x0, x1, y0, y1),
{
    let dx: i32 = x1 as i32 - x0 as i32;
    let dy: i32 = y1 as i32 - y0 as i32;
    let adx: i32 = if dx < 0 { -dx } else { dx };
    let ady: i32 = if dy < 0 { -dy } else { dy };
    if adx > 100 || ady > 100 {
        GestureKind::Fault
    } else if adx > ady {
        if dx > 0 {
            GestureKind::Right
        } else {
            GestureKind::Left
        }
    } else if adx < ady {
        if dy > 0 {
            GestureKind::Up
        } else {
            GestureKind::Left
        }
    } else {
        GestureKind::Fault
    }
}

/// The kind a whole window of collected samples classifies to: `Fault`
/// for an empty window, otherwise the first/last rule over both axes.
pub open spec fn window_kind_of(xs: Seq<u16>, ys: Seq<u16>) -> GestureKind {
    if xs.len() == 0 || ys.len() == 0 {
        GestureKind::Fault
    } else {
        swipe_kind_of(xs[0], xs[xs.len() - 1], ys[0], ys[ys.len() - 1])
    }
}

/// The bus state after `rounds` sampling rounds, each a coordinate wait
/// with `fuel` polls of budget.
pub open spec fn sample_state<B: TouchBus>(m: B::Model, addr: u8, fuel: nat, rounds: nat) -> B::Model
    decreases rounds,
{
    if rounds == 0 {
        m
    } else {
        coords_final_state::<B>(sample_state::<B>(m, addr, fuel, (rounds - 1) as nat), addr, fuel)
    }
}

/// The x coordinates collected in `rounds` sampling rounds; a round whose
/// coordinate wait fails contributes nothing.
pub open spec fn sample_xs<B: TouchBus>(m: B::Model, addr: u8, fuel: nat, rounds: nat) -> Seq<u16>
    decreases rounds,
{
    if rounds == 0 {
        Seq::empty()
    } else {
        let prev = sample_xs::<B>(m, addr, fuel, (rounds - 1) as nat);
        match coords_verdict::<B>(sample_state::<B>(m, addr, fuel, (rounds - 1) as nat), addr, fuel) {
            Ok(p) => prev.push(p.0),
            Err(_) => prev,
        }
    }
}

/// The y coordinates collected in `rounds` sampling rounds.
pub open spec fn sample_ys<B: TouchBus>(m: B::Model, addr: u8, fuel: nat, rounds: nat) -> Seq<u16>
    decreases rounds,
{
    if rounds == 0 {
        Seq::empty()
    } else {
        let prev = sample_ys::<B>(m, addr, fuel, (rounds - 1) as nat);
        match coords_verdict::<B>(sample_state::<B>(m, addr, fuel, (rounds - 1) as nat), addr, fuel) {
            Ok(p) => prev.push(p.1),
            Err(_) => prev,
        }
    }
}

impl Ft6X06 {
    /// Classify a swipe gesture by sampling coordinates over the fixed
    /// window: nineteen coordinate waits, each with `max_attempts` polls
    /// of budget, failed waits skipped, then the first/last rule over the
    /// collected window. An empty window (no sample succeeded) is a
    /// `Fault`.
    pub fn gest_logic<B: TouchBus>(&mut self, bus: &mut B, max_attempts: u32) -> (r: GestureKind)
        ensures
            *final(self) == *old(self),
            final(bus).model() == sample_state::<B>(
                old(bus).model(),
                old(self).spec_addr(),
                max_attempts as nat,
                GESTURE_SAMPLE_ROUNDS as nat,
            ),
            r == window_kind_of(
                sample_xs::<B>(old(bus).model(), old(self).spec_addr(), max_attempts as nat, GESTURE_SAMPLE_ROUNDS as nat),
                sample_ys::<B>(old(bus).model(), old(self).spec_addr(), max_attempts as nat, GESTURE_SAMPLE_ROUNDS as nat),
            ),
    {
        let ghost a = self.spec_addr();
        let ghost m0 = bus.model();
        let ghost me = *self;
        let ghost fuel = max_attempts as nat;

        let mut vec1 = sample_buf_new();
        let mut vec2 = sample_buf_new();

        let mut round: u8 = 0;
        #[verifier::loop_isolation(false)]
        while round < GESTURE_SAMPLE_ROUNDS
            invariant
                round <= GESTURE_SAMPLE_ROUNDS,
                *self == me,
                bus.model() == sample_state::<B>(m0, a, fuel, round as nat),
                sample_buf_contents(vec1) == sample_xs::<B>(m0, a, fuel, round as nat),
                sample_buf_contents(vec2) == sample_ys::<B>(m0, a, fuel, round as nat),
                sample_buf_contents(vec1).len() <= round,
                sample_buf_contents(vec2).len() == sample_buf_contents(vec1).len(),
            decreases GESTURE_SAMPLE_ROUNDS - round,
        {
            match self.get_coordinates(bus, max_attempts) {
                Err(_e) => {
                    // failed sample: skipped, not retried
                },
                Ok(p) => {
                    sample_buf_push(&mut vec1, p.0);
                    sample_buf_push(&mut vec2, p.1);
                },
            }
            round = round + 1;
        }

        let n = sample_buf_len(&vec1);
        if n == 0 {
            return GestureKind::Fault;
        }
        let x0 = sample_buf_get(&vec1, 0);
        let x1 = sample_buf_get(&vec1, n - 1);
        let y0 = sample_buf_get(&vec2, 0);
        let y1 = sample_buf_get(&vec2, n - 1);
        classify_swipe(x0, x1, y0, y1)
    }
}

} // verus!
