//! Two-cube shaking gestures.
//!
//! Each poll reads the latest shaking magnitude of both cubes. When both
//! shake at once, the product of the magnitudes accumulates and, past its
//! threshold, reads as a forward gesture. When only one shakes, its own
//! magnitude accumulates and, past the threshold, reads as a left or right
//! gesture for the first or second cube. Counters saturate instead of
//! wrapping.

use vstd::prelude::*;

verus! {

/// Threshold of the per-cube accumulators for a left or right gesture.
pub const GESTURE_THRESH_LR: u64 = 10;

/// Threshold of the product accumulator for a forward gesture.
pub const GESTURE_THRESH_FW: u64 = 10;

/// The gesture one poll derives, if any.
#[derive(Debug, Copy, Clone, PartialEq, Eq, Structural)]
pub enum GestureKey {
    Idle,
    Forward,
    Left,
    Right,
}

/// The three accumulators: one per cube, and one for the product of both
/// cubes' magnitudes.
#[derive(Debug, Copy, Clone, PartialEq, Eq, Structural)]
pub struct GestureState {
    pub counter_cube1: u64,
    pub counter_cube2: u64,
    pub counter_inner: u64,
}

/// Addition capped at the machine word.
pub open spec fn sat_add(a: u64, b: int) -> u64
    recommends
        b >= 0,
{
    if a + b > u64::MAX {
        u64::MAX
    } else {
        (a + b) as u64
    }
}

/// One poll of the gesture accumulator: the new counters and the gesture
/// derived. A nonzero product resets both per-cube counters and grows the
/// product counter; a zero product resets the product counter and grows each
/// per-cube counter, twice when it does not fire.
pub open spec fn gesture_step_model(st: GestureState, s1: u8, s2: u8) -> (GestureState, GestureKey) {
    let p = s1 * s2;
    if p != 0 {
        let ci = sat_add(st.counter_inner, p);
        (
            GestureState { counter_cube1: 0, counter_cube2: 0, counter_inner: ci },
            if ci > GESTURE_THRESH_FW {
                GestureKey::Forward
            } else {
                GestureKey::Idle
            },
        )
    } else {
        let c1 = sat_add(st.counter_cube1, s1 as int);
        let fire1 = c1 > GESTURE_THRESH_LR;
        let c2 = sat_add(st.counter_cube2, s2 as int);
        let fire2 = c2 > GESTURE_THRESH_LR;
        (
            GestureState {
                counter_cube1: if fire1 {
                    0
                } else {
                    sat_add(c1, s1 as int)
                },
                counter_cube2: if fire2 {
                    0
                } else {
                    sat_add(c2, s2 as int)
                },
                counter_inner: 0,
            },
            if fire2 {
                GestureKey::Right
            } else if fire1 {
                GestureKey::Left
            } else {
                GestureKey::Idle
            },
        )
    }
}

/// Feeds one poll's shaking magnitudes into the accumulator and derives the
/// gesture, exactly as `gesture_step_model` gives.
pub fn gesture_step(st: &mut GestureState, shaking1: u8, shaking2: u8) -> (key: GestureKey)
    ensures
        (*final(st), key) == gesture_step_model(*old(st), shaking1, shaking2),
{
    let a: u64 = shaking1 as u64;
    let b: u64 = shaking2 as u64;
    proof {
        assert(a * b <= 65025) by (nonlinear_arith)
            requires
                a <= 255,
                b <= 255,
        ;
    }
    let p: u64 = a * b;
    if p != 0 {
        let ci = st.counter_inner.saturating_add(p);
        st.counter_cube1 = 0;
        st.counter_cube2 = 0;
        st.counter_inner = ci;
        if ci > GESTURE_THRESH_FW {
            GestureKey::Forward
        } else {
            GestureKey::Idle
        }
    } else {
        let c1 = st.counter_cube1.saturating_add(shaking1 as u64);
        let fire1 = c1 > GESTURE_THRESH_LR;
        let c2 = st.counter_cube2.saturating_add(shaking2 as u64);
        let fire2 = c2 > GESTURE_THRESH_LR;
        st.counter_cube1 = if fire1 {
            0
        } else {
            c1.saturating_add(shaking1 as u64)
        };
        st.counter_cube2 = if fire2 {
            0
        } else {
            c2.saturating_add(shaking2 as u64)
        };
        st.counter_inner = 0;
        if fire2 {
            GestureKey::Right
        } else if fire1 {
            GestureKey::Left
        } else {
            GestureKey::Idle
        }
    }
}

impl GestureState {
    /// The accumulator at rest.
    pub fn new() -> (r: Self)
        ensures
            r.counter_cube1 == 0,
            r.counter_cube2 == 0,
            r.counter_inner == 0,
    {
        GestureState { counter_cube1: 0, counter_cube2: 0, counter_inner: 0 }
    }
}

} // verus!
