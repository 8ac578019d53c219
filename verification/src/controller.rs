//! Per-frame driver: clamps the elapsed time and advances the owned state.

use crate::input::InputState;
use crate::sim::{advance_rel, SimulationState, MAX_DT_US};
use vstd::prelude::*;

verus! {

/// The frame-to-frame step length is clamped to 33 ms to avoid large
/// simulation jumps after a stall.
pub const FRAME_CLAMP_US: u64 = 33_000;

/// Owns the simulation state and drives one step per frame from a
/// monotonically increasing timestamp supplied by the platform's scheduler.
pub struct GameController {
    pub sim: SimulationState,
    /// Timestamp of the previous frame, in microseconds.
    pub last_timestamp_us: u64,
}

impl GameController {
    /// The elapsed time used for a frame: `min(now - last, 33 ms)`.
    pub open spec fn clamped_dt(now: int, last: int) -> int {
        if now - last > FRAME_CLAMP_US as int {
            FRAME_CLAMP_US as int
        } else {
            now - last
        }
    }

    pub open spec fn wf(self) -> bool {
        self.sim.wf()
    }

    /// Take ownership of a session and remember the current timestamp.
    pub fn new(sim: SimulationState, now_us: u64) -> (r: GameController)
        requires
            sim.wf(),
        ensures
            r.wf(),
            r.sim == sim,
            r.last_timestamp_us == now_us,
    {
        GameController { sim, last_timestamp_us: now_us }
    }

    /// One frame: compute the clamped elapsed time, advance the simulation,
    /// and remember the timestamp for the next frame.
    pub fn on_frame(&mut self, now_us: u64, input: InputState)
        requires
            old(self).wf(),
            old(self).last_timestamp_us <= now_us,
        ensures
            final(self).wf(),
            final(self).last_timestamp_us == now_us,
            advance_rel(
                old(self).sim,
                final(self).sim,
                Self::clamped_dt(now_us as int, old(self).last_timestamp_us as int),
                input,
            ),
    {
        let mut dt = now_us - self.last_timestamp_us;
        if dt > FRAME_CLAMP_US {
            dt = FRAME_CLAMP_US;
        }
        self.last_timestamp_us = now_us;
        proof {
            assert(FRAME_CLAMP_US <= MAX_DT_US);
        }
        self.sim.advance(dt, input);
    }
}

} // verus!
