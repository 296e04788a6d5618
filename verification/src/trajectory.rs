//! Trajectory controller for a moving sound emitter.
//!
//! Positions are held in micro-units: one playback-space unit is one million
//! micro-units, so the unverified front end only divides before handing a
//! position to the playback session. A plan derives a per-tick step from a
//! total duration and a peak lateral distance; one repeat cycle advances the
//! emitter `num_steps` ticks outward, `2 * num_steps` ticks back through the
//! origin to the opposite extreme, and `num_steps` ticks home again, which
//! returns it exactly to its starting position.

use vstd::prelude::*;
use vstd::arithmetic::div_mod::lemma_fundamental_div_mod;

verus! {

/// A point in playback space, in micro-units.
#[derive(Clone, Copy, PartialEq, Eq, Structural, Debug)]
pub struct Position {
    pub x: i64,
    pub y: i64,
    pub z: i64,
}

/// The spatial state a playback session reads each tick: the emitter the
/// controller moves, and the listener's frame, which never moves.
#[derive(Clone, Copy, PartialEq, Eq, Structural, Debug)]
pub struct EmitterState {
    pub position: Position,
    pub listener_position: Position,
    pub left_ear: Position,
    pub right_ear: Position,
}

/// A finite, restartable plan of motion: three phases per repeat, each a run
/// of fixed-magnitude steps with a direction sign.
#[derive(Clone, Copy, PartialEq, Eq, Structural, Debug)]
pub struct TrajectoryPlan {
    pub num_steps: u32,
    pub step_micro: i64,
    pub repeats: u32,
}

/// Position bound that keeps every tick's arithmetic inside one machine word.
pub open spec fn spec_coord_bound() -> int {
    0x2000_0000_0000_0000
}

/// A plan the controller can run without overflow.
pub open spec fn plan_wf(plan: TrajectoryPlan) -> bool {
    &&& 1 <= plan.num_steps
    &&& 0 <= plan.step_micro
    &&& (plan.num_steps as int) * (plan.step_micro as int) <= spec_coord_bound()
}

/// The number of ticks one phase of the cycle lasts, derived from the total
/// duration and the tick interval.
pub open spec fn spec_num_steps(duration_ms: u64, tick_ms: u64) -> int
    recommends
        tick_ms > 0,
{
    duration_ms as int / tick_ms as int
}

/// The emitter's offset from its starting point, `k` ticks into one repeat
/// cycle of `n` steps of magnitude `step`: out to `n * step`, back through
/// the origin to `-(n * step)`, and home.
pub open spec fn spec_offset_in_cycle(n: int, step: int, k: int) -> int
    recommends
        1 <= n,
        0 <= k <= 4 * n,
{
    if k <= n {
        k * step
    } else if k <= 3 * n {
        (2 * n - k) * step
    } else {
        (k - 4 * n) * step
    }
}

/// The cycle passes through its extremes at the phase boundaries and returns
/// exactly to its starting offset at the end of a repeat.
pub proof fn lemma_cycle_symmetry(n: int, step: int)
    requires
        1 <= n,
        0 <= step,
    ensures
        spec_offset_in_cycle(n, step, 0) == 0,
        spec_offset_in_cycle(n, step, n) == n * step,
        spec_offset_in_cycle(n, step, 3 * n) == -(n * step),
        spec_offset_in_cycle(n, step, 4 * n) == 0,
{
    assert((2 * n - 3 * n) * step == -(n * step)) by (nonlinear_arith);
    assert((4 * n - 4 * n) * step == 0) by (nonlinear_arith);
}

/// Every offset in the cycle stays within the peak lateral distance.
pub proof fn lemma_offset_bounded(n: int, step: int, k: int)
    requires
        1 <= n,
        0 <= step,
        0 <= k <= 4 * n,
    ensures
        -(n * step) <= spec_offset_in_cycle(n, step, k) <= n * step,
{
    if k <= n {
        assert(0 <= k * step <= n * step) by (nonlinear_arith)
            requires
                0 <= k <= n && 0 <= step,
        ;
    } else if k <= 3 * n {
        assert(-(n * step) <= (2 * n - k) * step <= n * step) by (nonlinear_arith)
            requires
                n < k <= 3 * n && 0 <= step && 1 <= n,
        ;
    } else {
        assert(-(n * step) <= (k - 4 * n) * step <= 0) by (nonlinear_arith)
            requires
                3 * n < k <= 4 * n && 0 <= step && 1 <= n,
        ;
    }
}

/// Builds a plan from a total duration, a peak distance in micro-units, the
/// tick interval and a repeat count: the phase length is the number of whole
/// ticks in the duration and the step magnitude splits the distance evenly
/// over one phase. Returns `None` exactly when the tick interval is zero,
/// when the duration is shorter than one tick, or when the phase length
/// cannot be counted in one machine word.
pub fn plan_from_durations(duration_ms: u64, distance_micro: i64, tick_ms: u64, repeats: u32) -> (r:
    Option<TrajectoryPlan>)
    requires
        0 <= distance_micro <= spec_coord_bound(),
    ensures
        r is Some <==> tick_ms > 0 && 1 <= spec_num_steps(duration_ms, tick_ms) <= u32::MAX,
        r is Some ==> {
            &&& r.unwrap().num_steps == spec_num_steps(duration_ms, tick_ms)
            &&& r.unwrap().step_micro == distance_micro as int / spec_num_steps(
                duration_ms,
                tick_ms,
            )
            &&& r.unwrap().repeats == repeats
            &&& plan_wf(r.unwrap())
        },
{
    if tick_ms == 0 {
        return None;
    }
    let n: u64 = duration_ms / tick_ms;
    if n == 0 || n > 0xFFFF_FFFF {
        return None;
    }
    let step: u64 = (distance_micro as u64) / n;
    proof {
        lemma_fundamental_div_mod(distance_micro as int, n as int);
        assert((n as int) * (distance_micro as int / n as int) <= distance_micro);
    }
    Some(
        TrajectoryPlan {
            num_steps: n as u32,
            step_micro: step as i64,
            repeats,
        },
    )
}

/// Drives the emitter along a plan, one tick at a time. The controller is
/// the only writer of the emitter's position; the listener's frame is
/// read-only throughout.
#[derive(Clone, Copy, PartialEq, Eq, Structural, Debug)]
pub struct TrajectoryController {
    pub plan: TrajectoryPlan,
    pub cycle_pos: u64,
    pub cycles_done: u32,
    pub origin: Position,
    pub emitter: EmitterState,
}

impl TrajectoryController {
    /// The controller's invariant: the emitter sits exactly at the origin
    /// displaced by the current cycle offset, and only its x coordinate ever
    /// moves.
    pub open spec fn wf(self) -> bool {
        &&& plan_wf(self.plan)
        &&& self.cycle_pos < 4 * (self.plan.num_steps as int)
        &&& self.cycles_done <= self.plan.repeats
        &&& -spec_coord_bound() <= self.origin.x <= spec_coord_bound()
        &&& self.emitter.position.x == self.origin.x + spec_offset_in_cycle(
            self.plan.num_steps as int,
            self.plan.step_micro as int,
            self.cycle_pos as int,
        )
        &&& self.emitter.position.y == self.origin.y
        &&& self.emitter.position.z == self.origin.z
    }

    /// Whether the configured number of repeats has been played out.
    pub open spec fn spec_finished(self) -> bool {
        self.cycles_done == self.plan.repeats
    }

    pub fn finished(&self) -> (r: bool)
        ensures
            r == self.spec_finished(),
    {
        self.cycles_done == self.plan.repeats
    }

    /// Starts a run of `plan` from wherever the emitter currently stands;
    /// that point is the origin the cycle returns to.
    pub fn start(plan: TrajectoryPlan, emitter: EmitterState) -> (r: TrajectoryController)
        requires
            plan_wf(plan),
            -spec_coord_bound() <= emitter.position.x <= spec_coord_bound(),
        ensures
            r.wf(),
            r.plan == plan,
            r.cycle_pos == 0,
            r.cycles_done == 0,
            r.origin == emitter.position,
            r.emitter == emitter,
    {
        TrajectoryController {
            plan,
            cycle_pos: 0,
            cycles_done: 0,
            origin: emitter.position,
            emitter,
        }
    }

    /// Advances the emitter by one tick's signed step and reports the new
    /// position for the playback session. At a cycle boundary the emitter is
    /// back at its origin exactly and the next repeat begins.
    pub fn advance_tick(&mut self) -> (pos: Position)
        requires
            old(self).wf(),
            !old(self).spec_finished(),
        ensures
            final(self).wf(),
            final(self).plan == old(self).plan,
            final(self).origin == old(self).origin,
            final(self).emitter.listener_position == old(self).emitter.listener_position,
            final(self).emitter.left_ear == old(self).emitter.left_ear,
            final(self).emitter.right_ear == old(self).emitter.right_ear,
            pos == final(self).emitter.position,
            ({
                let n = old(self).plan.num_steps as int;
                if old(self).cycle_pos + 1 < 4 * n {
                    final(self).cycle_pos == old(self).cycle_pos + 1 && final(self).cycles_done
                        == old(self).cycles_done
                } else {
                    final(self).cycle_pos == 0 && final(self).cycles_done == old(self).cycles_done
                        + 1
                }
            }),
            pos.x == old(self).origin.x + spec_offset_in_cycle(
                old(self).plan.num_steps as int,
                old(self).plan.step_micro as int,
                final(self).cycle_pos as int,
            ),
    {
        let n: u64 = self.plan.num_steps as u64;
        let k: u64 = self.cycle_pos;
        let step: i64 = self.plan.step_micro;
        let ghost ni = n as int;
        let ghost ki = k as int;
        let ghost si = step as int;
        proof {
            lemma_offset_bounded(ni, si, ki);
            lemma_offset_bounded(ni, si, ki + 1);
            if ki + 1 <= ni {
                assert((ki + 1) * si == ki * si + si) by (nonlinear_arith);
            } else if ki + 1 <= 3 * ni {
                assert((2 * ni - (ki + 1)) * si == (2 * ni - ki) * si - si) by (nonlinear_arith);
                if ki == ni {
                    assert((2 * ni - ni) * si == ni * si) by (nonlinear_arith);
                }
            } else {
                assert(((ki + 1) - 4 * ni) * si == (ki - 4 * ni) * si + si) by (nonlinear_arith);
                if ki == 3 * ni {
                    assert((2 * ni - 3 * ni) * si == -(ni * si)) by (nonlinear_arith);
                    assert((3 * ni - 4 * ni) * si == -(ni * si)) by (nonlinear_arith);
                }
            }
            assert(spec_offset_in_cycle(ni, si, 4 * ni) == 0) by {
                assert((4 * ni - 4 * ni) * si == 0) by (nonlinear_arith);
            }
        }
        let outward: bool = k < n || k >= 3 * n;
        if outward {
            self.emitter.position.x = self.emitter.position.x + step;
        } else {
            self.emitter.position.x = self.emitter.position.x - step;
        }
        if k + 1 < 4 * n {
            self.cycle_pos = k + 1;
        } else {
            self.cycle_pos = 0;
            self.cycles_done = self.cycles_done + 1;
        }
        self.emitter.position
    }
}

} // verus!
