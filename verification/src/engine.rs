use vstd::prelude::*;

use crate::rng::rand_i64_in;

verus! {

/// Angle units per full turn. One unit is a millionth of a turn; the hit-test
/// and the easing are exact in these units.
pub const TURN: i64 = 1_000_000;

/// Fixed-point scale of the easing curve's progress parameter.
pub const EASE_SCALE: i64 = 1024;

/// `EASE_SCALE` to the fourth power, the divisor of the quintic term.
pub const EASE_SCALE_4: i64 = 1024 * 1024 * 1024 * 1024;

/// Longest accepted spin duration; longer configured durations are clamped so
/// that the elapsed-time accumulator cannot overflow.
pub const MAX_DURATION_MS: u32 = 3_600_000_000;

/// Largest frame delta that `advance` accepts, so a frame-rate hitch or a
/// window-focus gap cannot jump the animation.
pub const MAX_FRAME_DELTA_MS: u32 = 100;

/// Rotation state owned by the spin engine. `current_angle` is not normalized
/// while a spin runs; only the hit-test reduces it modulo `TURN`. Between
/// spins it is reduced, which is invisible on screen and keeps every angle
/// within fixed bounds.
pub struct RotationState {
    pub current_angle: i64,
    pub start_angle: i64,
    pub target_angle: i64,
    pub elapsed_ms: u32,
    pub duration_ms: u32,
    pub is_spinning: bool,
}

/// The frame delta clamped to `MAX_FRAME_DELTA_MS`.
pub open spec fn spec_clamp_delta(dt: int) -> int {
    if dt > MAX_FRAME_DELTA_MS as int {
        MAX_FRAME_DELTA_MS as int
    } else {
        dt
    }
}

/// Elapsed time after a frame: the accumulator plus the clamped delta. Only
/// the per-frame delta is clamped; the sum may overshoot the duration, where
/// progress saturates instead.
pub open spec fn spec_elapsed_after(elapsed: int, dt: int) -> int {
    elapsed + spec_clamp_delta(dt)
}

/// Normalized progress of a spin, in `[0, EASE_SCALE]`; a zero duration
/// counts as already complete.
pub open spec fn spec_progress(elapsed: int, duration: int) -> int {
    if duration <= 0 || elapsed >= duration {
        EASE_SCALE as int
    } else {
        elapsed * (EASE_SCALE as int) / duration
    }
}

/// Quintic ease-out over fixed-point progress: the integer form of
/// `1 - (1 - t)^5`.
pub open spec fn spec_eased(t: int) -> int {
    let u = EASE_SCALE as int - t;
    EASE_SCALE as int - (u * u * u * u * u) / (EASE_SCALE_4 as int)
}

/// The rotation angle at eased progress `t` of a spin from `start` to
/// `target`.
pub open spec fn spec_angle_at(start: int, target: int, t: int) -> int {
    start + spec_eased(t) * (target - start) / (EASE_SCALE as int)
}

impl RotationState {
    /// Internal invariant: every angle is within fixed bounds, and during a
    /// spin the current angle lies between start and target, with the target
    /// between ten and fifteen turns past the start.
    pub open spec fn wf(self) -> bool {
        &&& 0 <= self.current_angle < 16 * (TURN as int)
        &&& self.duration_ms <= MAX_DURATION_MS
        &&& self.is_spinning ==> {
            &&& 0 <= self.start_angle < TURN as int
            &&& self.start_angle + 10 * (TURN as int) <= self.target_angle
            &&& self.target_angle < self.start_angle + 15 * (TURN as int)
            &&& self.start_angle <= self.current_angle <= self.target_angle
            &&& self.elapsed_ms <= self.duration_ms
        }
    }

    /// A wheel at rest at `initial_angle`, ready for a first spin of
    /// `duration_ms` (clamped to `MAX_DURATION_MS`).
    pub fn new(duration_ms: u32, initial_angle: i64) -> (s: Self)
        requires
            0 <= initial_angle < TURN,
        ensures
            s.wf(),
            !s.is_spinning,
            s.current_angle == initial_angle,
            s.start_angle == 0,
            s.target_angle == 0,
            s.elapsed_ms == 0,
            s.duration_ms == if duration_ms > MAX_DURATION_MS {
                MAX_DURATION_MS as int
            } else {
                duration_ms as int
            },
    {
        let d: u32 = if duration_ms > MAX_DURATION_MS {
            MAX_DURATION_MS
        } else {
            duration_ms
        };
        RotationState {
            current_angle: initial_angle,
            start_angle: 0,
            target_angle: 0,
            elapsed_ms: 0,
            duration_ms: d,
            is_spinning: false,
        }
    }

    /// Begin a spin whose travel is `extra + offset` past the current rest
    /// angle. The rest angle is first reduced modulo one turn, which leaves
    /// the wheel visually in place; a spin never starts while one runs.
    pub fn start_spin_with(&mut self, extra: i64, offset: i64)
        requires
            old(self).wf(),
            !old(self).is_spinning,
            10 * TURN <= extra < 14 * TURN,
            0 <= offset < TURN,
        ensures
            final(self).wf(),
            final(self).is_spinning,
            final(self).start_angle == (old(self).current_angle as int) % (TURN as int),
            final(self).current_angle == final(self).start_angle,
            final(self).target_angle == final(self).start_angle + extra + offset,
            final(self).elapsed_ms == 0,
            final(self).duration_ms == old(self).duration_ms,
    {
        let rest: i64 = self.current_angle % TURN;
        self.start_angle = rest;
        self.current_angle = rest;
        self.target_angle = rest + extra + offset;
        self.elapsed_ms = 0;
        self.is_spinning = true;
    }

    /// Begin a spin with randomized travel: between ten and fourteen extra
    /// full turns plus an offset of less than one turn, so the resting
    /// segment is not predictable from the start angle. The guaranteed
    /// minimum travel of ten full turns is stated in the `ensures`.
    pub fn start_spin(&mut self)
        requires
            old(self).wf(),
            !old(self).is_spinning,
        ensures
            final(self).wf(),
            final(self).is_spinning,
            final(self).start_angle == (old(self).current_angle as int) % (TURN as int),
            final(self).current_angle == final(self).start_angle,
            final(self).start_angle + 10 * (TURN as int) <= final(self).target_angle,
            final(self).target_angle < final(self).start_angle + 15 * (TURN as int),
            final(self).elapsed_ms == 0,
            final(self).duration_ms == old(self).duration_ms,
    {
        let extra: i64 = rand_i64_in(10 * TURN, 14 * TURN);
        let offset: i64 = rand_i64_in(0, TURN);
        self.start_spin_with(extra, offset);
    }

    /// Advance the animation by one frame of `dt_ms` milliseconds (clamped to
    /// `MAX_FRAME_DELTA_MS`). While a spin runs, the current angle follows
    /// the quintic ease-out exactly; the call that reaches full progress sets
    /// the angle to the target exactly, ends the spin, and alone returns
    /// `true`. At rest the call changes nothing.
    pub fn advance(&mut self, dt_ms: u32) -> (completed: bool)
        requires
            old(self).wf(),
        ensures
            final(self).wf(),
            !old(self).is_spinning ==> *final(self) == *old(self) && !completed,
            old(self).is_spinning ==> {
                let e = spec_elapsed_after(old(self).elapsed_ms as int, dt_ms as int);
                let t = spec_progress(e, old(self).duration_ms as int);
                &&& final(self).elapsed_ms == e
                &&& final(self).start_angle == old(self).start_angle
                &&& final(self).target_angle == old(self).target_angle
                &&& final(self).duration_ms == old(self).duration_ms
                &&& final(self).current_angle == spec_angle_at(
                    old(self).start_angle as int,
                    old(self).target_angle as int,
                    t,
                )
                &&& completed == (t == EASE_SCALE as int)
                &&& completed ==> final(self).current_angle == final(self).target_angle
                    && !final(self).is_spinning
                &&& !completed ==> final(self).is_spinning
            },
    {
        if !self.is_spinning {
            return false;
        }
        let dtc: u32 = if dt_ms > MAX_FRAME_DELTA_MS {
            MAX_FRAME_DELTA_MS
        } else {
            dt_ms
        };
        let e: u32 = self.elapsed_ms + dtc;
        self.elapsed_ms = e;
        let t: i64 = if self.duration_ms == 0 || e >= self.duration_ms {
            EASE_SCALE
        } else {
            proof {
                lemma_progress_bounds(e as int, self.duration_ms as int);
            }
            ((e as i64) * EASE_SCALE) / (self.duration_ms as i64)
        };
        assert(t == spec_progress(e as int, self.duration_ms as int));
        assert(0 <= t <= EASE_SCALE) by {
            if self.duration_ms != 0 && e < self.duration_ms {
                lemma_progress_bounds(e as int, self.duration_ms as int);
            }
        }
        let u: i64 = EASE_SCALE - t;
        assert(0 <= u as int * (u as int) <= 1024 * 1024) by (nonlinear_arith)
            requires
                0 <= u <= 1024,
        ;
        let u2: i64 = u * u;
        assert(0 <= u2 as int * (u2 as int) <= 1024 * 1024 * 1024 * 1024) by (nonlinear_arith)
            requires
                0 <= u2 <= 1024 * 1024,
        ;
        let u4: i64 = u2 * u2;
        assert(0 <= u4 as int * (u as int) <= (1024 * 1024 * 1024 * 1024) * 1024)
            by (nonlinear_arith)
            requires
                0 <= u4 <= 1024 * 1024 * 1024 * 1024,
                0 <= u <= 1024,
        ;
        let u5: i64 = u4 * u;
        assert(u5 == (u as int) * u * u * u * u) by (nonlinear_arith)
            requires
                u2 == u as int * (u as int),
                u4 == u2 as int * (u2 as int),
                u5 == u4 as int * (u as int),
        ;
        let eased: i64 = EASE_SCALE - u5 / EASE_SCALE_4;
        assert(0 <= eased <= EASE_SCALE as int && eased == spec_eased(t as int)) by {
            vstd::arithmetic::div_mod::lemma_div_is_ordered(
                0,
                u5 as int,
                EASE_SCALE_4 as int,
            );
            vstd::arithmetic::div_mod::lemma_div_is_ordered(
                u5 as int,
                EASE_SCALE_4 as int * EASE_SCALE as int,
                EASE_SCALE_4 as int,
            );
            assert(EASE_SCALE_4 as int * EASE_SCALE as int / (EASE_SCALE_4 as int)
                == EASE_SCALE as int) by (nonlinear_arith);
        }
        assert(t == EASE_SCALE ==> eased == EASE_SCALE);
        let delta: i64 = self.target_angle - self.start_angle;
        assert(0 <= eased as int * (delta as int) <= 1024 * (delta as int)) by (nonlinear_arith)
            requires
                0 <= eased <= 1024,
                0 <= delta,
        ;
        let scaled: i64 = eased * delta;
        let step: i64 = scaled / EASE_SCALE;
        assert(0 <= step <= delta) by {
            vstd::arithmetic::div_mod::lemma_div_is_ordered(
                0,
                scaled as int,
                EASE_SCALE as int,
            );
            vstd::arithmetic::div_mod::lemma_div_is_ordered(
                scaled as int,
                EASE_SCALE as int * delta,
                EASE_SCALE as int,
            );
            assert(EASE_SCALE as int * delta / (EASE_SCALE as int) == delta)
                by (nonlinear_arith)
                requires
                    0 <= delta,
                    EASE_SCALE == 1024,
            ;
        }
        self.current_angle = self.start_angle + step;
        assert(t == EASE_SCALE ==> step == delta) by {
            if t == EASE_SCALE {
                assert(scaled == EASE_SCALE as int * delta) by (nonlinear_arith)
                    requires
                        eased == EASE_SCALE,
                        scaled == eased * delta,
                ;
                assert(EASE_SCALE as int * delta / (EASE_SCALE as int) == delta)
                    by (nonlinear_arith)
                    requires
                        0 <= delta,
                        EASE_SCALE == 1024,
                ;
            }
        }
        if t == EASE_SCALE {
            self.is_spinning = false;
            true
        } else {
            false
        }
    }
}

/// While the elapsed time is below the duration, fixed-point progress stays
/// strictly below full scale; it is never negative.
proof fn lemma_progress_bounds(e: int, d: int)
    requires
        0 <= e,
        0 < d,
        e <= d,
    ensures
        0 <= e * (EASE_SCALE as int) / d,
        e < d ==> e * (EASE_SCALE as int) / d < EASE_SCALE as int,
        e * (EASE_SCALE as int) / d <= EASE_SCALE as int,
{
    assert(0 <= e * (EASE_SCALE as int) / d) by (nonlinear_arith)
        requires
            0 <= e,
            0 < d,
    ;
    if e < d {
        assert(e * (EASE_SCALE as int) < d * (EASE_SCALE as int)) by (nonlinear_arith)
            requires
                e < d,
                0 < d,
        ;
        vstd::arithmetic::div_mod::lemma_multiply_divide_lt(
            e * (EASE_SCALE as int),
            d,
            EASE_SCALE as int,
        );
    } else {
        assert(e * (EASE_SCALE as int) / d == EASE_SCALE as int) by (nonlinear_arith)
            requires
                e == d,
                0 < d,
        ;
    }
}

} // verus!
