use vstd::prelude::*;
use vstd::arithmetic::div_mod::{lemma_mod_bound, lemma_mod_multiples_vanish, lemma_small_mod};

verus! {

/// Angles are counted in thousandths of a degree.
pub const MILLIDEGREES_PER_DEGREE: i32 = 1000;

/// Half a turn, in millidegrees.
pub const HALF_TURN: i32 = 180_000;

/// A whole turn, in millidegrees.
pub const FULL_TURN: i64 = 360_000;

/// Largest pitch, up or down, in millidegrees; beyond it the view would flip.
pub const PITCH_LIMIT: i32 = 89_000;

/// Rotation per pixel of mouse motion, in millidegrees (0.2 degrees).
pub const MOUSE_SENSITIVITY: i64 = 200;

/// Widest angle that the wrapping below has to handle, in millidegrees.
const ANGLE_BOUND: i64 = 0x100_0000_0000;

/// Multiple of a full turn that is larger than any angle handled.
const TURN_OFFSET: i64 = 360_000 * 0x400_0000;

/// The angle equal to `a` modulo a full turn that lies in (-180°, 180°].
pub open spec fn wrap_yaw(a: int) -> int {
    (a + HALF_TURN - 1) % (FULL_TURN as int) - (HALF_TURN - 1)
}

/// `p` clamped into [-89°, 89°].
pub open spec fn clamp_pitch(p: int) -> int {
    if p >= PITCH_LIMIT {
        PITCH_LIMIT as int
    } else if p <= -PITCH_LIMIT {
        -PITCH_LIMIT
    } else {
        p
    }
}

/// A yaw that wrapping leaves as it is.
pub open spec fn yaw_in_range(a: int) -> bool {
    -HALF_TURN < a <= HALF_TURN
}

/// A pitch that clamping leaves as it is.
pub open spec fn pitch_in_range(p: int) -> bool {
    -PITCH_LIMIT <= p <= PITCH_LIMIT
}

/// Wrapping lands in (-180°, 180°], keeps angles already there, and gives
/// the same angle for any two inputs that differ by whole turns, so adding
/// 360° any number of times returns to the same yaw.
pub proof fn lemma_wrap_yaw(a: int, turns: int)
    ensures
        yaw_in_range(wrap_yaw(a)),
        yaw_in_range(a) ==> wrap_yaw(a) == a,
        wrap_yaw(a + turns * FULL_TURN) == wrap_yaw(a),
{
    lemma_mod_bound(a + HALF_TURN - 1, FULL_TURN as int);
    if yaw_in_range(a) {
        lemma_small_mod((a + HALF_TURN - 1) as nat, FULL_TURN as nat);
    }
    lemma_mod_multiples_vanish(turns, a + HALF_TURN - 1, FULL_TURN as int);
    assert(a + turns * FULL_TURN + HALF_TURN - 1 == FULL_TURN * turns + (a + HALF_TURN - 1)) by (nonlinear_arith);
}

/// Clamping lands in [-89°, 89°] and keeps pitches already there.
pub proof fn lemma_clamp_pitch(p: int)
    ensures
        pitch_in_range(clamp_pitch(p)),
        pitch_in_range(p) ==> clamp_pitch(p) == p,
{
}

fn wrap(a: i64) -> (r: i32)
    requires
        -ANGLE_BOUND <= a <= ANGLE_BOUND,
    ensures
        r == wrap_yaw(a as int),
{
    let shifted: i64 = a + (HALF_TURN as i64 - 1) + TURN_OFFSET;
    proof {
        lemma_mod_multiples_vanish(0x400_0000, a + HALF_TURN - 1, FULL_TURN as int);
        lemma_mod_bound(a + HALF_TURN - 1, FULL_TURN as int);
    }
    let m: i64 = ((shifted as u64) % (FULL_TURN as u64)) as i64;
    (m - (HALF_TURN as i64 - 1)) as i32
}

fn clamp(p: i64) -> (r: i32)
    ensures
        r == clamp_pitch(p as int),
{
    if p >= PITCH_LIMIT as i64 {
        PITCH_LIMIT
    } else if p <= -PITCH_LIMIT as i64 {
        -PITCH_LIMIT
    } else {
        p as i32
    }
}

/// Where the camera looks: yaw about the vertical axis and pitch above the
/// horizon, in millidegrees. Yaw stays in (-180°, 180°] and pitch in
/// [-89°, 89°].
#[derive(Clone, Copy, Debug, PartialEq, Eq, Structural)]
pub struct Orientation {
    yaw: i32,
    pitch: i32,
}

impl Default for Orientation {
    /// Looking along +Z: yaw 90°, pitch 0°.
    fn default() -> (r: Self)
        ensures
            r.yaw_spec() == 90 * MILLIDEGREES_PER_DEGREE,
            r.pitch_spec() == 0,
            r.wf(),
    {
        Orientation { yaw: 90 * MILLIDEGREES_PER_DEGREE, pitch: 0 }
    }
}

impl Orientation {
    pub closed spec fn yaw_spec(&self) -> int {
        self.yaw as int
    }

    pub closed spec fn pitch_spec(&self) -> int {
        self.pitch as int
    }

    #[verifier::type_invariant]
    spec fn in_range(self) -> bool {
        yaw_in_range(self.yaw as int) && pitch_in_range(self.pitch as int)
    }

    pub open spec fn wf(&self) -> bool {
        yaw_in_range(self.yaw_spec()) && pitch_in_range(self.pitch_spec())
    }

    /// The orientation with `yaw` wrapped and `pitch` clamped.
    pub fn new(yaw: i32, pitch: i32) -> (r: Self)
        ensures
            r.yaw_spec() == wrap_yaw(yaw as int),
            r.pitch_spec() == clamp_pitch(pitch as int),
            r.wf(),
    {
        proof {
            lemma_wrap_yaw(yaw as int, 0);
            lemma_clamp_pitch(pitch as int);
        }
        Orientation { yaw: wrap(yaw as i64), pitch: clamp(pitch as i64) }
    }

    pub fn yaw(&self) -> (r: i32)
        ensures
            r == self.yaw_spec(),
    {
        self.yaw
    }

    pub fn pitch(&self) -> (r: i32)
        ensures
            r == self.pitch_spec(),
    {
        self.pitch
    }

    /// Turns by `delta` millidegrees and wraps the result into (-180°, 180°].
    pub fn add_yaw(&mut self, delta: i32)
        ensures
            final(self).yaw_spec() == wrap_yaw(old(self).yaw_spec() + delta),
            final(self).pitch_spec() == old(self).pitch_spec(),
            final(self).wf(),
    {
        proof {
            use_type_invariant(&*self);
            lemma_wrap_yaw(self.yaw + delta, 0);
        }
        *self = Orientation { yaw: wrap(self.yaw as i64 + delta as i64), pitch: self.pitch };
    }

    /// Tilts by `delta` millidegrees and clamps the result into [-89°, 89°].
    pub fn add_pitch(&mut self, delta: i32)
        ensures
            final(self).pitch_spec() == clamp_pitch(old(self).pitch_spec() + delta),
            final(self).yaw_spec() == old(self).yaw_spec(),
            final(self).wf(),
    {
        proof {
            use_type_invariant(&*self);
            lemma_clamp_pitch(self.pitch + delta);
        }
        *self = Orientation { yaw: self.yaw, pitch: clamp(self.pitch as i64 + delta as i64) };
    }

    /// Turns the view by a relative mouse motion: right turns the yaw up,
    /// down lowers the pitch, each pixel by the mouse sensitivity.
    pub fn look(&mut self, xrel: i32, yrel: i32)
        ensures
            final(self).yaw_spec() == wrap_yaw(old(self).yaw_spec() + MOUSE_SENSITIVITY * xrel),
            final(self).pitch_spec() == clamp_pitch(old(self).pitch_spec() - MOUSE_SENSITIVITY * yrel),
            final(self).wf(),
    {
        proof {
            lemma_wrap_yaw(self.yaw + MOUSE_SENSITIVITY * xrel, 0);
            lemma_clamp_pitch(self.pitch - MOUSE_SENSITIVITY * yrel);
        }
        *self = Orientation {
            yaw: wrap(self.yaw as i64 + MOUSE_SENSITIVITY * xrel as i64),
            pitch: clamp(self.pitch as i64 - MOUSE_SENSITIVITY * yrel as i64),
        };
    }
}

} // verus!
