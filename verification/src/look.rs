//! The look controller: per-frame integration of pointer motion into a
//! yaw/pitch orientation.
//!
//! Angles are exact fixed-point milli-degrees. Each frame the controller is
//! handed the pointer delta accumulated since the previous frame (in pointer
//! units) and the elapsed frame time (in milliseconds); sensitivity is in
//! degrees per pointer-unit-second, so one frame contributes exactly
//! `delta * sensitivity * dt_ms` milli-degrees — no rounding anywhere. Pitch
//! is hard-clamped to plus or minus 90 degrees, saturating, never wrapping;
//! yaw is unbounded and wraps only through the trigonometric sampling that
//! the host applies to it.

use vstd::prelude::*;

verus! {

/// The pitch clamp bound, in milli-degrees: 90 degrees.
pub const PITCH_LIMIT_MDEG: i64 = 90_000;

/// Free-look orientation state of the player's head and camera: `yaw` and
/// `pitch` in milli-degrees, `sensitivity` in degrees per pointer-unit-second.
/// The player body takes only the yaw, so it faces the look direction on the
/// horizontal plane; the camera takes yaw and pitch together.
pub struct Player {
    pub yaw: i64,
    pub pitch: i64,
    pub sensitivity: u16,
}

/// Yaw after one frame: pointer x-motion, scaled by sensitivity and frame
/// time, turns the view the other way.
pub open spec fn next_yaw(yaw: int, dx: int, sensitivity: int, dt_ms: int) -> int {
    yaw - dx * sensitivity * dt_ms
}

/// Saturating clamp of a pitch angle to plus or minus 90 degrees.
pub open spec fn clamp_pitch(p: int) -> int {
    if p < -PITCH_LIMIT_MDEG {
        -PITCH_LIMIT_MDEG as int
    } else if p > PITCH_LIMIT_MDEG {
        PITCH_LIMIT_MDEG as int
    } else {
        p
    }
}

/// Pitch after one frame: pointer y-motion scaled the same way, then clamped.
pub open spec fn next_pitch(pitch: int, dy: int, sensitivity: int, dt_ms: int) -> int {
    clamp_pitch(pitch + dy * sensitivity * dt_ms)
}

impl Player {
    /// Pitch is inside the clamp range.
    pub open spec fn wf(self) -> bool {
        -PITCH_LIMIT_MDEG <= self.pitch <= PITCH_LIMIT_MDEG
    }

    /// A player from explicit angles and sensitivity.
    pub fn new(yaw: i64, pitch: i64, sensitivity: u16) -> (r: Player)
        requires
            -PITCH_LIMIT_MDEG <= pitch <= PITCH_LIMIT_MDEG,
        ensures
            r.yaw == yaw,
            r.pitch == pitch,
            r.sensitivity == sensitivity,
            r.wf(),
    {
        Player { yaw, pitch, sensitivity }
    }
}

impl Default for Player {
    /// The spawn orientation: facing yaw 90 degrees, level pitch,
    /// sensitivity 30.
    fn default() -> (r: Self)
        ensures
            r.yaw == 90_000,
            r.pitch == 0,
            r.sensitivity == 30,
            r.wf(),
    {
        Player { yaw: 90_000, pitch: 0, sensitivity: 30 }
    }
}

/// One frame's angle step, `delta * sensitivity * dt_ms`, stays well inside
/// the wide machine integer for every pointer delta a frame can carry.
proof fn lemma_delta_step_bounds(delta: int, sensitivity: int, dt_ms: int)
    requires
        -0x8000_0000 <= delta <= 0x8000_0000,
        0 <= sensitivity < 0x1_0000,
        0 <= dt_ms < 0x1_0000_0000,
    ensures
        -0x8000_0000_0000 <= delta * sensitivity <= 0x8000_0000_0000,
        -0x8000_0000_0000_0000_0000_0000 <= delta * sensitivity * dt_ms
            <= 0x8000_0000_0000_0000_0000_0000,
{
    assert(-0x8000_0000_0000 <= delta * sensitivity <= 0x8000_0000_0000) by (nonlinear_arith)
        requires
            -0x8000_0000 <= delta <= 0x8000_0000,
            0 <= sensitivity < 0x1_0000,
    ;
    assert(-0x8000_0000_0000_0000_0000_0000 <= (delta * sensitivity) * dt_ms
        <= 0x8000_0000_0000_0000_0000_0000)
        by (nonlinear_arith)
        requires
            -0x8000_0000_0000 <= delta * sensitivity <= 0x8000_0000_0000,
            0 <= dt_ms < 0x1_0000_0000,
    ;
}

/// One look-controller frame: fold the pointer delta of the frame into yaw
/// and pitch, clamping pitch so the view can never flip past straight up or
/// down. Zero pointer motion leaves both angles exactly unchanged; nothing
/// decays or smooths. The precondition only keeps the unbounded yaw within
/// the machine integer.
pub fn rotate_player(player: &mut Player, dx: i32, dy: i32, dt_ms: u32)
    requires
        i64::MIN <= next_yaw(
            old(player).yaw as int,
            dx as int,
            old(player).sensitivity as int,
            dt_ms as int,
        ) <= i64::MAX,
    ensures
        final(player).yaw == next_yaw(
            old(player).yaw as int,
            dx as int,
            old(player).sensitivity as int,
            dt_ms as int,
        ),
        final(player).pitch == next_pitch(
            old(player).pitch as int,
            dy as int,
            old(player).sensitivity as int,
            dt_ms as int,
        ),
        final(player).sensitivity == old(player).sensitivity,
        final(player).wf(),
{
    let sens: i128 = player.sensitivity as i128;
    proof {
        lemma_delta_step_bounds(dx as int, sens as int, dt_ms as int);
        lemma_delta_step_bounds(dy as int, sens as int, dt_ms as int);
    }
    let step_x: i128 = (dx as i128) * sens * (dt_ms as i128);
    let step_y: i128 = (dy as i128) * sens * (dt_ms as i128);
    let new_yaw: i128 = (player.yaw as i128) - step_x;
    let mut new_pitch: i128 = (player.pitch as i128) + step_y;
    if new_pitch < -(PITCH_LIMIT_MDEG as i128) {
        new_pitch = -(PITCH_LIMIT_MDEG as i128);
    } else if new_pitch > PITCH_LIMIT_MDEG as i128 {
        new_pitch = PITCH_LIMIT_MDEG as i128;
    }
    player.yaw = new_yaw as i64;
    player.pitch = new_pitch as i64;
}

/// For every pointer delta, sensitivity and frame time, the pitch that comes
/// out of a frame lies within plus or minus 90 degrees.
pub proof fn lemma_pitch_always_in_range(pitch: int, dy: int, sensitivity: int, dt_ms: int)
    ensures
        -PITCH_LIMIT_MDEG <= next_pitch(pitch, dy, sensitivity, dt_ms) <= PITCH_LIMIT_MDEG,
{
}

/// A frame with no pointer motion leaves yaw and pitch exactly unchanged,
/// whatever the sensitivity and frame time.
pub proof fn lemma_zero_delta_fixpoint(yaw: int, pitch: int, sensitivity: int, dt_ms: int)
    requires
        -PITCH_LIMIT_MDEG <= pitch <= PITCH_LIMIT_MDEG,
    ensures
        next_yaw(yaw, 0, sensitivity, dt_ms) == yaw,
        next_pitch(pitch, 0, sensitivity, dt_ms) == pitch,
{
    assert(0 * sensitivity * dt_ms == 0) by (nonlinear_arith);
}

} // verus!
