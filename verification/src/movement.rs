//! The move controller: per-frame integration of key intents into a world
//! position.
//!
//! Positions are exact fixed point: `POS_ONE` raw units are one world unit.
//! Each frame the controller takes the held-key snapshot, the bindings, the
//! frame's yaw heading sample and the elapsed milliseconds, combines the
//! strafe, walk and world-up directions weighted by the three axis intents,
//! scales by speed and frame time, and adds the result to the position —
//! all without rounding. The axes are not normalized against each other:
//! diagonal movement is faster than axis-aligned movement, as the design
//! accepts. The heading alone steers the horizontal part; pitch never does,
//! which `rot::lemma_horizontal_invariant_to_pitch` proves of the underlying
//! geometry.

use vstd::prelude::*;
use crate::input::{axis_value, movement_offset, KeySet, Options};
use crate::rot::{
    dot_h,
    forward_walk_vec,
    strafe_dir,
    strafe_vec,
    walk_dir,
    CircleRot,
    Turn,
    V3,
    ANGLE_ONE,
};

verus! {

/// Raw position units per world unit: the heading scale times the
/// milliseconds in a second, so that one frame's displacement is an exact
/// integer.
pub const POS_ONE: i64 = 65_536_000;

/// A world position in raw units of `1 / POS_ONE` world units.
pub struct Position {
    pub x: i64,
    pub y: i64,
    pub z: i64,
}

impl View for Position {
    type V = V3;

    open spec fn view(&self) -> V3 {
        V3 { x: self.x as int, y: self.y as int, z: self.z as int }
    }
}

impl Position {
    /// The origin.
    pub fn origin() -> (r: Position)
        ensures
            r.x == 0,
            r.y == 0,
            r.z == 0,
    {
        Position { x: 0, y: 0, z: 0 }
    }
}

/// The exact displacement of one move-controller frame, in raw position
/// units: the strafe and walk directions of the yaw heading weighted by the
/// horizontal and walk intents, plus the world-up axis weighted by the float
/// intent (scaled by `yaw.d` to match the heading-scaled directions), all
/// times speed (world units per second) and frame time (milliseconds).
pub open spec fn displacement(yaw: CircleRot, ah: int, av: int, af: int, speed: int, dt_ms: int) -> V3 {
    V3 {
        x: (strafe_dir(yaw).x * ah + walk_dir(yaw).x * av) * speed * dt_ms,
        y: (yaw.d * af) * speed * dt_ms,
        z: (strafe_dir(yaw).z * ah + walk_dir(yaw).z * av) * speed * dt_ms,
    }
}

/// The displacement the move controller owes for one frame, with the three
/// axis intents read off the frame's held keys and bindings.
pub open spec fn frame_displacement(input: KeySet, options: Options, yaw: CircleRot, dt_ms: int) -> V3 {
    displacement(
        yaw,
        axis_value(input.is_held(options.key_right), input.is_held(options.key_left)),
        axis_value(input.is_held(options.key_backward), input.is_held(options.key_forward)),
        axis_value(input.is_held(options.key_up), input.is_held(options.key_down)),
        options.speed as int,
        dt_ms,
    )
}

/// One axis term of a frame displacement stays well inside the wide machine
/// integer.
proof fn lemma_axis_term_bounds(a: int, ah: int, b: int, av: int, speed: int, dt_ms: int)
    requires
        -0x1_0000 <= a <= 0x1_0000,
        -0x1_0000 <= b <= 0x1_0000,
        -1 <= ah <= 1,
        -1 <= av <= 1,
        0 <= speed < 0x1_0000,
        0 <= dt_ms < 0x1_0000_0000,
    ensures
        -0x1_0000 <= a * ah <= 0x1_0000,
        -0x1_0000 <= b * av <= 0x1_0000,
        -0x2_0000 <= a * ah + b * av <= 0x2_0000,
        -0x2_0000_0000 <= (a * ah + b * av) * speed <= 0x2_0000_0000,
        -0x2_0000_0000_0000_0000_0000 <= (a * ah + b * av) * speed * dt_ms
            <= 0x2_0000_0000_0000_0000_0000,
{
    assert(-0x1_0000 <= a * ah <= 0x1_0000 && -0x1_0000 <= b * av <= 0x1_0000)
        by (nonlinear_arith)
        requires
            -0x1_0000 <= a <= 0x1_0000,
            -0x1_0000 <= b <= 0x1_0000,
            -1 <= ah <= 1,
            -1 <= av <= 1,
    ;
    assert(-0x2_0000_0000 <= (a * ah + b * av) * speed <= 0x2_0000_0000) by (nonlinear_arith)
        requires
            -0x2_0000 <= a * ah + b * av <= 0x2_0000,
            0 <= speed < 0x1_0000,
    ;
    assert(-0x2_0000_0000_0000_0000_0000 <= ((a * ah + b * av) * speed) * dt_ms
        <= 0x2_0000_0000_0000_0000_0000)
        by (nonlinear_arith)
        requires
            -0x2_0000_0000 <= (a * ah + b * av) * speed <= 0x2_0000_0000,
            0 <= dt_ms < 0x1_0000_0000,
    ;
}

/// One move-controller frame: read the three axis intents off the held keys,
/// combine the strafe, walk and world-up directions, scale by speed and
/// frame time, and add the displacement to the position. The precondition
/// only keeps the unbounded position within the machine integer.
pub fn move_player(input: &KeySet, options: &Options, yaw: &Turn, dt_ms: u32, pos: &mut Position)
    requires
        yaw.wf(),
        i64::MIN <= old(pos)@.x + frame_displacement(*input, *options, yaw@, dt_ms as int).x
            <= i64::MAX,
        i64::MIN <= old(pos)@.y + frame_displacement(*input, *options, yaw@, dt_ms as int).y
            <= i64::MAX,
        i64::MIN <= old(pos)@.z + frame_displacement(*input, *options, yaw@, dt_ms as int).z
            <= i64::MAX,
    ensures
        final(pos)@.x == old(pos)@.x + frame_displacement(*input, *options, yaw@, dt_ms as int).x,
        final(pos)@.y == old(pos)@.y + frame_displacement(*input, *options, yaw@, dt_ms as int).y,
        final(pos)@.z == old(pos)@.z + frame_displacement(*input, *options, yaw@, dt_ms as int).z,
{
    let (axis_h, axis_v, axis_float) = movement_offset(input, options);
    let strafe = strafe_vec(yaw);
    let walk = forward_walk_vec(yaw);
    let speed: i128 = options.speed as i128;
    let dt: i128 = dt_ms as i128;
    proof {
        lemma_axis_term_bounds(
            strafe@.x,
            axis_h as int,
            walk@.x,
            axis_v as int,
            speed as int,
            dt as int,
        );
        lemma_axis_term_bounds(
            strafe@.z,
            axis_h as int,
            walk@.z,
            axis_v as int,
            speed as int,
            dt as int,
        );
        lemma_axis_term_bounds(
            yaw@.d,
            axis_float as int,
            0,
            0,
            speed as int,
            dt as int,
        );
    }
    let step_x: i128 = ((strafe.x as i128) * (axis_h as i128) + (walk.x as i128) * (axis_v
        as i128)) * speed * dt;
    let step_y: i128 = ((ANGLE_ONE as i128) * (axis_float as i128)) * speed * dt;
    let step_z: i128 = ((strafe.z as i128) * (axis_h as i128) + (walk.z as i128) * (axis_v
        as i128)) * speed * dt;
    pos.x = ((pos.x as i128) + step_x) as i64;
    pos.y = ((pos.y as i128) + step_y) as i64;
    pos.z = ((pos.z as i128) + step_z) as i64;
}

/// A frame displacement decomposed along the frame's own axes: its dot
/// product with the strafe direction is carried by the strafe intent alone,
/// and with the walk direction by the walk intent alone — the two directions
/// are orthogonal, so the intents do not leak across axes. In particular,
/// holding both keys of a pair gives that axis intent 0, and the frame then
/// moves the entity not at all along that axis, whatever the other keys do.
pub proof fn lemma_displacement_axis_split(
    yaw: CircleRot,
    ah: int,
    av: int,
    af: int,
    speed: int,
    dt_ms: int,
)
    ensures
        dot_h(displacement(yaw, ah, av, af, speed, dt_ms), strafe_dir(yaw)) == ah * (yaw.c * yaw.c
            + yaw.s * yaw.s) * speed * dt_ms,
        dot_h(displacement(yaw, ah, av, af, speed, dt_ms), walk_dir(yaw)) == av * (yaw.c * yaw.c
            + yaw.s * yaw.s) * speed * dt_ms,
{
    let c = yaw.c;
    let s = yaw.s;
    let x = c * ah + s * av;
    let y = (-s) * ah + c * av;
    lemma_bilinear_regroup(x, y, speed, dt_ms, c, -s);
    lemma_bilinear_regroup(x, y, speed, dt_ms, s, c);
    lemma_perp_axes(c, s, ah, av);
}

/// Pulling the common speed and time factors out of a two-term dot product.
#[verifier::rlimit(100)]
proof fn lemma_bilinear_regroup(x: int, y: int, p: int, q: int, r: int, w: int)
    by (nonlinear_arith)
    ensures
        x * p * q * r + y * p * q * w == (x * r + y * w) * p * q,
{
}

/// The strafe and walk directions of a heading are orthogonal unit-scaled
/// axes: projecting a combination of the two back onto either recovers that
/// axis's own weight times the squared heading scale.
proof fn lemma_perp_axes(c: int, s: int, ah: int, av: int)
    by (nonlinear_arith)
    ensures
        (c * ah + s * av) * c + ((-s) * ah + c * av) * (-s) == ah * (c * c + s * s),
        (c * ah + s * av) * s + ((-s) * ah + c * av) * c == av * (c * c + s * s),
{
}

/// Opposing keys cancel, axis by axis: holding both bindings of a pair
/// makes that pair's intent zero, and the frame's displacement then has a
/// zero component along that pair's own axis — whatever the other keys do.
pub proof fn lemma_opposed_keys_no_motion_on_their_axis(
    input: KeySet,
    options: Options,
    yaw: CircleRot,
    dt_ms: int,
)
    ensures
        input.is_held(options.key_right) && input.is_held(options.key_left) ==> dot_h(
            frame_displacement(input, options, yaw, dt_ms),
            strafe_dir(yaw),
        ) == 0,
        input.is_held(options.key_backward) && input.is_held(options.key_forward) ==> dot_h(
            frame_displacement(input, options, yaw, dt_ms),
            walk_dir(yaw),
        ) == 0,
        input.is_held(options.key_up) && input.is_held(options.key_down)
            ==> frame_displacement(input, options, yaw, dt_ms).y == 0,
{
    let ah = axis_value(input.is_held(options.key_right), input.is_held(options.key_left));
    let av = axis_value(
        input.is_held(options.key_backward),
        input.is_held(options.key_forward),
    );
    let af = axis_value(input.is_held(options.key_up), input.is_held(options.key_down));
    let speed = options.speed as int;
    lemma_displacement_axis_split(yaw, ah, av, af, speed, dt_ms);
    if input.is_held(options.key_right) && input.is_held(options.key_left) {
        assert(0 * (yaw.c * yaw.c + yaw.s * yaw.s) * speed * dt_ms == 0) by (nonlinear_arith);
    }
    if input.is_held(options.key_backward) && input.is_held(options.key_forward) {
        assert(0 * (yaw.c * yaw.c + yaw.s * yaw.s) * speed * dt_ms == 0) by (nonlinear_arith);
    }
    if input.is_held(options.key_up) && input.is_held(options.key_down) {
        assert((yaw.d * 0) * speed * dt_ms == 0) by (nonlinear_arith);
    }
}

} // verus!
