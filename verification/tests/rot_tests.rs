// Tests for the sampled-rotation direction vectors: the yaw-then-pitch
// composition keeps yaw and pitch uncoupled, and pitch never steers the
// horizontal walk direction.

use freelook::rot::{forward_vec, forward_walk_vec, strafe_vec, Turn, ANGLE_ONE};

const ONE: i64 = ANGLE_ONE as i64;

#[test]
fn forward_at_identity() {
    // Unrotated, the forward vector is the local forward axis, at the scale
    // of both rotation factors.
    let f = forward_vec(&Turn::ident(), &Turn::ident());
    assert_eq!(f.x, 0);
    assert_eq!(f.y, 0);
    assert_eq!(f.z, ONE * ONE);
}

#[test]
fn pure_yaw_keeps_the_camera_level() {
    // Any yaw with the identity pitch leaves the forward vector horizontal:
    // yawing does not pitch the view.
    let yaw = Turn::new(23_170, 61_357);
    let f = forward_vec(&yaw, &Turn::ident());
    assert_eq!(f.y, 0);
    assert_eq!(f.x, 61_357 * ONE);
    assert_eq!(f.z, 23_170 * ONE);
}

#[test]
fn pure_pitch_keeps_the_heading() {
    // Any pitch with the identity yaw leaves the horizontal part of the
    // forward vector on the identity heading: pitching does not yaw the view.
    let pitch = Turn::new(32_768, 56_756);
    let f = forward_vec(&Turn::ident(), &pitch);
    assert_eq!(f.x, 0);
    assert_eq!(f.y, ONE * 56_756);
    assert_eq!(f.z, ONE * 32_768);
}

#[test]
fn horizontal_direction_is_invariant_to_pitch() {
    // With a fixed yaw and two different pitches the horizontal parts of the
    // forward vectors are collinear: cross-multiplying by the pitch cosines
    // matches them exactly.
    let yaw = Turn::new(-40_000, 50_000);
    let shallow = Turn::new(61_357, 23_170);
    let steep = Turn::new(23_170, 61_357);
    let f1 = forward_vec(&yaw, &shallow);
    let f2 = forward_vec(&yaw, &steep);
    assert_eq!(f1.x * (steep.c as i64), f2.x * (shallow.c as i64));
    assert_eq!(f1.z * (steep.c as i64), f2.z * (shallow.c as i64));
}

#[test]
fn straight_up_degenerates_horizontally() {
    // At pitch 90 deg the cosine is zero and the horizontal part of the
    // forward vector vanishes: the walk direction is undefined there, which
    // the look controller's clamp is what keeps out of reach in practice.
    let yaw = Turn::new(23_170, 61_357);
    let straight_up = Turn::new(0, ANGLE_ONE);
    let f = forward_vec(&yaw, &straight_up);
    assert_eq!(f.x, 0);
    assert_eq!(f.z, 0);
    assert_eq!(f.y, ONE * ONE);
}

#[test]
fn walk_direction_is_the_heading() {
    let yaw = Turn::new(-12_345, 54_321);
    let w = forward_walk_vec(&yaw);
    assert_eq!(w.x, 54_321);
    assert_eq!(w.y, 0);
    assert_eq!(w.z, -12_345);
}

#[test]
fn strafe_is_walk_turned_a_quarter() {
    // (s, 0, c) turned 90 deg about world-up is (c, 0, -s).
    let yaw = Turn::new(-12_345, 54_321);
    let s = strafe_vec(&yaw);
    assert_eq!(s.x, -12_345);
    assert_eq!(s.y, 0);
    assert_eq!(s.z, -54_321);
}

#[test]
fn strafe_is_orthogonal_to_walk() {
    let yaw = Turn::new(23_170, 61_357);
    let w = forward_walk_vec(&yaw);
    let s = strafe_vec(&yaw);
    assert_eq!(w.x * s.x + w.z * s.z, 0);
}
