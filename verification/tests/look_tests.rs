// Scenario tests for the look controller: exact fixed-point yaw/pitch
// integration with a hard pitch clamp.

use freelook::look::{rotate_player, Player, PITCH_LIMIT_MDEG};

#[test]
fn default_player_values() {
    let p = Player::default();
    assert_eq!(p.yaw, 90_000);
    assert_eq!(p.pitch, 0);
    assert_eq!(p.sensitivity, 30);
}

#[test]
fn zero_delta_leaves_orientation() {
    // A full second with no pointer motion changes nothing.
    let mut p = Player::default();
    rotate_player(&mut p, 0, 0, 1000);
    assert_eq!(p.yaw, 90_000);
    assert_eq!(p.pitch, 0);
}

#[test]
fn zero_delta_from_arbitrary_orientation() {
    let mut p = Player::new(-123_456, 45_000, 7);
    rotate_player(&mut p, 0, 0, 16);
    assert_eq!(p.yaw, -123_456);
    assert_eq!(p.pitch, 45_000);
}

#[test]
fn one_second_turn_from_spawn() {
    // From yaw 90 deg, a pointer delta of -3 over one second at sensitivity
    // 30 turns the view to yaw 90 - (-3 * 30 * 1) = 180 deg.
    let mut p = Player::default();
    rotate_player(&mut p, -3, 0, 1000);
    assert_eq!(p.yaw, 180_000);
    assert_eq!(p.pitch, 0);
}

#[test]
fn yaw_step_is_exact_per_millisecond() {
    // 5 * 30 * 16 = 2400 milli-degrees, subtracted from yaw.
    let mut p = Player::default();
    rotate_player(&mut p, 5, 0, 16);
    assert_eq!(p.yaw, 90_000 - 2_400);
}

#[test]
fn pitch_step_is_exact() {
    // 2 * 30 * 50 = 3000 milli-degrees, added to pitch.
    let mut p = Player::default();
    rotate_player(&mut p, 0, 2, 50);
    assert_eq!(p.pitch, 3_000);
}

#[test]
fn pitch_clamps_looking_up() {
    // 100 * 30 * 1000 = 3,000,000 milli-degrees, far past the 90 deg clamp.
    let mut p = Player::default();
    rotate_player(&mut p, 0, 100, 1000);
    assert_eq!(p.pitch, PITCH_LIMIT_MDEG);
    assert_eq!(p.yaw, 90_000);
}

#[test]
fn pitch_clamps_looking_down() {
    let mut p = Player::default();
    rotate_player(&mut p, 0, -100, 1000);
    assert_eq!(p.pitch, -PITCH_LIMIT_MDEG);
}

#[test]
fn pitch_saturates_and_stays_saturated() {
    let mut p = Player::default();
    rotate_player(&mut p, 0, 100, 1000);
    rotate_player(&mut p, 0, 1, 1000);
    assert_eq!(p.pitch, PITCH_LIMIT_MDEG);
    // And it comes back down exactly, with no windup beyond the clamp.
    rotate_player(&mut p, 0, -1, 1000);
    assert_eq!(p.pitch, PITCH_LIMIT_MDEG - 30_000);
}

#[test]
fn yaw_is_unbounded() {
    // Yaw passes 360 degrees without wrapping; only the trigonometric
    // sampling the host applies wraps it.
    let mut p = Player::default();
    rotate_player(&mut p, -100, 0, 1000);
    assert_eq!(p.yaw, 90_000 + 3_000_000);
}

#[test]
fn sensitivity_scales_the_step() {
    let mut slow = Player::new(0, 0, 1);
    let mut fast = Player::new(0, 0, 60);
    rotate_player(&mut slow, 4, 0, 250);
    rotate_player(&mut fast, 4, 0, 250);
    assert_eq!(slow.yaw, -1_000);
    assert_eq!(fast.yaw, -60_000);
}

#[test]
fn zero_frame_time_changes_nothing() {
    let mut p = Player::default();
    rotate_player(&mut p, 77, -55, 0);
    assert_eq!(p.yaw, 90_000);
    assert_eq!(p.pitch, 0);
}
