//! Exact rotation algebra for the camera orientation.
//!
//! A rotation is sampled on the rational circle: a [`CircleRot`] holds a
//! cosine `c/d` and a sine `s/d` with `c*c + s*s == d*d`. The camera
//! orientation is the composition of a yaw rotation about the world-up axis
//! followed by a pitch rotation about the camera's local right axis, and the
//! lemmas here pin down its geometry exactly: yaw and pitch do not couple,
//! the orientation admits no roll, and the horizontal part of the forward
//! vector is the yaw heading alone, whatever the pitch.

use vstd::prelude::*;

verus! {

/// Fixed-point scale of sampled rotations: a cosine or sine of 1.0 is
/// represented by the integer `ANGLE_ONE`.
pub const ANGLE_ONE: i32 = 65536;

/// An exact integer 3-vector, used at spec level. A value stands for the
/// mathematical vector `(x, y, z)` divided by whatever scale its context
/// names.
pub ghost struct V3 {
    pub x: int,
    pub y: int,
    pub z: int,
}

/// A plane rotation sampled on the rational circle: cosine `c/d`, sine `s/d`.
pub ghost struct CircleRot {
    pub c: int,
    pub s: int,
    pub d: int,
}

impl CircleRot {
    /// The sample lies exactly on the unit circle, with a positive scale.
    pub open spec fn wf(self) -> bool {
        self.d > 0 && self.c * self.c + self.s * self.s == self.d * self.d
    }

    /// The identity rotation.
    pub open spec fn ident() -> CircleRot {
        CircleRot { c: 1, s: 0, d: 1 }
    }

    /// A quarter turn (90 degrees).
    pub open spec fn quarter() -> CircleRot {
        CircleRot { c: 0, s: 1, d: 1 }
    }

    /// The opposite rotation by the same angle.
    pub open spec fn neg(self) -> CircleRot {
        CircleRot { c: self.c, s: -self.s, d: self.d }
    }
}

/// The local forward axis of an unrotated camera.
pub open spec fn local_forward() -> V3 {
    V3 { x: 0, y: 0, z: 1 }
}

/// The local right axis of an unrotated camera.
pub open spec fn local_right() -> V3 {
    V3 { x: 1, y: 0, z: 0 }
}

/// Rotation about the world-up axis applied to `v`, scaled by `r.d`.
pub open spec fn rot_y(r: CircleRot, v: V3) -> V3 {
    V3 { x: r.c * v.x + r.s * v.z, y: r.d * v.y, z: -r.s * v.x + r.c * v.z }
}

/// Rotation about the world x axis applied to `v`, scaled by `r.d`.
pub open spec fn rot_x(r: CircleRot, v: V3) -> V3 {
    V3 { x: r.d * v.x, y: r.c * v.y - r.s * v.z, z: r.s * v.y + r.c * v.z }
}

/// The camera orientation applied to `v`, scaled by `yaw.d * pitch.d`: a yaw
/// rotation in world space composed with a pitch rotation in the yawed local
/// frame, `R_y(yaw) * R_x(-pitch)`. The order is what keeps roll out.
pub open spec fn orient(yaw: CircleRot, pitch: CircleRot, v: V3) -> V3 {
    rot_y(yaw, rot_x(pitch.neg(), v))
}

/// The forward vector of the oriented camera, scaled by `yaw.d * pitch.d`.
pub open spec fn forward(yaw: CircleRot, pitch: CircleRot) -> V3 {
    orient(yaw, pitch, local_forward())
}

/// The horizontal walk direction of a yaw heading, scaled by `yaw.d`: the
/// forward vector projected onto the horizontal plane and renormalized.
pub open spec fn walk_dir(yaw: CircleRot) -> V3 {
    V3 { x: yaw.s, y: 0, z: yaw.c }
}

/// The strafe direction of a yaw heading, scaled by `yaw.d`: the walk
/// direction turned a quarter turn about the world-up axis.
pub open spec fn strafe_dir(yaw: CircleRot) -> V3 {
    V3 { x: yaw.c, y: 0, z: -yaw.s }
}

/// Dot product of the horizontal components of two vectors.
pub open spec fn dot_h(a: V3, b: V3) -> int {
    a.x * b.x + a.z * b.z
}

/// Squared length of a vector.
pub open spec fn norm_sq(v: V3) -> int {
    v.x * v.x + v.y * v.y + v.z * v.z
}

/// The forward vector of the composed orientation, written out: its
/// horizontal part is the walk direction scaled by the pitch cosine, and its
/// vertical part is the pitch sine scaled by the yaw scale.
pub proof fn lemma_forward_components(yaw: CircleRot, pitch: CircleRot)
    ensures
        forward(yaw, pitch).x == yaw.s * pitch.c,
        forward(yaw, pitch).y == yaw.d * pitch.s,
        forward(yaw, pitch).z == yaw.c * pitch.c,
{
    assert(forward(yaw, pitch).x == yaw.s * pitch.c) by (nonlinear_arith);
    assert(forward(yaw, pitch).y == yaw.d * pitch.s) by (nonlinear_arith);
    assert(forward(yaw, pitch).z == yaw.c * pitch.c) by (nonlinear_arith);
}

/// A pure yaw rotation does not alter pitch: with the identity pitch the
/// forward vector stays in the horizontal plane, so the pitch read back from
/// the composed orientation is zero.
pub proof fn lemma_pure_yaw_keeps_pitch(yaw: CircleRot)
    ensures
        forward(yaw, CircleRot::ident()).y == 0,
{
    lemma_forward_components(yaw, CircleRot::ident());
}

/// A pure pitch rotation does not alter yaw: with the identity yaw the
/// horizontal part of the forward vector still points along the identity
/// heading `+z`, whatever the pitch.
pub proof fn lemma_pure_pitch_keeps_yaw(pitch: CircleRot)
    ensures
        forward(CircleRot::ident(), pitch).x == 0,
        forward(CircleRot::ident(), pitch).z == pitch.c,
{
    lemma_forward_components(CircleRot::ident(), pitch);
}

/// The yaw-then-pitch composition admits no roll: the camera's local right
/// axis stays exactly horizontal under every orientation.
pub proof fn lemma_no_roll(yaw: CircleRot, pitch: CircleRot)
    ensures
        orient(yaw, pitch, local_right()).y == 0,
{
    assert(orient(yaw, pitch, local_right()).y == 0) by (nonlinear_arith);
}

/// The forward vector's length is the product of the two scales, so the sine
/// of the pitch read back from the orientation, `forward.y` over that length,
/// is exactly `pitch.s / pitch.d` whatever the yaw: yawing does not alter
/// pitch, and pitching does not change the forward vector's length.
#[verifier::rlimit(50)]
pub proof fn lemma_forward_norm(yaw: CircleRot, pitch: CircleRot)
    requires
        yaw.wf(),
        pitch.wf(),
    ensures
        norm_sq(forward(yaw, pitch)) == (yaw.d * pitch.d) * (yaw.d * pitch.d),
{
    lemma_forward_components(yaw, pitch);
    assert((yaw.s * pitch.c) * (yaw.s * pitch.c) + (yaw.c * pitch.c) * (yaw.c * pitch.c) == (
    yaw.s * yaw.s + yaw.c * yaw.c) * (pitch.c * pitch.c)) by (nonlinear_arith);
    assert((yaw.d * pitch.s) * (yaw.d * pitch.s) == (yaw.d * yaw.d) * (pitch.s * pitch.s))
        by (nonlinear_arith);
    assert((yaw.d * yaw.d) * (pitch.c * pitch.c) + (yaw.d * yaw.d) * (pitch.s * pitch.s) == (
    yaw.d * yaw.d) * (pitch.c * pitch.c + pitch.s * pitch.s)) by (nonlinear_arith);
    assert((yaw.d * pitch.d) * (yaw.d * pitch.d) == (yaw.d * yaw.d) * (pitch.d * pitch.d))
        by (nonlinear_arith);
}

/// The horizontal part of the forward vector is the walk direction of the yaw
/// heading scaled by the pitch cosine: pitch changes only its length, never
/// its direction, and the direction degenerates exactly at a pitch of
/// plus or minus 90 degrees, where the cosine is zero. Two orientations that
/// share a yaw heading therefore walk the same horizontal line, and with both
/// pitch cosines positive they walk it the same way.
pub proof fn lemma_horizontal_invariant_to_pitch(yaw: CircleRot, p1: CircleRot, p2: CircleRot)
    requires
        yaw.wf(),
    ensures
        forward(yaw, p1).x == walk_dir(yaw).x * p1.c,
        forward(yaw, p1).z == walk_dir(yaw).z * p1.c,
        forward(yaw, p1).x * p2.c == forward(yaw, p2).x * p1.c,
        forward(yaw, p1).z * p2.c == forward(yaw, p2).z * p1.c,
        p1.c == 0 ==> forward(yaw, p1).x == 0 && forward(yaw, p1).z == 0,
        p1.c > 0 && p2.c > 0 ==> dot_h(forward(yaw, p1), forward(yaw, p2)) > 0,
{
    lemma_forward_components(yaw, p1);
    lemma_forward_components(yaw, p2);
    assert((yaw.s * p1.c) * p2.c == (yaw.s * p2.c) * p1.c) by (nonlinear_arith);
    assert((yaw.c * p1.c) * p2.c == (yaw.c * p2.c) * p1.c) by (nonlinear_arith);
    assert(p1.c > 0 && p2.c > 0 ==> (yaw.s * p1.c) * (yaw.s * p2.c) + (yaw.c * p1.c) * (yaw.c
        * p2.c) > 0)
        by (nonlinear_arith)
        requires
            yaw.d > 0,
            yaw.c * yaw.c + yaw.s * yaw.s == yaw.d * yaw.d,
    ;
}

/// The strafe direction is the walk direction turned a quarter turn about the
/// world-up axis.
pub proof fn lemma_strafe_is_quarter_turn(yaw: CircleRot)
    ensures
        rot_y(CircleRot::quarter(), walk_dir(yaw)) == strafe_dir(yaw),
{
    assert(rot_y(CircleRot::quarter(), walk_dir(yaw)).x == yaw.c) by (nonlinear_arith);
    assert(rot_y(CircleRot::quarter(), walk_dir(yaw)).y == 0) by (nonlinear_arith);
    assert(rot_y(CircleRot::quarter(), walk_dir(yaw)).z == -yaw.s) by (nonlinear_arith);
}

/// A plane rotation sampled in fixed point: `c` and `s` are the cosine and
/// sine of the angle scaled by `ANGLE_ONE` and rounded. The host loop samples
/// the yaw (and, when it wants the full forward vector, the pitch) this way
/// once per frame.
#[derive(Clone, Copy)]
pub struct Turn {
    pub c: i32,
    pub s: i32,
}

impl View for Turn {
    type V = CircleRot;

    open spec fn view(&self) -> CircleRot {
        CircleRot { c: self.c as int, s: self.s as int, d: ANGLE_ONE as int }
    }
}

impl Turn {
    /// The sample is in range: a rounded cosine or sine never exceeds the
    /// scale in magnitude.
    pub open spec fn wf(self) -> bool {
        -(ANGLE_ONE as int) <= self.c as int <= ANGLE_ONE as int && -(ANGLE_ONE as int)
            <= self.s as int <= ANGLE_ONE as int
    }

    /// A sample of the identity rotation.
    pub fn ident() -> (r: Turn)
        ensures
            r.c == ANGLE_ONE,
            r.s == 0,
            r.wf(),
    {
        Turn { c: ANGLE_ONE, s: 0 }
    }

    /// A sample from its two scaled components.
    pub fn new(c: i32, s: i32) -> (r: Turn)
        requires
            -ANGLE_ONE <= c <= ANGLE_ONE,
            -ANGLE_ONE <= s <= ANGLE_ONE,
        ensures
            r.c == c,
            r.s == s,
            r.wf(),
    {
        Turn { c, s }
    }
}

/// An exact direction vector. The components stand for the mathematical
/// direction scaled by `ANGLE_ONE`, except for the full forward vector,
/// whose two rotation factors each carry a scale.
pub struct DirVec {
    pub x: i64,
    pub y: i64,
    pub z: i64,
}

impl View for DirVec {
    type V = V3;

    open spec fn view(&self) -> V3 {
        V3 { x: self.x as int, y: self.y as int, z: self.z as int }
    }
}

/// The full forward vector of the orientation: yaw about world-up, then
/// pitch about the yawed local right axis, applied to the local forward
/// axis. Scaled by `ANGLE_ONE * ANGLE_ONE`.
pub fn forward_vec(yaw: &Turn, pitch: &Turn) -> (r: DirVec)
    requires
        yaw.wf(),
        pitch.wf(),
    ensures
        r@ == forward(yaw@, pitch@),
{
    proof {
        lemma_forward_components(yaw@, pitch@);
        assert((yaw.s as int) * (pitch.c as int) <= 0x1_0000_0000
            && -0x1_0000_0000 <= (yaw.s as int) * (pitch.c as int)) by (nonlinear_arith)
            requires
                -0x1_0000 <= yaw.s as int <= 0x1_0000,
                -0x1_0000 <= pitch.c as int <= 0x1_0000,
        ;
        assert((yaw.c as int) * (pitch.c as int) <= 0x1_0000_0000
            && -0x1_0000_0000 <= (yaw.c as int) * (pitch.c as int)) by (nonlinear_arith)
            requires
                -0x1_0000 <= yaw.c as int <= 0x1_0000,
                -0x1_0000 <= pitch.c as int <= 0x1_0000,
        ;
    }
    DirVec {
        x: (yaw.s as i64) * (pitch.c as i64),
        y: (ANGLE_ONE as i64) * (pitch.s as i64),
        z: (yaw.c as i64) * (pitch.c as i64),
    }
}

/// The horizontal walk direction of a yaw heading: the forward vector
/// projected onto the horizontal plane and renormalized, which by
/// `lemma_horizontal_invariant_to_pitch` is the heading alone, for every
/// pitch short of straight up or down. Scaled by `ANGLE_ONE`.
pub fn forward_walk_vec(yaw: &Turn) -> (r: DirVec)
    ensures
        r@ == walk_dir(yaw@),
{
    DirVec { x: yaw.s as i64, y: 0, z: yaw.c as i64 }
}

/// The strafe direction of a yaw heading: the walk direction turned a
/// quarter turn about the world-up axis. Scaled by `ANGLE_ONE`.
pub fn strafe_vec(yaw: &Turn) -> (r: DirVec)
    ensures
        r@ == strafe_dir(yaw@),
        r@ == rot_y(CircleRot::quarter(), walk_dir(yaw@)),
{
    proof {
        lemma_strafe_is_quarter_turn(yaw@);
    }
    DirVec { x: yaw.c as i64, y: 0, z: -(yaw.s as i64) }
}

} // verus!
