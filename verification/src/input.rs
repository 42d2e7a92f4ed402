//! Frame input: the held-key snapshot and the key-to-axis mapping.
//!
//! A [`KeySet`] is the read-only snapshot of the keys held during one frame,
//! handed in by the host loop; keys are plain `u32` codes that the host maps
//! its own key identifiers onto. [`Options`] binds the six movement actions
//! to codes and carries the movement speed. Each opposing pair of bindings
//! yields one axis intent in `{-1, 0, +1}`: holding both keys of a pair
//! cancels to zero.

use vstd::prelude::*;

verus! {

/// Default binding: the backward action, on the down arrow.
pub const KEY_ARROW_DOWN: u32 = 1;

/// Default binding: the forward action, on the up arrow.
pub const KEY_ARROW_UP: u32 = 2;

/// Default binding: the strafe-left action, on the left arrow.
pub const KEY_ARROW_LEFT: u32 = 3;

/// Default binding: the strafe-right action, on the right arrow.
pub const KEY_ARROW_RIGHT: u32 = 4;

/// Default binding: the float-up action, on the space bar.
pub const KEY_SPACE: u32 = 5;

/// Default binding: the float-down action, on the left shift key.
pub const KEY_LEFT_SHIFT: u32 = 6;

/// The set of keys held during one frame. The host loop fills it before the
/// controllers run and discards it after; the controllers only read it.
pub struct KeySet {
    held: Vec<u32>,
}

impl View for KeySet {
    type V = Seq<u32>;

    closed spec fn view(&self) -> Seq<u32> {
        self.held@
    }
}

impl KeySet {
    /// Whether the key with this code is held this frame.
    pub open spec fn is_held(self, code: u32) -> bool {
        self@.contains(code)
    }

    /// An empty snapshot: no key held.
    pub fn new() -> (r: KeySet)
        ensures
            r@ == Seq::<u32>::empty(),
    {
        KeySet { held: Vec::new() }
    }

    /// Record a key as held.
    pub fn press(&mut self, code: u32)
        ensures
            final(self)@ == old(self)@.push(code),
    {
        self.held.push(code);
    }

    /// Whether the key with this code is held this frame.
    pub fn pressed(&self, code: u32) -> (r: bool)
        ensures
            r == self.is_held(code),
    {
        let n: usize = self.held.len();
        let mut i: usize = 0;
        while i < n
            invariant
                n == self.held.len(),
                0 <= i <= n,
                forall|j: int| 0 <= j < i ==> self.held@[j] != code,
            decreases n - i,
        {
            if self.held[i] == code {
                return true;
            }
            i += 1;
        }
        false
    }
}

/// Key bindings for the six movement actions, and the movement speed in
/// world units per second. Built once at setup and never changed.
pub struct Options {
    pub key_backward: u32,
    pub key_forward: u32,
    pub key_left: u32,
    pub key_right: u32,
    pub key_up: u32,
    pub key_down: u32,
    pub speed: u16,
}

impl Default for Options {
    /// The default bindings: arrows for walking and strafing, space and left
    /// shift for floating, at speed 10.
    fn default() -> (r: Self)
        ensures
            r.key_backward == KEY_ARROW_DOWN,
            r.key_forward == KEY_ARROW_UP,
            r.key_left == KEY_ARROW_LEFT,
            r.key_right == KEY_ARROW_RIGHT,
            r.key_up == KEY_SPACE,
            r.key_down == KEY_LEFT_SHIFT,
            r.speed == 10,
    {
        Options {
            key_backward: KEY_ARROW_DOWN,
            key_forward: KEY_ARROW_UP,
            key_left: KEY_ARROW_LEFT,
            key_right: KEY_ARROW_RIGHT,
            key_up: KEY_SPACE,
            key_down: KEY_LEFT_SHIFT,
            speed: 10,
        }
    }
}

/// Movement intent along one axis from an opposing key pair: +1 for the
/// positive key alone, -1 for the negative key alone, and 0 when both or
/// neither is held.
pub open spec fn axis_value(plus_held: bool, minus_held: bool) -> int {
    if plus_held && !minus_held {
        1
    } else if minus_held && !plus_held {
        -1
    } else {
        0
    }
}

/// One axis of the move controller: check the positive and the negative key
/// of the pair and combine them, so that opposing keys cancel.
pub fn movement_axis(input: &KeySet, plus: u32, minus: u32) -> (r: i64)
    ensures
        r == axis_value(input.is_held(plus), input.is_held(minus)),
{
    let mut axis: i64 = 0;
    if input.pressed(plus) {
        axis += 1;
    }
    if input.pressed(minus) {
        axis -= 1;
    }
    axis
}

/// The three axis intents of one frame, in the move controller's order:
/// horizontal strafe (right minus left), walk (backward minus forward), and
/// vertical float (up minus down).
pub fn movement_offset(input: &KeySet, options: &Options) -> (r: (i64, i64, i64))
    ensures
        r.0 == axis_value(input.is_held(options.key_right), input.is_held(options.key_left)),
        r.1 == axis_value(input.is_held(options.key_backward), input.is_held(options.key_forward)),
        r.2 == axis_value(input.is_held(options.key_up), input.is_held(options.key_down)),
{
    (
        movement_axis(input, options.key_right, options.key_left),
        movement_axis(input, options.key_backward, options.key_forward),
        movement_axis(input, options.key_up, options.key_down),
    )
}

/// An axis intent is never outside `{-1, 0, +1}`, and an opposing pair held
/// together (or released together) cancels to exactly zero.
pub proof fn lemma_axis_value_range(plus_held: bool, minus_held: bool)
    ensures
        -1 <= axis_value(plus_held, minus_held) <= 1,
        plus_held == minus_held ==> axis_value(plus_held, minus_held) == 0,
{
}

} // verus!
