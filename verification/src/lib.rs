//! Core of a free-look first-person camera controller.
//!
//! The library owns the logic that a frame loop drives once per rendered
//! frame: a look controller that folds accumulated pointer motion into a
//! yaw/pitch orientation (pitch hard-clamped so the view never flips), a move
//! controller that turns held keys into an exact displacement along the
//! strafe, walk and world-up axes, and a cursor-capture latch.
//!
//! Every quantity is an exact fixed-point integer: angles in milli-degrees,
//! rotation samples on the scaled rational circle, positions in raw units of
//! `1 / POS_ONE` world units. The host loop supplies plain integers (pointer
//! deltas, frame time in milliseconds, sampled cosine/sine of the yaw) and
//! applies the resulting orientation and position to its own entities.

pub mod rot;

pub mod input;

pub mod look;

pub mod movement;

pub mod cursor;
