//! Cursor capture: grab and hide the pointer once, retrying until it works.
//!
//! The host loop asks [`CursorState::should_attempt`] each frame, performs
//! the window call only when told to, and reports the outcome back through
//! [`CursorState::on_grab_result`]. A failure is non-fatal and simply leaves
//! the state asking again next frame; a success latches, and from then on no
//! further attempt is made.

use vstd::prelude::*;

verus! {

/// Whether the pointer has been captured (grabbed and hidden) yet.
pub struct CursorState {
    pub hidden: bool,
}

impl CursorState {
    /// Before the first frame the pointer is not captured.
    pub fn new() -> (r: CursorState)
        ensures
            !r.hidden,
    {
        CursorState { hidden: false }
    }

    /// The capture should be attempted this frame exactly when it has not
    /// succeeded yet.
    pub fn should_attempt(&self) -> (r: bool)
        ensures
            r == !self.hidden,
    {
        !self.hidden
    }

    /// Record the host's answer for this frame's attempt: success latches
    /// for good, failure leaves the state retrying.
    pub fn on_grab_result(&mut self, grabbed: bool)
        ensures
            final(self).hidden == (old(self).hidden || grabbed),
    {
        if grabbed {
            self.hidden = true;
        }
    }
}

} // verus!
