// Tests for the cursor-capture latch: retried until it succeeds once,
// idempotent thereafter.

use freelook::cursor::CursorState;

#[test]
fn capture_is_attempted_until_it_succeeds() {
    let mut cursor = CursorState::new();
    assert!(cursor.should_attempt());
    cursor.on_grab_result(false);
    assert!(cursor.should_attempt());
    cursor.on_grab_result(false);
    assert!(cursor.should_attempt());
    cursor.on_grab_result(true);
    assert!(!cursor.should_attempt());
}

#[test]
fn capture_success_latches() {
    let mut cursor = CursorState::new();
    cursor.on_grab_result(true);
    assert!(cursor.hidden);
    // Later failures cannot un-capture the pointer.
    cursor.on_grab_result(false);
    assert!(cursor.hidden);
    assert!(!cursor.should_attempt());
}
