use vstd::prelude::*;

verus! {

/// How the windowing layer holds the pointer.
#[derive(Clone, Copy, Debug, PartialEq, Eq, Structural)]
pub enum GrabMode {
    /// Pinned in place.
    Locked,
    /// Kept inside the window.
    Confined,
    /// Free to leave the window.
    Released,
}

/// Pointer settings that the windowing layer is asked to apply.
#[derive(Clone, Copy, Debug, PartialEq, Eq, Structural)]
pub struct CursorRequest {
    pub grab_mode: GrabMode,
    pub visible: bool,
}

/// What one frame of the capture gate yields: the capture mode after the
/// frame, and the pointer settings to apply, present exactly when the mode
/// changed.
#[derive(Clone, Copy, Debug, PartialEq, Eq)]
pub struct CaptureStep {
    pub captured: bool,
    pub cursor: Option<CursorRequest>,
}

/// Capture mode at startup.
pub const INITIAL_CAPTURED: bool = true;

/// Pointer settings for a capture mode: captured keeps the pointer confined
/// and hidden, free releases it and shows it.
pub open spec fn cursor_spec(captured: bool) -> CursorRequest {
    if captured {
        CursorRequest { grab_mode: GrabMode::Confined, visible: false }
    } else {
        CursorRequest { grab_mode: GrabMode::Released, visible: true }
    }
}

/// Capture mode over one frame: pressing the toggle key inverts the mode and
/// asks for the pointer settings of the new mode; otherwise nothing changes.
pub open spec fn capture_step_spec(captured: bool, toggle_pressed: bool) -> CaptureStep {
    if toggle_pressed {
        CaptureStep { captured: !captured, cursor: Some(cursor_spec(!captured)) }
    } else {
        CaptureStep { captured, cursor: None }
    }
}

pub fn cursor_for(captured: bool) -> (r: CursorRequest)
    ensures
        r == cursor_spec(captured),
{
    if captured {
        CursorRequest { grab_mode: GrabMode::Confined, visible: false }
    } else {
        CursorRequest { grab_mode: GrabMode::Released, visible: true }
    }
}

pub fn capture_step(captured: bool, toggle_pressed: bool) -> (r: CaptureStep)
    ensures
        r == capture_step_spec(captured, toggle_pressed),
{
    if toggle_pressed {
        let now = !captured;
        CaptureStep { captured: now, cursor: Some(cursor_for(now)) }
    } else {
        CaptureStep { captured, cursor: None }
    }
}

/// Two toggle presses in a row bring back the starting mode, and the second
/// one asks for the pointer settings that belong to the starting mode.
pub proof fn lemma_toggle_twice_restores(captured: bool)
    ensures
        capture_step_spec(capture_step_spec(captured, true).captured, true).captured == captured,
        capture_step_spec(capture_step_spec(captured, true).captured, true).cursor == Some(
            cursor_spec(captured),
        ),
{
}

} // verus!
