use vstd::prelude::*;
use crate::capture::{capture_step, capture_step_spec, CursorRequest, INITIAL_CAPTURED};
use crate::look::{pitch_after, yaw_after, LookConfig, LookState, PointerMotion};

verus! {

/// State that lives across frames: the capture mode and the orientation.
/// Movement and jumping stay live whatever the capture mode; only the look
/// controller is gated by it.
#[derive(Clone, Copy, Debug, PartialEq, Eq, Structural)]
pub struct ControlState {
    pub captured: bool,
    pub look: LookState,
}

impl ControlState {
    pub open spec fn wf(&self) -> bool {
        self.look.wf()
    }

    /// Captured, facing forward, looking level.
    pub fn new() -> (r: ControlState)
        ensures
            r.captured == INITIAL_CAPTURED,
            r.look.yaw == 0,
            r.look.pitch == 0,
            r.wf(),
    {
        ControlState { captured: INITIAL_CAPTURED, look: LookState::new() }
    }

    /// The view part of a frame, in its fixed order: first the capture gate
    /// reads the toggle key, then the look controller folds in the frame's
    /// pointer motion if the pointer is captured. Returns the pointer
    /// settings to apply, present exactly when the capture mode changed.
    pub fn update_view(
        &mut self,
        toggle_pressed: bool,
        motions: &Vec<PointerMotion>,
        config: &LookConfig,
    ) -> (r: Option<CursorRequest>)
        requires
            old(self).wf(),
            config.wf(),
        ensures
            final(self).wf(),
            final(self).captured == capture_step_spec(old(self).captured, toggle_pressed).captured,
            r == capture_step_spec(old(self).captured, toggle_pressed).cursor,
            final(self).captured ==> final(self).look.yaw == yaw_after(
                old(self).look.yaw as int,
                motions@,
                config.sensitivity as int,
            ),
            final(self).captured ==> final(self).look.pitch == pitch_after(
                old(self).look.pitch as int,
                motions@,
                config.sensitivity as int,
            ),
            !final(self).captured ==> final(self).look == old(self).look,
    {
        let step = capture_step(self.captured, toggle_pressed);
        self.captured = step.captured;
        self.look.apply_frame(motions, step.captured, config);
        step.cursor
    }
}

} // verus!
