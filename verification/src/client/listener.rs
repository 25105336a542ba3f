//! The input bridge: what the hotkey's capture loop does with each poll.

use crate::client::web::WebEvent;
use vstd::prelude::*;

verus! {

/// Seconds that one poll of the hotkey waits for a key.
pub const CAPTURE_POLL_SECS: u64 = 1;

/// Pauses that shutdown gives the capture loop to end.
pub const CAPTURE_GRACE_PAUSES: u32 = 3;

/// Milliseconds in one such pause.
pub const CAPTURE_PAUSE_MILLIS: u64 = 1000;

/// What the hotkey did.
#[derive(Clone, Copy, Debug, PartialEq, Eq)]
pub enum KeyState {
    Pressed,
    Released,
}

/// What the capture loop does next.
#[derive(Clone, Copy, Debug, PartialEq, Eq)]
pub enum CaptureStep {
    /// Offer this event to the session and poll again. An event that the
    /// session's channel has no room for is dropped, not queued.
    Emit(WebEvent),
    /// Poll again.
    Wait,
    /// Leave the loop.
    Exit,
}

/// The step that follows a poll.
pub open spec fn capture_decision(captured: Option<KeyState>, stop_requested: bool) -> CaptureStep {
    match captured {
        Some(KeyState::Pressed) => CaptureStep::Emit(WebEvent::SendTerminate),
        Some(KeyState::Released) => CaptureStep::Wait,
        None => if stop_requested {
            CaptureStep::Exit
        } else {
            CaptureStep::Wait
        },
    }
}

/// Decides what follows a poll of the hotkey: `captured` is what the poll
/// caught, if anything, and `stop_requested` the stop flag as it stood after
/// the poll. Each press asks for one terminate; the flag is looked at only
/// when a poll ran out with nothing caught.
pub fn capture_step(captured: Option<KeyState>, stop_requested: bool) -> (step: CaptureStep)
    ensures
        step == capture_decision(captured, stop_requested),
{
    match captured {
        Some(KeyState::Pressed) => CaptureStep::Emit(WebEvent::SendTerminate),
        Some(KeyState::Released) => CaptureStep::Wait,
        None => if stop_requested {
            CaptureStep::Exit
        } else {
            CaptureStep::Wait
        },
    }
}

} // verus!
