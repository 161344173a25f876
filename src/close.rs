use crate::status::captured;
use iced_native::event::Status;
use vstd::prelude::*;

verus! {

/// The part of an input event that the close icon reacts to.
#[derive(Clone, Copy, Debug, PartialEq, Eq, Structural)]
pub enum PointerInput {
    /// The left mouse button went down.
    LeftPress,
    /// A finger touched the screen.
    FingerPress,
    /// Anything else: moves, releases, other buttons, keys, window events.
    Other,
}

/// Whether the input presses on whatever lies under the pointer.
pub open spec fn is_press(input: PointerInput) -> bool {
    input is LeftPress || input is FingerPress
}

/// What the close icon does with one event.
#[derive(Clone, Copy, Debug, PartialEq, Eq)]
pub struct CloseOutcome {
    /// The icon's capture status.
    pub status: Status,
    /// Whether the close message is to be published.
    pub publish: bool,
}

/// The close icon reacts to an event when the head has a close icon in its
/// layout, a close message is configured, the event is a press, and the
/// pointer lies within the icon.
pub open spec fn closes(
    has_close_layout: bool,
    close_configured: bool,
    input: PointerInput,
    over_close: bool,
) -> bool {
    has_close_layout && close_configured && is_press(input) && over_close
}

/// Decides what the close icon does with an event: it publishes the close
/// message and captures the event exactly when `closes` holds, and ignores
/// the event otherwise.
pub fn close_status(
    has_close_layout: bool,
    close_configured: bool,
    input: PointerInput,
    over_close: bool,
) -> (r: CloseOutcome)
    ensures
        r.publish == closes(has_close_layout, close_configured, input, over_close),
        captured(r.status) == r.publish,
{
    if !has_close_layout {
        return CloseOutcome { status: Status::Ignored, publish: false };
    }
    match input {
        PointerInput::LeftPress | PointerInput::FingerPress => {
            if close_configured && over_close {
                CloseOutcome { status: Status::Captured, publish: true }
            } else {
                CloseOutcome { status: Status::Ignored, publish: false }
            }
        },
        PointerInput::Other => CloseOutcome { status: Status::Ignored, publish: false },
    }
}

/// Whether the pointer hovers the close icon: the head has one in its layout
/// and the pointer lies within it.
pub fn pointer_over_close(has_close_layout: bool, over_close: bool) -> (r: bool)
    ensures
        r == (has_close_layout && over_close),
{
    has_close_layout && over_close
}

} // verus!
