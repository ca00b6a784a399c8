use vstd::prelude::*;

verus! {

/// The window events the game loop reacts to; every other event is `Other`.
#[derive(PartialEq, Eq, Structural, Debug, Clone, Copy)]
pub enum InputEvent {
    /// The window's close button was used.
    CloseRequested,
    /// The Escape key went down or up.
    EscapeKey,
    /// The window moved to a display with another scale factor.
    HiDpiFactorChanged,
    /// The window was resized.
    Resized,
    /// Anything else.
    Other,
}

/// What handling a batch of window events decides.
pub struct InputOutcome {
    /// Whether the game keeps running.
    pub running: bool,
    /// Whether the renderer must rebuild its swapchain.
    pub is_resized: bool,
}

/// Whether an event asks the game to stop.
pub open spec fn stops(e: InputEvent) -> bool {
    e == InputEvent::CloseRequested || e == InputEvent::EscapeKey
}

/// Handles the events polled in one frame: the game stops when any of them is a close
/// request or the Escape key, and the swapchain is marked for rebuilding when any of them
/// is a resize (a mark already set stays set).
pub fn manage_input(events: &Vec<InputEvent>, is_resized: bool) -> (r: InputOutcome)
    ensures
        r.running == forall|i: int| 0 <= i < events@.len() ==> !stops(#[trigger] events@[i]),
        r.is_resized == (is_resized || exists|i: int|
            0 <= i < events@.len() && #[trigger] events@[i] == InputEvent::Resized),
{
    let mut running = true;
    let mut resized = is_resized;
    let mut i: usize = 0;
    while i < events.len()
        invariant
            i <= events@.len(),
            running == forall|k: int| 0 <= k < i ==> !stops(#[trigger] events@[k]),
            resized == (is_resized || exists|k: int|
                0 <= k < i && #[trigger] events@[k] == InputEvent::Resized),
        decreases events@.len() - i,
    {
        match events[i] {
            InputEvent::CloseRequested => {
                running = false;
            },
            InputEvent::EscapeKey => {
                running = false;
            },
            InputEvent::HiDpiFactorChanged => {},
            InputEvent::Resized => {
                resized = true;
            },
            InputEvent::Other => {},
        }
        proof {
            if resized && !is_resized {
                if events@[i as int] == InputEvent::Resized {
                    assert(events@[i as int] == InputEvent::Resized);
                }
            }
        }
        i = i + 1;
    }
    InputOutcome { running, is_resized: resized }
}

} // verus!
