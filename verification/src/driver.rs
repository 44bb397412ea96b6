//! What the display loop does on each event.
//!
//! The loop owns the window and its drawing surface; this module decides,
//! from whether they exist yet and from the event that arrived, what the
//! loop is to do next.

use vstd::prelude::*;

verus! {

/// An event of the display loop, as far as the decision depends on it.
#[derive(Clone, Copy, Debug, PartialEq, Eq, Structural)]
pub enum DriverEvent {
    /// The application was started or resumed.
    Resumed,
    /// The user asked to close the window.
    CloseRequested,
    /// The window asks for its content.
    RedrawRequested,
    /// Any other event.
    Other,
}

/// What the display loop is to do.
#[derive(Clone, Copy, Debug, PartialEq, Eq, Structural)]
pub enum DriverAction {
    /// Create the window and its drawing surface.
    CreateSurface,
    /// Leave the loop.
    Exit,
    /// Produce the next frame, present it and ask for another redraw.
    RenderAndPresent,
    /// Do nothing.
    Nothing,
}

/// The action that `event` calls for, where `ready` says whether the window
/// and its surface exist. They are created once, on the first resume; until
/// then window events are ignored.
pub open spec fn action_for(ready: bool, event: DriverEvent) -> DriverAction {
    match event {
        DriverEvent::Resumed => if ready {
            DriverAction::Nothing
        } else {
            DriverAction::CreateSurface
        },
        DriverEvent::CloseRequested => if ready {
            DriverAction::Exit
        } else {
            DriverAction::Nothing
        },
        DriverEvent::RedrawRequested => if ready {
            DriverAction::RenderAndPresent
        } else {
            DriverAction::Nothing
        },
        DriverEvent::Other => DriverAction::Nothing,
    }
}

/// Decides what the display loop does on `event`.
pub fn next_action(ready: bool, event: DriverEvent) -> (action: DriverAction)
    ensures
        action == action_for(ready, event),
{
    match event {
        DriverEvent::Resumed => {
            if ready {
                DriverAction::Nothing
            } else {
                DriverAction::CreateSurface
            }
        },
        DriverEvent::CloseRequested => {
            if ready {
                DriverAction::Exit
            } else {
                DriverAction::Nothing
            }
        },
        DriverEvent::RedrawRequested => {
            if ready {
                DriverAction::RenderAndPresent
            } else {
                DriverAction::Nothing
            }
        },
        DriverEvent::Other => DriverAction::Nothing,
    }
}

} // verus!
