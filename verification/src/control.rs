use vstd::prelude::*;

verus! {

/// What the event loop does once an event is handled (`ControlFlow`).
#[derive(Clone, Copy, Debug, PartialEq, Eq, Structural)]
pub enum Flow {
    /// Sleep until the next event.
    Wait,
    /// Leave the event loop.
    Exit,
}

} // verus!

verus! {

/// The window events told apart by the loops that drive a settings window
/// (the Boids and Mold simulations).
#[derive(Clone, Copy, Debug, PartialEq, Eq, Structural)]
pub enum UiEvent {
    NewEvents,
    MainEventsCleared,
    RedrawRequested,
    CloseRequested,
    Other,
}

/// What such a loop does for an event.
#[derive(Clone, Copy, Debug, PartialEq, Eq, Structural)]
pub enum UiAction {
    /// Measure the time since the last `NewEvents` and hand it to the UI.
    UpdateTime,
    /// Prepare the UI frame and request a redraw.
    PrepareFrame,
    /// Simulate, draw, and render the settings window.
    RenderFrame,
    /// Nothing but leaving the loop.
    Nothing,
    /// Let the UI platform handle the event.
    ForwardToUi,
}

/// The response to `event`: the loop waits for the next event, except
/// after a close request, when it exits.
pub fn ui_respond(event: UiEvent) -> (r: (Flow, UiAction))
    ensures
        r == (match event {
            UiEvent::NewEvents => (Flow::Wait, UiAction::UpdateTime),
            UiEvent::MainEventsCleared => (Flow::Wait, UiAction::PrepareFrame),
            UiEvent::RedrawRequested => (Flow::Wait, UiAction::RenderFrame),
            UiEvent::CloseRequested => (Flow::Exit, UiAction::Nothing),
            UiEvent::Other => (Flow::Wait, UiAction::ForwardToUi),
        }),
{
    match event {
        UiEvent::NewEvents => (Flow::Wait, UiAction::UpdateTime),
        UiEvent::MainEventsCleared => (Flow::Wait, UiAction::PrepareFrame),
        UiEvent::RedrawRequested => (Flow::Wait, UiAction::RenderFrame),
        UiEvent::CloseRequested => (Flow::Exit, UiAction::Nothing),
        UiEvent::Other => (Flow::Wait, UiAction::ForwardToUi),
    }
}

} // verus!
