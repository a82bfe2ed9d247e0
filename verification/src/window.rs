//! How the program answers the events of its window's event loop.

use vstd::prelude::*;
use crate::swapchain::MySwapchainManager;

verus! {

/// The events of the event loop that the program tells apart.
#[derive(Clone, Copy, Debug, PartialEq, Eq, Structural)]
pub enum LoopEvent {
    /// The loop is about to wait for new events: time to draw a frame.
    AboutToWait,
    /// The Escape key was pressed in the window.
    EscapePressed,
    /// The window was asked to close.
    CloseRequested,
    /// The window was resized.
    Resized,
    /// Any other event of the window.
    OtherWindowEvent,
    /// Any other event of the loop.
    Other,
}

/// What the event loop is to do about an event.
#[derive(Clone, Copy, Debug, PartialEq, Eq, Structural)]
pub enum LoopResponse {
    /// Draw a frame.
    Render,
    /// Leave the event loop.
    Exit,
    /// Keep polling for events without waiting.
    Poll,
    /// Nothing further.
    Nothing,
}

/// The response to each event: draw when the loop is idle, leave on Escape
/// or a close request, and keep polling on events from outside the window.
pub open spec fn loop_response(e: LoopEvent) -> LoopResponse {
    match e {
        LoopEvent::AboutToWait => LoopResponse::Render,
        LoopEvent::EscapePressed => LoopResponse::Exit,
        LoopEvent::CloseRequested => LoopResponse::Exit,
        LoopEvent::Other => LoopResponse::Poll,
        _ => LoopResponse::Nothing,
    }
}

/// Answers `event`; a resize also asks the swapchain for a new surface.
pub fn handle_event<F: Copy>(swapchain: &mut MySwapchainManager<F>, event: LoopEvent) -> (r: LoopResponse)
    ensures
        r == loop_response(event),
        final(swapchain)@.active == old(swapchain)@.active,
        final(swapchain)@.should_recreate == (old(swapchain)@.should_recreate || event
            == LoopEvent::Resized),
        final(swapchain).spec_format() == old(swapchain).spec_format(),
{
    match event {
        LoopEvent::AboutToWait => LoopResponse::Render,
        LoopEvent::EscapePressed | LoopEvent::CloseRequested => LoopResponse::Exit,
        LoopEvent::Resized => {
            swapchain.should_recreate();
            LoopResponse::Nothing
        },
        LoopEvent::OtherWindowEvent => LoopResponse::Nothing,
        LoopEvent::Other => LoopResponse::Poll,
    }
}

/// The event loop draws a frame exactly when it is about to wait, leaves
/// exactly on Escape or a close request, and keeps polling exactly on events
/// from outside the window; any other event asks nothing further of it.
pub proof fn lemma_event_responses(e: LoopEvent)
    ensures
        loop_response(e) == LoopResponse::Render <==> e == LoopEvent::AboutToWait,
        loop_response(e) == LoopResponse::Exit <==> (e == LoopEvent::EscapePressed || e
            == LoopEvent::CloseRequested),
        loop_response(e) == LoopResponse::Poll <==> e == LoopEvent::Other,
        loop_response(e) == LoopResponse::Nothing <==> (e == LoopEvent::Resized || e
            == LoopEvent::OtherWindowEvent),
{
}

} // verus!
