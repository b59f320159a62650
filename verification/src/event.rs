//! What the event loop does on each event of the window.

use vstd::prelude::*;
use crate::render::Render;
use crate::surface::{Size, SurfaceConfig};

verus! {

/// An event of the window, as far as the renderer cares.
#[derive(Clone, Copy, Debug, PartialEq, Eq, Structural)]
pub enum Event {
    /// The user asked to close the window.
    CloseRequested,
    /// The window's inner size changed.
    Resized(Size),
    /// The window asks for its content.
    RedrawRequested,
    /// All events of this round were handled.
    EventsCleared,
    /// Anything else.
    Other,
}

/// Whether the event loop goes on.
#[derive(Clone, Copy, Debug, PartialEq, Eq, Structural)]
pub enum ControlFlow {
    /// Go on, without waiting for the next event.
    Poll,
    /// Leave the loop and end the program.
    Exit,
}

/// What the host has to do after an event.
#[derive(Clone, Copy, Debug, PartialEq, Eq, Structural)]
pub enum Action {
    Nothing,
    /// Configure the surface anew, with this configuration.
    Reconfigure(SurfaceConfig),
    /// Acquire the surface's next image and draw a frame.
    Draw,
    /// Ask the window for a redraw.
    RequestRedraw,
}

/// The answer to one event.
#[derive(Clone, Copy, Debug, PartialEq, Eq, Structural)]
pub struct Step {
    pub flow: ControlFlow,
    pub action: Action,
}

/// The answer that an event gets where the surface has the given
/// configuration: a close request ends the loop; a resize to a drawable size
/// has the surface reconfigured, any other resize is ignored; a redraw draws;
/// the end of a round asks for the next redraw.
pub open spec fn answer(config: SurfaceConfig, event: Event) -> Step {
    match event {
        Event::CloseRequested => Step { flow: ControlFlow::Exit, action: Action::Nothing },
        Event::Resized(size) => Step {
            flow: ControlFlow::Poll,
            action: if size.is_drawable() {
                Action::Reconfigure(config.resized(size))
            } else {
                Action::Nothing
            },
        },
        Event::RedrawRequested => Step { flow: ControlFlow::Poll, action: Action::Draw },
        Event::EventsCleared => Step { flow: ControlFlow::Poll, action: Action::RequestRedraw },
        Event::Other => Step { flow: ControlFlow::Poll, action: Action::Nothing },
    }
}

/// The configuration after an event: changed by a resize alone.
pub open spec fn config_after(config: SurfaceConfig, event: Event) -> SurfaceConfig {
    match event {
        Event::Resized(size) => config.resized(size),
        _ => config,
    }
}

/// Handles one event: updates the renderer and says what the host has to do.
pub fn handle_event(render: &mut Render, event: Event) -> (step: Step)
    ensures
        step == answer(old(render).config(), event),
        final(render).config() == config_after(old(render).config(), event),
        final(render).frame() == old(render).frame(),
        old(render).wf() ==> final(render).wf(),
        step.action is Reconfigure ==> step.action->Reconfigure_0 == final(render).config(),
{
    match event {
        Event::CloseRequested => Step { flow: ControlFlow::Exit, action: Action::Nothing },
        Event::Resized(size) => {
            let reconfigure = render.resize(size);
            let action = if reconfigure {
                Action::Reconfigure(render.surface_config())
            } else {
                Action::Nothing
            };
            Step { flow: ControlFlow::Poll, action }
        },
        Event::RedrawRequested => Step { flow: ControlFlow::Poll, action: Action::Draw },
        Event::EventsCleared => Step { flow: ControlFlow::Poll, action: Action::RequestRedraw },
        Event::Other => Step { flow: ControlFlow::Poll, action: Action::Nothing },
    }
}

/// Only a close request ends the loop.
pub proof fn lemma_exit_only_on_close(config: SurfaceConfig, event: Event)
    ensures
        answer(config, event).flow == ControlFlow::Exit <==> event == Event::CloseRequested,
{
}

} // verus!
