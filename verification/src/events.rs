use crate::state::spec_resize;
use crate::state::spec_resize_request;
use crate::state::AppState;
use crate::state::AppStateView;
use crate::state::Resize;
use vstd::prelude::*;

verus! {

/// A notification of the windowing system.
#[derive(Clone, Copy, Debug, PartialEq, Eq, Structural)]
pub enum WindowEvent {
    /// The window now has this width and height.
    Resized(u32, u32),
    CloseRequested,
    Destroyed,
    RedrawRequested,
    /// Any other notification.
    Other,
}

/// What the event loop has to do after a notification.
#[derive(Clone, Copy, Debug, PartialEq, Eq, Structural)]
pub enum Reaction {
    /// Nothing.
    Ignored,
    /// Configure the surface and write the resolution uniform.
    Resized(Resize),
    /// Update, then render, one frame.
    Redraw,
    /// Leave the event loop.
    Exit,
}

/// The application: not yet initialized, or ready with its render state.
#[derive(Clone, Debug, PartialEq, Eq)]
pub struct App {
    pub state: Option<AppState>,
}

/// The view of the render state, where there is one.
pub open spec fn state_view(state: Option<AppState>) -> Option<AppStateView> {
    match state {
        Some(s) => Some(s@),
        None => None,
    }
}

/// The reaction to `event` of an application in the given state.
pub open spec fn spec_reaction(state: Option<AppStateView>, event: WindowEvent) -> Reaction {
    match (state, event) {
        (None, _) => Reaction::Ignored,
        (Some(s), WindowEvent::Resized(width, height)) => Reaction::Resized(
            spec_resize_request(s, width, height),
        ),
        (Some(_), WindowEvent::CloseRequested) => Reaction::Exit,
        (Some(_), WindowEvent::Destroyed) => Reaction::Exit,
        (Some(_), WindowEvent::RedrawRequested) => Reaction::Redraw,
        (Some(_), WindowEvent::Other) => Reaction::Ignored,
    }
}

/// The render state after `event`.
pub open spec fn spec_after_event(
    state: Option<AppStateView>,
    event: WindowEvent,
) -> Option<AppStateView> {
    match (state, event) {
        (Some(s), WindowEvent::Resized(width, height)) => Some(spec_resize(s, width, height)),
        _ => state,
    }
}

impl App {
    /// An application that is not yet initialized.
    pub fn new() -> (app: App)
        ensures
            app.state is None,
    {
        App { state: None }
    }

    /// Takes the outcome of the initialization that follows the creation
    /// of the window. A render state makes the application ready; without
    /// one the application stays as it was and the event loop is to be
    /// left, which the result says.
    pub fn resumed(&mut self, init: Option<AppState>) -> (exit: bool)
        ensures
            exit == (init is None),
            init is Some ==> final(self).state == init,
            init is None ==> final(self).state == old(self).state,
            old(self).state is Some ==> final(self).state is Some,
    {
        match init {
            Some(state) => {
                self.state = Some(state);
                false
            },
            None => true,
        }
    }

    /// Dispatches a notification. Before initialization everything is
    /// ignored. A resize is applied to the render state; a close request or
    /// the destruction of the window ends the event loop; a redraw request
    /// asks for one frame; the rest is ignored.
    pub fn window_event(&mut self, event: WindowEvent) -> (reaction: Reaction)
        ensures
            reaction == spec_reaction(state_view(old(self).state), event),
            state_view(final(self).state) == spec_after_event(state_view(old(self).state), event),
            !(event is Resized) ==> final(self).state == old(self).state,
            final(self).state is Some <==> old(self).state is Some,
    {
        match &mut self.state {
            None => Reaction::Ignored,
            Some(state) => match event {
                WindowEvent::Resized(width, height) => Reaction::Resized(
                    state.resize(width, height),
                ),
                WindowEvent::CloseRequested => Reaction::Exit,
                WindowEvent::Destroyed => Reaction::Exit,
                WindowEvent::RedrawRequested => Reaction::Redraw,
                WindowEvent::Other => Reaction::Ignored,
            },
        }
    }
}

} // verus!
