//! What the host does about each event of its event loop, and about a frame
//! that could not be acquired.

use vstd::prelude::*;
use crate::event::{Event, PhysicalSize, VirtualKeyCode, WindowEvent};
use crate::swapchain::{handles, State, StateView, SwapChainDescriptor, SwapChainError};

verus! {

/// What the host is to do next.
#[derive(Clone, Copy, Debug, PartialEq)]
pub enum Action {
    /// Nothing: wait for the next event.
    Wait,
    /// Leave the event loop.
    Exit,
    /// Make the swap chain anew with this configuration.
    Configure(SwapChainDescriptor),
    /// Acquire a frame and render to it.
    Render,
    /// Ask the window to be drawn again.
    RequestRedraw,
    /// Say that the frame was skipped for this reason, and go on.
    Report(SwapChainError),
}

/// What follows a resize to `new_size`: the swap chain is made anew, unless
/// the size covers no pixel.
pub open spec fn resize_action(state: StateView, new_size: PhysicalSize) -> Action {
    if new_size.spec_is_empty() {
        Action::Wait
    } else {
        Action::Configure(state.resized(new_size).sc_desc)
    }
}

impl StateView {
    /// The state after an event of the event loop. An event of the host's
    /// window goes to the state first; one that the state does not take is
    /// looked at for a new size. A request to redraw updates the state.
    pub open spec fn after_event(self, event: Event) -> StateView {
        match event {
            Event::WindowEvent { event, own_window } => if !own_window {
                self
            } else if handles(event) {
                self.after_input(event)
            } else {
                match event {
                    WindowEvent::Resized(size) => self.resized(size),
                    WindowEvent::ScaleFactorChanged { new_inner_size } => self.resized(
                        new_inner_size,
                    ),
                    _ => self,
                }
            },
            Event::RedrawRequested => self.updated(),
            _ => self,
        }
    }

    /// What the host is to do about an event of the event loop. It leaves
    /// when the window is to be closed or the escape key goes down, applies
    /// a new size, renders when asked to redraw, and asks for a redraw once
    /// all waiting events are handled.
    pub open spec fn action_on(self, event: Event) -> Action {
        match event {
            Event::WindowEvent { event, own_window } => if !own_window || handles(event) {
                Action::Wait
            } else {
                match event {
                    WindowEvent::CloseRequested => Action::Exit,
                    WindowEvent::KeyboardInput { input } => if input.spec_is_press_of(
                        VirtualKeyCode::Escape,
                    ) {
                        Action::Exit
                    } else {
                        Action::Wait
                    },
                    WindowEvent::Resized(size) => resize_action(self, size),
                    WindowEvent::ScaleFactorChanged { new_inner_size } => resize_action(
                        self,
                        new_inner_size,
                    ),
                    _ => Action::Wait,
                }
            },
            Event::RedrawRequested => Action::Render,
            Event::MainEventsCleared => Action::RequestRedraw,
            Event::Other => Action::Wait,
        }
    }

    /// What the host is to do when no frame could be acquired. A lost swap
    /// chain is made anew at the size it had; without memory the host
    /// leaves; a frame that came too late or is out of date is skipped.
    pub open spec fn action_on_error(self, error: SwapChainError) -> Action {
        match error {
            SwapChainError::Lost => resize_action(self, self.size()),
            SwapChainError::OutOfMemory => Action::Exit,
            SwapChainError::Timeout => Action::Report(error),
            SwapChainError::Outdated => Action::Report(error),
        }
    }
}

impl State {
    /// The action that follows a resize.
    fn apply_size(&mut self, new_size: PhysicalSize) -> (action: Action)
        ensures
            final(self)@ == old(self)@.resized(new_size),
            action == resize_action(old(self)@, new_size),
    {
        match self.resize(new_size) {
            Some(descriptor) => Action::Configure(descriptor),
            None => Action::Wait,
        }
    }

    /// Takes an event of the event loop, changes the state as the event asks
    /// and says what the host is to do next.
    pub fn on_event(&mut self, event: &Event) -> (action: Action)
        ensures
            final(self)@ == old(self)@.after_event(*event),
            action == old(self)@.action_on(*event),
    {
        match event {
            Event::WindowEvent { event, own_window } => {
                if !*own_window {
                    Action::Wait
                } else if self.input(event) {
                    Action::Wait
                } else {
                    match event {
                        WindowEvent::CloseRequested => Action::Exit,
                        WindowEvent::KeyboardInput { input } => {
                            if input.is_press_of(VirtualKeyCode::Escape) {
                                Action::Exit
                            } else {
                                Action::Wait
                            }
                        },
                        WindowEvent::Resized(size) => self.apply_size(*size),
                        WindowEvent::ScaleFactorChanged { new_inner_size } => self.apply_size(
                            *new_inner_size,
                        ),
                        _ => Action::Wait,
                    }
                }
            },
            Event::RedrawRequested => {
                self.update();
                Action::Render
            },
            Event::MainEventsCleared => Action::RequestRedraw,
            Event::Other => Action::Wait,
        }
    }

    /// Takes the reason why no frame could be acquired and says what the
    /// host is to do about it. The state stays as it is: a lost swap chain
    /// is made anew with the configuration it had.
    pub fn on_render_error(&mut self, error: SwapChainError) -> (action: Action)
        ensures
            final(self)@ == old(self)@,
            action == old(self)@.action_on_error(error),
    {
        match error {
            SwapChainError::Lost => {
                let size = self.size();
                self.apply_size(size)
            },
            SwapChainError::OutOfMemory => Action::Exit,
            SwapChainError::Timeout => Action::Report(error),
            SwapChainError::Outdated => Action::Report(error),
        }
    }
}

} // verus!

verus! {

/// Each reason why no frame could be acquired gets an action of its own.
pub proof fn lemma_errors_get_distinct_actions(
    state: StateView,
    first: SwapChainError,
    second: SwapChainError,
)
    requires
        first != second,
    ensures
        state.action_on_error(first) != state.action_on_error(second),
{
}

/// A lost swap chain is made anew at the size that the state records, the
/// state staying as it is; where that size covers no pixel, nothing is done.
pub proof fn lemma_lost_reconfigures(state: StateView)
    ensures
        state.resized(state.size()) == state,
        !state.size().spec_is_empty() ==> state.action_on_error(SwapChainError::Lost)
            == Action::Configure(state.sc_desc),
        state.size().spec_is_empty() ==> state.action_on_error(SwapChainError::Lost)
            == Action::Wait,
{
}

} // verus!
