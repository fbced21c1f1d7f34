//! The interactive state: which window and input events end the program,
//! which ones start and stop panning, and which change of the view
//! parameters each of them asks for.
//!
//! The state never touches the parameters itself. For every event it names
//! the change, and the host, which owns the parameters and the measures of
//! the event, carries it out.

use crate::custom_pass::{Quad, MINUS_ONE, ONE};
use vstd::prelude::*;

verus! {

/// A key of the keyboard, as far as the state tells keys apart.
#[derive(Clone, Copy, Debug, PartialEq, Eq, Structural)]
pub enum Key {
    Escape,
    Up,
    Down,
    /// Every other key.
    Other,
}

/// A button of the mouse.
#[derive(Clone, Copy, Debug, PartialEq, Eq, Structural)]
pub enum MouseButton {
    Left,
    Right,
    Middle,
    Other(u8),
}

/// The way the mouse wheel was turned.
#[derive(Clone, Copy, Debug, PartialEq, Eq, Structural)]
pub enum ScrollDirection {
    ScrollUp,
    ScrollDown,
    ScrollLeft,
    ScrollRight,
}

/// What the state reads of an event of the window.
#[derive(Clone, Copy, Debug, PartialEq, Eq, Structural)]
pub enum WindowEvent {
    /// The user asked for the window to be closed.
    CloseRequested,
    /// A key went down.
    KeyDown(Key),
    /// The window has a new size.
    Resized,
    /// Every other event of the window.
    Other,
}

/// What the state reads of an event of the input system.
#[derive(Clone, Copy, Debug, PartialEq, Eq, Structural)]
pub enum InputEvent {
    /// A key was pressed, reported once for each press.
    KeyPressed(Key),
    MouseButtonPressed(MouseButton),
    MouseButtonReleased(MouseButton),
    /// The pointer moved on the screen.
    CursorMoved,
    MouseWheelMoved(ScrollDirection),
    /// Every other event of the input system.
    Other,
}

/// An event as the host hands it to the state.
#[derive(Clone, Copy, Debug, PartialEq, Eq, Structural)]
pub enum StateEvent {
    Window(WindowEvent),
    Ui,
    Input(InputEvent),
}

/// What becomes of the running program after an event.
#[derive(Clone, Copy, Debug, PartialEq, Eq, Structural)]
pub enum Trans {
    /// Go on as before.
    Continue,
    /// Stop and shut down.
    Quit,
}

/// The change of the view parameters that an event asks for.
#[derive(Clone, Copy, Debug, PartialEq, Eq, Structural)]
pub enum Update {
    /// Leave the parameters as they are.
    Keep,
    /// Take the aspect ratio from the new size of the window.
    AspectRatio,
    /// Multiply the scale by the zoom step.
    ScaleUp,
    /// Divide the scale by the zoom step.
    ScaleDown,
    /// Move the offset by the distance the pointer went.
    Pan,
    /// Multiply the iteration limit by the zoom step.
    MoreIterations,
    /// Divide the iteration limit by the zoom step.
    FewerIterations,
}

/// The state's answer to one event.
#[derive(Clone, Copy, Debug, PartialEq, Eq, Structural)]
pub struct Reaction {
    pub trans: Trans,
    pub update: Update,
}

/// The program ends when the window is to be closed or Escape goes down in
/// it, and on nothing else.
pub open spec fn trans_after(event: StateEvent) -> Trans {
    match event {
        StateEvent::Window(WindowEvent::CloseRequested) => Trans::Quit,
        StateEvent::Window(WindowEvent::KeyDown(Key::Escape)) => Trans::Quit,
        _ => Trans::Continue,
    }
}

/// The change of the view parameters asked for by `event` when it arrives
/// in a state whose panning flag is `panning`.
pub open spec fn update_after(panning: bool, event: StateEvent) -> Update {
    match event {
        StateEvent::Window(WindowEvent::Resized) => Update::AspectRatio,
        StateEvent::Input(InputEvent::MouseWheelMoved(ScrollDirection::ScrollUp)) => Update::ScaleUp,
        StateEvent::Input(InputEvent::MouseWheelMoved(ScrollDirection::ScrollDown)) => Update::ScaleDown,
        StateEvent::Input(InputEvent::CursorMoved) => if panning {
            Update::Pan
        } else {
            Update::Keep
        },
        StateEvent::Input(InputEvent::KeyPressed(Key::Up)) => Update::MoreIterations,
        StateEvent::Input(InputEvent::KeyPressed(Key::Down)) => Update::FewerIterations,
        _ => Update::Keep,
    }
}

/// The panning flag after `event`: set while the left button is held,
/// untouched by every other event.
pub open spec fn panning_after(panning: bool, event: StateEvent) -> bool {
    match event {
        StateEvent::Input(InputEvent::MouseButtonPressed(MouseButton::Left)) => true,
        StateEvent::Input(InputEvent::MouseButtonReleased(MouseButton::Left)) => false,
        _ => panning,
    }
}

/// The state of the running program.
#[derive(Clone, Copy, Debug)]
pub struct CustomShaderState {
    /// Whether the left mouse button is held, so that the pointer drags the view.
    pub panning: bool,
}

impl CustomShaderState {
    /// The quad that the host puts into the scene when the state starts. It
    /// spans the whole view.
    pub fn on_start(&mut self) -> (quad: Quad)
        ensures
            quad == Quad::full_view(),
            *final(self) == *old(self),
    {
        Quad { points: [[MINUS_ONE, MINUS_ONE], [MINUS_ONE, ONE], [ONE, MINUS_ONE], [ONE, ONE]] }
    }

    /// Takes one event: updates the panning flag and tells the host whether
    /// to go on and how to change the view parameters.
    pub fn handle_event(&mut self, event: StateEvent) -> (reaction: Reaction)
        ensures
            reaction.trans == trans_after(event),
            reaction.update == update_after(old(self).panning, event),
            final(self).panning == panning_after(old(self).panning, event),
    {
        match event {
            StateEvent::Window(window) => match window {
                WindowEvent::CloseRequested | WindowEvent::KeyDown(Key::Escape) => Reaction {
                    trans: Trans::Quit,
                    update: Update::Keep,
                },
                WindowEvent::Resized => Reaction { trans: Trans::Continue, update: Update::AspectRatio },
                _ => Reaction { trans: Trans::Continue, update: Update::Keep },
            },
            StateEvent::Input(InputEvent::MouseWheelMoved(direction)) => {
                let update = match direction {
                    ScrollDirection::ScrollUp => Update::ScaleUp,
                    ScrollDirection::ScrollDown => Update::ScaleDown,
                    _ => Update::Keep,
                };
                Reaction { trans: Trans::Continue, update }
            },
            StateEvent::Input(InputEvent::MouseButtonPressed(MouseButton::Left)) => {
                self.panning = true;
                Reaction { trans: Trans::Continue, update: Update::Keep }
            },
            StateEvent::Input(InputEvent::MouseButtonReleased(MouseButton::Left)) => {
                self.panning = false;
                Reaction { trans: Trans::Continue, update: Update::Keep }
            },
            StateEvent::Input(InputEvent::CursorMoved) => {
                let update = if self.panning {
                    Update::Pan
                } else {
                    Update::Keep
                };
                Reaction { trans: Trans::Continue, update }
            },
            StateEvent::Input(InputEvent::KeyPressed(Key::Up)) => Reaction {
                trans: Trans::Continue,
                update: Update::MoreIterations,
            },
            StateEvent::Input(InputEvent::KeyPressed(Key::Down)) => Reaction {
                trans: Trans::Continue,
                update: Update::FewerIterations,
            },
            _ => Reaction { trans: Trans::Continue, update: Update::Keep },
        }
    }
}

} // verus!
