//! What the engine reads of the events of its window.

use vstd::prelude::*;

verus! {

/// A size in physical pixels.
#[derive(Copy, Clone, Debug, PartialEq, Eq, Structural)]
pub struct PhysicalSize {
    pub width: u32,
    pub height: u32,
}

/// Whether a key went down or up.
#[derive(Copy, Clone, Debug, PartialEq, Eq, Structural)]
pub enum ElementState {
    Pressed,
    Released,
}

/// The keys that the engine tells apart.
#[derive(Copy, Clone, Debug, PartialEq, Eq, Structural)]
pub enum VirtualKeyCode {
    /// Switches to the next render mode.
    Space,
    /// Ends the loop.
    Escape,
    /// Any other key.
    Other,
}

/// One change of one key.
#[derive(Copy, Clone, Debug, PartialEq, Eq, Structural)]
pub struct KeyboardInput {
    pub state: ElementState,
    /// The key, where the platform could name it.
    pub virtual_keycode: Option<VirtualKeyCode>,
}

/// An event of the window.
#[derive(Copy, Clone, Debug, PartialEq, Eq, Structural)]
pub enum WindowEvent {
    /// The user asked for the window to close.
    CloseRequested,
    /// The window has a new size.
    Resized(PhysicalSize),
    /// The scale factor changed, and with it the size.
    ScaleFactorChanged { new_inner_size: PhysicalSize },
    /// The cursor moved within the window.
    CursorMoved,
    /// A key changed.
    KeyboardInput { input: KeyboardInput },
    /// Anything else.
    Other,
}

/// An event of the loop.
#[derive(Copy, Clone, Debug, PartialEq, Eq, Structural)]
pub enum Event {
    /// An event of a window; `own` says whether it is the window of the
    /// engine.
    WindowEvent { event: WindowEvent, own: bool },
    /// A window has to be drawn again; `own` says whether it is the window
    /// of the engine.
    RedrawRequested { own: bool },
    /// All pending events have been handled.
    MainEventsCleared,
    /// Anything else.
    Other,
}

impl WindowEvent {
    /// The event that switches render modes: the space key going down.
    pub open spec fn is_toggle(self) -> bool {
        self == (WindowEvent::KeyboardInput {
            input: KeyboardInput {
                state: ElementState::Pressed,
                virtual_keycode: Some(VirtualKeyCode::Space),
            },
        })
    }

    /// The events that end the loop: a request to close the window, and the
    /// escape key going down.
    pub open spec fn is_exit(self) -> bool {
        self == WindowEvent::CloseRequested || self == (WindowEvent::KeyboardInput {
            input: KeyboardInput {
                state: ElementState::Pressed,
                virtual_keycode: Some(VirtualKeyCode::Escape),
            },
        })
    }
}

} // verus!
