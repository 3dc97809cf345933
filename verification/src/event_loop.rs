//! The decisions of the event loop: what an event leads to, and what
//! follows from the outcome of a frame. Whoever owns the window and the
//! GPU objects carries them out.

use crate::err::{disposition_of, Disposition, Error, SurfaceError};
use crate::event::{
    ElementState, Event, KeyboardInput, PhysicalSize, VirtualKeyCode, WindowEvent,
};
use crate::state::{State, StateView, SurfaceConfiguration};
use vstd::prelude::*;

verus! {

/// What an event of the loop asks for.
#[derive(Copy, Clone, Debug, PartialEq, Eq, Structural)]
pub enum Step {
    /// An event of the own window: first the engine and the steering of the
    /// camera are offered it, then [`window_event`] decides what follows.
    Input(WindowEvent),
    /// The own window is to be drawn: the camera uniform is brought up to
    /// date, a frame is rendered, and [`frame_result`] decides what follows.
    Frame,
    /// The window is to be asked for a redraw.
    RequestRedraw,
    /// Nothing.
    Idle,
}

/// What the loop does next.
#[derive(Copy, Clone, Debug, PartialEq, Eq, Structural)]
pub enum Action {
    /// Go on with the next event.
    Continue,
    /// Leave the loop.
    Exit,
    /// Bring the camera uniform up to date, then configure the surface as
    /// given, and go on.
    Reconfigure(SurfaceConfiguration),
    /// Take the clear colour from the position of the cursor, and go on.
    UpdateColor,
    /// Report the error of the frame, and go on.
    Report,
    /// Report the error of the frame, and leave the loop.
    ReportAndExit,
}

/// What an event of the loop asks for. Events of other windows ask for
/// nothing.
pub open spec fn step_of(event: Event) -> Step {
    match event {
        Event::WindowEvent { event, own } => if own {
            Step::Input(event)
        } else {
            Step::Idle
        },
        Event::RedrawRequested { own } => if own {
            Step::Frame
        } else {
            Step::Idle
        },
        Event::MainEventsCleared => Step::RequestRedraw,
        Event::Other => Step::Idle,
    }
}

/// The size that an event of the window brings, if it brings one.
pub open spec fn new_size_of(event: WindowEvent) -> Option<PhysicalSize> {
    match event {
        WindowEvent::Resized(size) => Some(size),
        WindowEvent::ScaleFactorChanged { new_inner_size } => Some(new_inner_size),
        _ => None,
    }
}

/// The action that follows a change of the size of the window: the surface
/// is configured again, unless the size has no area.
pub open spec fn resize_action(state: StateView, new_size: PhysicalSize) -> Action {
    if new_size.width == 0 || new_size.height == 0 {
        Action::Continue
    } else {
        Action::Reconfigure(state.resized(new_size).config)
    }
}

/// The action that follows an event of the window. An event that was used
/// up leads to nothing more. Of the others, a request to close and the
/// escape key leave the loop, a new size is taken over, and a move of the
/// cursor changes the clear colour.
pub open spec fn window_action(state: StateView, event: WindowEvent, handled: bool) -> Action {
    if handled {
        Action::Continue
    } else if event.is_exit() {
        Action::Exit
    } else if new_size_of(event) is Some {
        resize_action(state, new_size_of(event)->0)
    } else if event == WindowEvent::CursorMoved {
        Action::UpdateColor
    } else {
        Action::Continue
    }
}

/// The engine after an event of the window: it changes only by a new size
/// that nobody used up.
pub open spec fn window_state(state: StateView, event: WindowEvent, handled: bool) -> StateView {
    if !handled && !event.is_exit() && new_size_of(event) is Some {
        state.resized(new_size_of(event)->0)
    } else {
        state
    }
}

/// The action that follows a frame. A frame that was drawn leads to
/// nothing more. A lost surface is configured again with the size that the
/// window has; without memory the loop ends; every other error is reported
/// and the frame is skipped.
pub open spec fn frame_action(state: StateView, result: Result<(), Error>) -> Action {
    match result {
        Ok(_) => Action::Continue,
        Err(Error::WgpuSurfaceError(SurfaceError::Lost)) => resize_action(state, state.size),
        Err(Error::WgpuSurfaceError(SurfaceError::OutOfMemory)) => Action::ReportAndExit,
        Err(_) => Action::Report,
    }
}

/// The engine after a frame: it changes only by the size that it takes
/// over again after the surface was lost.
pub open spec fn frame_state(state: StateView, result: Result<(), Error>) -> StateView {
    match result {
        Err(Error::WgpuSurfaceError(SurfaceError::Lost)) => state.resized(state.size),
        _ => state,
    }
}

/// Says what an event of the loop asks for: see [`step_of`].
pub fn dispatch(event: &Event) -> (step: Step)
    ensures
        step == step_of(*event),
{
    match event {
        Event::WindowEvent { event, own } => if *own {
            Step::Input(*event)
        } else {
            Step::Idle
        },
        Event::RedrawRequested { own } => if *own {
            Step::Frame
        } else {
            Step::Idle
        },
        Event::MainEventsCleared => Step::RequestRedraw,
        Event::Other => Step::Idle,
    }
}

/// Decides what follows an event of the window, once the engine and the
/// steering of the camera have been offered it; `handled` says whether one
/// of them used it up. See [`window_action`] and [`window_state`].
pub fn window_event(state: &mut State, event: &WindowEvent, handled: bool) -> (action: Action)
    ensures
        final(state)@ == window_state(old(state)@, *event, handled),
        action == window_action(old(state)@, *event, handled),
{
    if !handled {
        match event {
            WindowEvent::CloseRequested
            | WindowEvent::KeyboardInput {
                input:
                    KeyboardInput {
                        state: ElementState::Pressed,
                        virtual_keycode: Some(VirtualKeyCode::Escape),
                    },
            } => Action::Exit,
            WindowEvent::Resized(physical_size) => resize(state, *physical_size),
            WindowEvent::ScaleFactorChanged { new_inner_size } => resize(state, *new_inner_size),
            WindowEvent::CursorMoved => Action::UpdateColor,
            _ => Action::Continue,
        }
    } else {
        Action::Continue
    }
}

/// Decides what follows a frame: see [`frame_action`] and [`frame_state`].
pub fn frame_result(state: &mut State, result: &Result<(), Error>) -> (action: Action)
    ensures
        final(state)@ == frame_state(old(state)@, *result),
        action == frame_action(old(state)@, *result),
{
    match result {
        Ok(_) => Action::Continue,
        Err(Error::WgpuSurfaceError(SurfaceError::Lost)) => {
            let size = state.get_size();
            resize(state, size)
        },
        Err(Error::WgpuSurfaceError(SurfaceError::OutOfMemory)) => Action::ReportAndExit,
        Err(_) => Action::Report,
    }
}

/// Hands a new size to the engine and says what follows.
fn resize(state: &mut State, new_size: PhysicalSize) -> (action: Action)
    ensures
        final(state)@ == old(state)@.resized(new_size),
        action == resize_action(old(state)@, new_size),
{
    match state.resize(new_size) {
        Some(config) => Action::Reconfigure(config),
        None => Action::Continue,
    }
}

/// Whatever the loop decides, the engine stays valid, and a surface is
/// only ever configured with an area.
pub proof fn lemma_loop_keeps_engine_valid(
    state: StateView,
    event: WindowEvent,
    handled: bool,
    result: Result<(), Error>,
)
    requires
        state.valid(),
    ensures
        window_state(state, event, handled).valid(),
        frame_state(state, result).valid(),
        window_action(state, event, handled) matches Action::Reconfigure(config) ==> config.width
            >= 1 && config.height >= 1,
        frame_action(state, result) matches Action::Reconfigure(config) ==> config.width >= 1
            && config.height >= 1,
{
}

/// After a frame whose surface texture could not be acquired, the loop does
/// what the disposition of the error says: it configures the surface again
/// where the error can be mended that way, ends where the error is fatal,
/// and otherwise reports the error and goes on with the next frame.
pub proof fn lemma_frame_action_follows_disposition(state: StateView, err: SurfaceError)
    ensures
        match disposition_of(Error::WgpuSurfaceError(err)) {
            Disposition::Reconfigure => frame_action(
                state,
                Err(Error::WgpuSurfaceError(err)),
            ) == resize_action(state, state.size),
            Disposition::Fatal => frame_action(state, Err(Error::WgpuSurfaceError(err)))
                == Action::ReportAndExit,
            Disposition::SkipFrame => frame_action(state, Err(Error::WgpuSurfaceError(err)))
                == Action::Report,
            Disposition::Ignore => false,
        },
{
}

/// A configuration that the loop asks for is the one that the engine then
/// has.
pub proof fn lemma_reconfigure_is_current(
    state: StateView,
    event: WindowEvent,
    handled: bool,
    result: Result<(), Error>,
)
    ensures
        window_action(state, event, handled) matches Action::Reconfigure(config) ==> config
            == window_state(state, event, handled).config,
        frame_action(state, result) matches Action::Reconfigure(config) ==> config == frame_state(
            state,
            result,
        ).config,
{
}

} // verus!
