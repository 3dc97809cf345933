use town_links::challenge::ChallengeEnum;
use town_links::err::{Disposition, Error, SurfaceError};
use town_links::event::{
    ElementState, Event, KeyboardInput, PhysicalSize, VirtualKeyCode, WindowEvent,
};
use town_links::event_loop::{dispatch, frame_result, window_event, Action, Step};
use town_links::state::State;

fn size(width: u32, height: u32) -> PhysicalSize {
    PhysicalSize { width, height }
}

fn key(state: ElementState, code: Option<VirtualKeyCode>) -> WindowEvent {
    WindowEvent::KeyboardInput { input: KeyboardInput { state, virtual_keycode: code } }
}

fn image_error() -> Error {
    Error::from(image::ImageError::Limits(image::error::LimitError::from_kind(
        image::error::LimitErrorKind::InsufficientMemory,
    )))
}

#[test]
fn dispatch_knows_the_own_window() {
    let event = WindowEvent::CursorMoved;
    assert_eq!(dispatch(&Event::WindowEvent { event, own: true }), Step::Input(event));
    assert_eq!(dispatch(&Event::WindowEvent { event, own: false }), Step::Idle);
    assert_eq!(dispatch(&Event::RedrawRequested { own: true }), Step::Frame);
    assert_eq!(dispatch(&Event::RedrawRequested { own: false }), Step::Idle);
    assert_eq!(dispatch(&Event::MainEventsCleared), Step::RequestRedraw);
    assert_eq!(dispatch(&Event::Other), Step::Idle);
}

#[test]
fn handled_events_lead_to_nothing() {
    let mut state = State::new(size(1024, 768));
    for event in [
        WindowEvent::CloseRequested,
        WindowEvent::Resized(size(10, 20)),
        WindowEvent::CursorMoved,
        key(ElementState::Pressed, Some(VirtualKeyCode::Escape)),
    ] {
        assert_eq!(window_event(&mut state, &event, true), Action::Continue);
        assert_eq!(state.get_size(), size(1024, 768));
    }
}

#[test]
fn close_and_escape_leave_the_loop() {
    let mut state = State::new(size(1024, 768));
    assert_eq!(window_event(&mut state, &WindowEvent::CloseRequested, false), Action::Exit);
    assert_eq!(
        window_event(&mut state, &key(ElementState::Pressed, Some(VirtualKeyCode::Escape)), false),
        Action::Exit
    );
    assert_eq!(
        window_event(&mut state, &key(ElementState::Released, Some(VirtualKeyCode::Escape)), false),
        Action::Continue
    );
    assert_eq!(
        window_event(&mut state, &key(ElementState::Pressed, Some(VirtualKeyCode::Other)), false),
        Action::Continue
    );
    assert_eq!(
        window_event(&mut state, &key(ElementState::Pressed, None), false),
        Action::Continue
    );
}

#[test]
fn a_new_size_reconfigures_the_surface() {
    let mut state = State::new(size(1024, 768));
    match window_event(&mut state, &WindowEvent::Resized(size(800, 600)), false) {
        Action::Reconfigure(config) => {
            assert_eq!((config.width, config.height), (800, 600));
            assert_eq!(config, state.config());
        }
        other => panic!("expected a new configuration, got {:?}", other),
    }
    assert_eq!(state.get_size(), size(800, 600));

    let event = WindowEvent::ScaleFactorChanged { new_inner_size: size(400, 300) };
    match window_event(&mut state, &event, false) {
        Action::Reconfigure(config) => assert_eq!((config.width, config.height), (400, 300)),
        other => panic!("expected a new configuration, got {:?}", other),
    }
    assert_eq!(state.get_size(), size(400, 300));
}

#[test]
fn a_size_without_area_is_passed_over() {
    let mut state = State::new(size(1024, 768));
    assert_eq!(
        window_event(&mut state, &WindowEvent::Resized(size(0, 600)), false),
        Action::Continue
    );
    assert_eq!(
        window_event(
            &mut state,
            &WindowEvent::ScaleFactorChanged { new_inner_size: size(800, 0) },
            false
        ),
        Action::Continue
    );
    assert_eq!(state.get_size(), size(1024, 768));
    assert_eq!((state.config().width, state.config().height), (1024, 768));
}

#[test]
fn cursor_moves_change_the_clear_colour() {
    let mut state = State::new(size(1024, 768));
    assert_eq!(window_event(&mut state, &WindowEvent::CursorMoved, false), Action::UpdateColor);
    assert_eq!(window_event(&mut state, &WindowEvent::Other, false), Action::Continue);
}

#[test]
fn a_drawn_frame_leads_to_nothing() {
    let mut state = State::new(size(1024, 768));
    assert_eq!(frame_result(&mut state, &Ok(())), Action::Continue);
}

#[test]
fn a_lost_surface_is_configured_again_with_the_same_size() {
    let mut state = State::new(size(1024, 768));
    state.resize(size(640, 480));
    let lost = Err(Error::from(SurfaceError::Lost));
    match frame_result(&mut state, &lost) {
        Action::Reconfigure(config) => assert_eq!((config.width, config.height), (640, 480)),
        other => panic!("expected a new configuration, got {:?}", other),
    }
    assert_eq!(state.get_size(), size(640, 480));
}

#[test]
fn a_lost_surface_of_a_window_without_area_is_left_alone() {
    let mut state = State::new(size(0, 0));
    let lost = Err(Error::from(SurfaceError::Lost));
    assert_eq!(frame_result(&mut state, &lost), Action::Continue);
    assert_eq!((state.config().width, state.config().height), (1, 1));
}

#[test]
fn without_memory_the_loop_ends() {
    let mut state = State::new(size(1024, 768));
    let oom = Err(Error::from(SurfaceError::OutOfMemory));
    assert_eq!(frame_result(&mut state, &oom), Action::ReportAndExit);
}

#[test]
fn other_errors_skip_the_frame() {
    let mut state = State::new(size(1024, 768));
    assert_eq!(
        frame_result(&mut state, &Err(Error::from(SurfaceError::Timeout))),
        Action::Report
    );
    assert_eq!(
        frame_result(&mut state, &Err(Error::from(SurfaceError::Outdated))),
        Action::Report
    );
    assert_eq!(frame_result(&mut state, &Err(Error::RequestAdapterError)), Action::Report);
    assert_eq!(frame_result(&mut state, &Err(image_error())), Action::Report);
    assert_eq!(state.get_size(), size(1024, 768));
}

#[test]
fn the_loop_does_not_touch_the_render_mode() {
    let mut state = State::new(size(1024, 768));
    let space = key(ElementState::Pressed, Some(VirtualKeyCode::Space));
    let handled = state.input(&space);
    assert!(handled);
    assert_eq!(window_event(&mut state, &space, handled), Action::Continue);
    window_event(&mut state, &WindowEvent::Resized(size(5, 5)), false);
    frame_result(&mut state, &Err(Error::from(SurfaceError::Lost)));
    let mode: Option<ChallengeEnum> = state.challenge().into();
    assert_eq!(mode, Some(ChallengeEnum::First));
}

#[test]
fn dispositions_of_surface_errors() {
    assert_eq!(Error::from(SurfaceError::Lost).disposition(), Disposition::Reconfigure);
    assert_eq!(Error::from(SurfaceError::OutOfMemory).disposition(), Disposition::Fatal);
    assert_eq!(Error::from(SurfaceError::Timeout).disposition(), Disposition::SkipFrame);
    assert_eq!(Error::from(SurfaceError::Outdated).disposition(), Disposition::SkipFrame);
}

#[test]
fn dispositions_of_start_up_errors() {
    assert_eq!(Error::RequestAdapterError.disposition(), Disposition::Fatal);
    assert_eq!(Error::from(wgpu::RequestDeviceError).disposition(), Disposition::Fatal);
    assert_eq!(image_error().disposition(), Disposition::Fatal);
}

#[test]
fn errors_wrap_what_they_come_from() {
    assert!(matches!(
        Error::from(SurfaceError::Lost),
        Error::WgpuSurfaceError(SurfaceError::Lost)
    ));
    assert!(matches!(Error::from(wgpu::RequestDeviceError), Error::WgpuRequestDeviceError(_)));
    assert!(matches!(
        image_error(),
        Error::ImageImageError(image::ImageError::Limits(_))
    ));
}

#[test]
fn a_second_logger_is_fatal() {
    let _ = env_logger::try_init();
    let second = env_logger::try_init().expect_err("the logger is installed once");
    let err = Error::from(second);
    assert!(matches!(err, Error::LogSetLoggerError(_)));
    assert_eq!(err.disposition(), Disposition::Fatal);
}
