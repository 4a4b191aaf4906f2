use render_host::event::{
    ElementState, Event, KeyboardInput, MouseScrollDelta, PhysicalPosition, PhysicalSize,
    VirtualKeyCode, WindowEvent,
};
use render_host::event_loop::Action;
use render_host::swapchain::{State, SwapChainError};
use wgpu::TextureFormat;

const FORMAT: TextureFormat = TextureFormat::Bgra8UnormSrgb;

fn start(width: u32, height: u32) -> State {
    State::new(PhysicalSize::new(width, height), FORMAT)
}

fn own(event: WindowEvent) -> Event {
    Event::WindowEvent { event, own_window: true }
}

fn press(code: VirtualKeyCode) -> WindowEvent {
    WindowEvent::KeyboardInput {
        input: KeyboardInput { state: ElementState::Pressed, virtual_keycode: Some(code) },
    }
}

fn release(code: VirtualKeyCode) -> WindowEvent {
    WindowEvent::KeyboardInput {
        input: KeyboardInput { state: ElementState::Released, virtual_keycode: Some(code) },
    }
}

fn moved() -> WindowEvent {
    WindowEvent::CursorMoved {
        position: PhysicalPosition { x: 80.0f64.to_bits(), y: 60.0f64.to_bits() },
    }
}

#[test]
fn is_empty_sees_a_zero_dimension() {
    assert!(PhysicalSize::new(0, 0).is_empty());
    assert!(PhysicalSize::new(0, 5).is_empty());
    assert!(PhysicalSize::new(5, 0).is_empty());
    assert!(!PhysicalSize::new(1, 1).is_empty());
    assert!(!PhysicalSize::new(u32::MAX, u32::MAX).is_empty());
}

#[test]
fn is_press_of_wants_the_key_going_down() {
    let down = KeyboardInput {
        state: ElementState::Pressed,
        virtual_keycode: Some(VirtualKeyCode::Space),
    };
    assert!(down.is_press_of(VirtualKeyCode::Space));
    assert!(!down.is_press_of(VirtualKeyCode::Escape));
    let up = KeyboardInput {
        state: ElementState::Released,
        virtual_keycode: Some(VirtualKeyCode::Space),
    };
    assert!(!up.is_press_of(VirtualKeyCode::Space));
    let unknown = KeyboardInput { state: ElementState::Pressed, virtual_keycode: None };
    assert!(!unknown.is_press_of(VirtualKeyCode::Space));
}

#[test]
fn closing_the_window_ends_the_loop() {
    let mut state = start(800, 600);
    assert_eq!(state.on_event(&own(WindowEvent::CloseRequested)), Action::Exit);
    assert_eq!(state, start(800, 600));
}

#[test]
fn the_escape_key_going_down_ends_the_loop() {
    let mut state = start(800, 600);
    assert_eq!(state.on_event(&own(press(VirtualKeyCode::Escape))), Action::Exit);
    assert_eq!(state.on_event(&own(release(VirtualKeyCode::Escape))), Action::Wait);
    assert_eq!(state.on_event(&own(press(VirtualKeyCode::Other))), Action::Wait);
    assert_eq!(state, start(800, 600));
}

#[test]
fn events_that_the_state_takes_ask_nothing_of_the_host() {
    let mut state = start(800, 600);
    assert_eq!(state.on_event(&own(press(VirtualKeyCode::Space))), Action::Wait);
    assert_eq!(state.renders().current_render(), 1);
    assert_eq!(state.on_event(&own(moved())), Action::Wait);
    assert_eq!(
        state.game_local().mouse_input.mouse_pointer_position,
        Some(PhysicalPosition { x: 80.0f64.to_bits(), y: 60.0f64.to_bits() })
    );
    let delta = MouseScrollDelta::LineDelta(0, 1.0f32.to_bits());
    assert_eq!(state.on_event(&own(WindowEvent::MouseWheel { delta })), Action::Wait);
    assert_eq!(state.game_local().mouse_input.scroll, Some(delta));
}

#[test]
fn a_new_size_configures_the_swap_chain() {
    let mut state = start(800, 600);
    let action = state.on_event(&own(WindowEvent::Resized(PhysicalSize::new(640, 480))));
    assert_eq!(state.size(), PhysicalSize::new(640, 480));
    assert_eq!(action, Action::Configure(state.sc_desc()));

    let action = state.on_event(&own(WindowEvent::ScaleFactorChanged {
        new_inner_size: PhysicalSize::new(1280, 960),
    }));
    assert_eq!(state.size(), PhysicalSize::new(1280, 960));
    assert_eq!(action, Action::Configure(state.sc_desc()));
}

#[test]
fn a_new_size_without_pixels_is_dropped() {
    let mut state = start(800, 600);
    let action = state.on_event(&own(WindowEvent::Resized(PhysicalSize::new(0, 480))));
    assert_eq!(action, Action::Wait);
    let action = state.on_event(&own(WindowEvent::ScaleFactorChanged {
        new_inner_size: PhysicalSize::new(640, 0),
    }));
    assert_eq!(action, Action::Wait);
    assert_eq!(state, start(800, 600));
}

#[test]
fn events_of_other_windows_are_ignored() {
    let events = [
        WindowEvent::CloseRequested,
        press(VirtualKeyCode::Escape),
        press(VirtualKeyCode::Space),
        moved(),
        WindowEvent::Resized(PhysicalSize::new(1, 1)),
    ];
    for event in events {
        let mut state = start(800, 600);
        assert_eq!(
            state.on_event(&Event::WindowEvent { event, own_window: false }),
            Action::Wait
        );
        assert_eq!(state, start(800, 600));
    }
}

#[test]
fn a_redraw_updates_and_renders() {
    let mut state = start(800, 600);
    state.on_event(&own(moved()));
    let mut updated = start(800, 600);
    updated.input(&moved());
    updated.update();
    assert_eq!(state.on_event(&Event::RedrawRequested), Action::Render);
    assert_eq!(state, updated);
}

#[test]
fn cleared_events_ask_for_a_redraw() {
    let mut state = start(800, 600);
    assert_eq!(state.on_event(&Event::MainEventsCleared), Action::RequestRedraw);
    assert_eq!(state.on_event(&Event::Other), Action::Wait);
    assert_eq!(state.on_event(&own(WindowEvent::Other)), Action::Wait);
    assert_eq!(state, start(800, 600));
}

#[test]
fn a_lost_swap_chain_is_made_anew_at_the_recorded_size() {
    let mut state = start(800, 600);
    state.resize(PhysicalSize::new(640, 480));
    let before = state.sc_desc();

    assert_eq!(state.render(Err(SwapChainError::Lost)), Err(SwapChainError::Lost));
    let action = state.on_render_error(SwapChainError::Lost);
    assert_eq!(action, Action::Configure(before));
    assert_eq!(state.sc_desc(), before);
    assert_eq!(state.size(), PhysicalSize::new(640, 480));

    assert_eq!(state.on_event(&Event::MainEventsCleared), Action::RequestRedraw);
    assert_eq!(state.on_event(&Event::RedrawRequested), Action::Render);
    assert!(state.render(Ok(())).is_ok());
}

#[test]
fn a_lost_swap_chain_without_pixels_is_left_alone() {
    let mut state = start(0, 600);
    assert_eq!(state.on_render_error(SwapChainError::Lost), Action::Wait);
    assert_eq!(state, start(0, 600));
}

#[test]
fn without_memory_the_loop_ends() {
    let mut state = start(800, 600);
    assert_eq!(state.on_render_error(SwapChainError::OutOfMemory), Action::Exit);
    assert_eq!(state, start(800, 600));
}

#[test]
fn a_late_or_outdated_frame_is_skipped() {
    let mut state = start(800, 600);
    assert_eq!(
        state.on_render_error(SwapChainError::Timeout),
        Action::Report(SwapChainError::Timeout)
    );
    assert_eq!(
        state.on_render_error(SwapChainError::Outdated),
        Action::Report(SwapChainError::Outdated)
    );
    assert_eq!(state, start(800, 600));
}

#[test]
fn each_error_has_an_action_of_its_own() {
    let errors = [
        SwapChainError::Lost,
        SwapChainError::OutOfMemory,
        SwapChainError::Timeout,
        SwapChainError::Outdated,
    ];
    for (i, first) in errors.iter().enumerate() {
        for second in errors.iter().skip(i + 1) {
            let mut state = start(800, 600);
            assert_ne!(state.on_render_error(*first), state.on_render_error(*second));
        }
    }
}
