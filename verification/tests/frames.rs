use render_host::buffers::{vertices, Vertex};
use render_host::color::{Channel, Color, ONE, ONE_TENTH, THREE_TENTHS, TWO_TENTHS};
use render_host::event::{
    ElementState, KeyboardInput, MouseScrollDelta, PhysicalPosition, PhysicalSize, VirtualKeyCode,
    WindowEvent,
};
use render_host::pipeline::{IndexFormat, RenderPipelineDescriptor, ShaderBinary};
use render_host::renders::{BufferRelatedData, DrawCall, SpecificRender};
use render_host::swapchain::{
    GameLocal, LoadOp, MouseInputs, Operations, PresentMode, RenderCommand, State,
    SwapChainDescriptor, SwapChainError, TextureUsage,
};
use wgpu::TextureFormat;

const FORMAT: TextureFormat = TextureFormat::Bgra8UnormSrgb;

fn start(width: u32, height: u32) -> State {
    State::new(PhysicalSize::new(width, height), FORMAT)
}

fn key(code: VirtualKeyCode, state: ElementState) -> WindowEvent {
    WindowEvent::KeyboardInput { input: KeyboardInput { state, virtual_keycode: Some(code) } }
}

fn moved(x: f64, y: f64) -> WindowEvent {
    WindowEvent::CursorMoved { position: PhysicalPosition { x: x.to_bits(), y: y.to_bits() } }
}

fn value(channel: Channel) -> f64 {
    match channel {
        Channel::Constant { bits } => f64::from_bits(bits),
        Channel::Quotient { numerator, denominator } => {
            f64::from_bits(numerator) / denominator as f64
        }
    }
}

fn backed(index_count: usize) -> SpecificRender {
    let pipeline = RenderPipelineDescriptor::new(
        "backed",
        ShaderBinary::ChallengeVert,
        ShaderBinary::ChallengeFrag,
        Some(Vertex::desc()),
        FORMAT,
    );
    let geometry = BufferRelatedData::upload(vertices(), vec![0u16; index_count]).unwrap();
    SpecificRender::new(pipeline, Some(geometry)).unwrap()
}

#[test]
fn the_host_starts_with_a_fifo_swap_chain_of_the_surface_size() {
    let state = start(800, 600);
    assert_eq!(
        state.sc_desc(),
        SwapChainDescriptor {
            usage: TextureUsage {
                copy_src: false,
                copy_dst: false,
                sampled: false,
                storage: false,
                render_attachment: true,
            },
            format: FORMAT,
            width: 800,
            height: 600,
            present_mode: PresentMode::Fifo,
        }
    );
    assert_eq!(state.size(), PhysicalSize { width: 800, height: 600 });
}

#[test]
fn the_host_starts_without_input_and_with_its_colour() {
    let state = start(800, 600);
    assert_eq!(
        state.game_local(),
        GameLocal {
            mouse_input: MouseInputs { mouse_pointer_position: None, scroll: None },
            color: Color {
                r: Channel::Constant { bits: ONE_TENTH },
                g: Channel::Constant { bits: TWO_TENTHS },
                b: Channel::Constant { bits: THREE_TENTHS },
                a: Channel::Constant { bits: ONE },
            },
        }
    );
    assert_eq!(Color::start(), state.game_local().color);
    assert_eq!(value(state.game_local().color.r), 0.1);
    assert_eq!(value(state.game_local().color.g), 0.2);
    assert_eq!(value(state.game_local().color.b), 0.3);
    assert_eq!(value(state.game_local().color.a), 1.0);
}

#[test]
fn the_host_starts_with_the_challenge_triangle_and_the_pentagon() {
    let state = start(800, 600);
    let renders = state.renders();
    assert_eq!(renders.len(), 2);
    assert_eq!(renders.current_render(), 0);

    let (render_pipeline, challenge_render_pipeline) = State::create_render_pipeline(FORMAT);
    let first = renders.get(0).unwrap();
    assert_eq!(*first.render_pipeline(), challenge_render_pipeline);
    assert!(first.buffer_related().is_none());

    let second = renders.get(1).unwrap();
    assert_eq!(*second.render_pipeline(), render_pipeline);
    let geometry = second.buffer_related().unwrap();
    assert_eq!(geometry.num_indices(), 9);
    assert_eq!(geometry.num_vertices(), 5);
}

#[test]
fn resize_takes_a_size_that_covers_a_pixel() {
    let mut state = start(800, 600);
    let configure = state.resize(PhysicalSize::new(1024, 768));
    assert_eq!(state.size(), PhysicalSize { width: 1024, height: 768 });
    assert_eq!(state.sc_desc().width, 1024);
    assert_eq!(state.sc_desc().height, 768);
    assert_eq!(state.sc_desc().format, FORMAT);
    assert_eq!(state.sc_desc().present_mode, PresentMode::Fifo);
    assert_eq!(configure, Some(state.sc_desc()));
}

#[test]
fn resize_to_one_pixel() {
    let mut state = start(800, 600);
    let configure = state.resize(PhysicalSize::new(1, 1));
    assert_eq!(state.size(), PhysicalSize { width: 1, height: 1 });
    assert_eq!(configure, Some(state.sc_desc()));
}

#[test]
fn resize_ignores_a_size_that_covers_no_pixel() {
    for empty in [
        PhysicalSize::new(0, 0),
        PhysicalSize::new(0, 600),
        PhysicalSize::new(800, 0),
    ] {
        let mut state = start(640, 480);
        state.input(&moved(10.0, 20.0));
        state.update();
        let before = start_like(&state);
        assert_eq!(state.resize(empty), None);
        assert_eq!(start_like(&state), before);
    }
}

fn start_like(state: &State) -> (SwapChainDescriptor, PhysicalSize, GameLocal, usize) {
    (state.sc_desc(), state.size(), state.game_local(), state.renders().current_render())
}

#[test]
fn resize_twice_to_the_same_size_is_resize_once() {
    let mut once = start(800, 600);
    let first = once.resize(PhysicalSize::new(300, 200));
    let mut twice = start(800, 600);
    twice.resize(PhysicalSize::new(300, 200));
    let second = twice.resize(PhysicalSize::new(300, 200));
    assert_eq!(first, second);
    assert_eq!(once, twice);
}

#[test]
fn resize_leaves_input_and_cursor_alone() {
    let mut state = start(800, 600);
    state.input(&moved(10.0, 20.0));
    state.input(&key(VirtualKeyCode::Space, ElementState::Pressed));
    state.update();
    let game_local = state.game_local();
    state.resize(PhysicalSize::new(300, 200));
    assert_eq!(state.game_local(), game_local);
    assert_eq!(state.renders().current_render(), 1);
}

#[test]
fn input_records_the_pointer() {
    let mut state = start(800, 600);
    assert!(state.input(&moved(12.5, 99.0)));
    assert_eq!(
        state.game_local().mouse_input.mouse_pointer_position,
        Some(PhysicalPosition { x: 12.5f64.to_bits(), y: 99.0f64.to_bits() })
    );
    assert_eq!(state.game_local().mouse_input.scroll, None);
    assert_eq!(state.game_local().color, Color::start());
}

#[test]
fn input_records_the_scroll() {
    let mut state = start(800, 600);
    let lines = MouseScrollDelta::LineDelta(1.0f32.to_bits(), (-2.0f32).to_bits());
    assert!(state.input(&WindowEvent::MouseWheel { delta: lines }));
    assert_eq!(state.game_local().mouse_input.scroll, Some(lines));
    assert_eq!(state.game_local().mouse_input.mouse_pointer_position, None);

    let pixels = MouseScrollDelta::PixelDelta(PhysicalPosition {
        x: 3.0f64.to_bits(),
        y: 4.0f64.to_bits(),
    });
    assert!(state.input(&WindowEvent::MouseWheel { delta: pixels }));
    assert_eq!(state.game_local().mouse_input.scroll, Some(pixels));
}

#[test]
fn input_leaves_other_events_to_the_caller() {
    let events = [
        WindowEvent::CloseRequested,
        WindowEvent::Other,
        WindowEvent::Resized(PhysicalSize::new(1, 2)),
        WindowEvent::ScaleFactorChanged { new_inner_size: PhysicalSize::new(1, 2) },
        key(VirtualKeyCode::Escape, ElementState::Pressed),
        key(VirtualKeyCode::Other, ElementState::Pressed),
        key(VirtualKeyCode::Space, ElementState::Released),
        WindowEvent::KeyboardInput {
            input: KeyboardInput { state: ElementState::Pressed, virtual_keycode: None },
        },
    ];
    for event in events {
        let mut state = start(800, 600);
        assert!(!state.input(&event));
        assert_eq!(state, start(800, 600));
    }
}

#[test]
fn update_without_a_pointer_changes_nothing() {
    let mut state = start(800, 600);
    state.update();
    assert_eq!(state, start(800, 600));
}

#[test]
fn update_sets_red_and_green_from_the_pointer() {
    let mut state = start(800, 600);
    state.input(&moved(200.0, 450.0));
    state.update();
    let color = state.game_local().color;
    assert_eq!(color.r, Channel::Quotient { numerator: 200.0f64.to_bits(), denominator: 800 });
    assert_eq!(color.g, Channel::Quotient { numerator: 450.0f64.to_bits(), denominator: 600 });
    assert_eq!(color.b, Channel::Constant { bits: THREE_TENTHS });
    assert_eq!(color.a, Channel::Constant { bits: ONE });
    assert_eq!(value(color.r), 0.25);
    assert_eq!(value(color.g), 0.75);
    assert_eq!(value(color.b), 0.3);
    assert_eq!(value(color.a), 1.0);
}

#[test]
fn update_at_the_corner_and_beyond_the_window() {
    let mut state = start(800, 600);
    state.input(&moved(0.0, 0.0));
    state.update();
    assert_eq!(value(state.game_local().color.r), 0.0);
    assert_eq!(value(state.game_local().color.g), 0.0);

    state.input(&moved(1600.0, -300.0));
    state.update();
    assert_eq!(value(state.game_local().color.r), 2.0);
    assert_eq!(value(state.game_local().color.g), -0.5);
}

#[test]
fn update_twice_is_update_once() {
    let mut once = start(800, 600);
    once.input(&moved(123.0, 45.5));
    once.update();
    let mut twice = start(800, 600);
    twice.input(&moved(123.0, 45.5));
    twice.update();
    twice.update();
    assert_eq!(once.game_local().color, twice.game_local().color);
    assert_eq!(once, twice);
}

#[test]
fn update_divides_by_the_size_after_a_resize() {
    let mut state = start(800, 600);
    state.input(&moved(100.0, 100.0));
    state.resize(PhysicalSize::new(400, 200));
    state.update();
    assert_eq!(value(state.game_local().color.r), 0.25);
    assert_eq!(value(state.game_local().color.g), 0.5);
}

#[test]
fn pointed_keeps_blue_and_alpha() {
    let color = Color::start().pointed(1, 2, 3, 4);
    assert_eq!(
        color,
        Color {
            r: Channel::Quotient { numerator: 1, denominator: 3 },
            g: Channel::Quotient { numerator: 2, denominator: 4 },
            b: Channel::Constant { bits: THREE_TENTHS },
            a: Channel::Constant { bits: ONE },
        }
    );
}

#[test]
fn render_without_geometry_draws_three_vertices() {
    let state = start(800, 600);
    let frame = state.render(Ok(())).unwrap();
    assert_eq!(frame.encoder_label, "Render Encoder");
    assert_eq!(frame.pass_label, "Render pass");
    assert_eq!(
        frame.ops,
        Operations { load: LoadOp::Clear(Color::start()), store: true }
    );
    assert_eq!(
        frame.commands,
        vec![
            RenderCommand::SetPipeline { render: 0 },
            RenderCommand::Draw(DrawCall::Direct {
                first_vertex: 0,
                end_vertex: 3,
                first_instance: 0,
                end_instance: 1,
            }),
        ]
    );
    assert!(!frame
        .commands
        .iter()
        .any(|command| matches!(command, RenderCommand::SetIndexBuffer { .. })));
}

#[test]
fn render_with_nine_indices_draws_them_indexed() {
    let mut state = start(800, 600);
    state.input(&key(VirtualKeyCode::Space, ElementState::Pressed));
    let frame = state.render(Ok(())).unwrap();
    assert_eq!(
        frame.commands,
        vec![
            RenderCommand::SetPipeline { render: 1 },
            RenderCommand::SetVertexBuffer { slot: 0, render: 1 },
            RenderCommand::SetIndexBuffer { render: 1, index_format: IndexFormat::Uint16 },
            RenderCommand::Draw(DrawCall::Indexed {
                first_index: 0,
                end_index: 9,
                base_vertex: 0,
                first_instance: 0,
                end_instance: 1,
            }),
        ]
    );
}

#[test]
fn render_draws_as_many_indices_as_the_geometry_has() {
    let state =
        State::with_renders(PhysicalSize::new(4, 4), FORMAT, vec![backed(12)]).unwrap();
    let frame = state.render(Ok(())).unwrap();
    assert_eq!(
        frame.commands[3],
        RenderCommand::Draw(DrawCall::Indexed {
            first_index: 0,
            end_index: 12,
            base_vertex: 0,
            first_instance: 0,
            end_instance: 1,
        })
    );
}

#[test]
fn render_clears_to_the_updated_colour() {
    let mut state = start(800, 600);
    state.input(&moved(400.0, 300.0));
    state.update();
    let frame = state.render(Ok(())).unwrap();
    assert_eq!(
        frame.ops,
        Operations {
            load: LoadOp::Clear(Color {
                r: Channel::Quotient { numerator: 400.0f64.to_bits(), denominator: 800 },
                g: Channel::Quotient { numerator: 300.0f64.to_bits(), denominator: 600 },
                b: Channel::Constant { bits: THREE_TENTHS },
                a: Channel::Constant { bits: ONE },
            }),
            store: true,
        }
    );
}

#[test]
fn cycling_between_frames_shows_in_the_next_frame() {
    let mut state = start(800, 600);
    let first = state.render(Ok(())).unwrap();
    state.input(&key(VirtualKeyCode::Space, ElementState::Pressed));
    let second = state.render(Ok(())).unwrap();
    assert_eq!(first.commands[0], RenderCommand::SetPipeline { render: 0 });
    assert_eq!(second.commands[0], RenderCommand::SetPipeline { render: 1 });
}

#[test]
fn render_hands_back_why_no_frame_was_acquired() {
    let state = start(800, 600);
    for error in [
        SwapChainError::Lost,
        SwapChainError::OutOfMemory,
        SwapChainError::Timeout,
        SwapChainError::Outdated,
    ] {
        assert_eq!(state.render(Err(error)), Err(error));
    }
}
