//! The state of the host between events: the surface's configuration, the
//! render configurations, and what the pointer last did.

use vstd::prelude::*;
use crate::buffers::{indices, pentagon_indices, pentagon_vertices, vertices, Vertex};
use crate::color::{Channel, Color};
use crate::event::{
    KeyboardInput,
    MouseScrollDelta,
    PhysicalPosition,
    PhysicalSize,
    VirtualKeyCode,
    WindowEvent,
};
use crate::pipeline::{
    render_pipeline,
    IndexFormat,
    RenderPipelineDescriptor,
    ShaderBinary,
};
use crate::renders::{
    lemma_full_cycle,
    render_views,
    BufferRelatedData,
    BufferRelatedDataView,
    DrawCall,
    Renders,
    RendersView,
    SpecificRender,
    SpecificRenderView,
};

verus! {

/// What a texture may be used for.
#[derive(Clone, Copy, Debug, PartialEq, Eq)]
pub struct TextureUsage {
    pub copy_src: bool,
    pub copy_dst: bool,
    pub sampled: bool,
    pub storage: bool,
    pub render_attachment: bool,
}

impl TextureUsage {
    /// The usage of a texture that is only ever rendered to.
    pub open spec fn render_attachment() -> TextureUsage {
        TextureUsage {
            copy_src: false,
            copy_dst: false,
            sampled: false,
            storage: false,
            render_attachment: true,
        }
    }
}

/// How finished frames reach the screen.
#[derive(Clone, Copy, Debug, PartialEq, Eq, Structural)]
pub enum PresentMode {
    /// At once, without waiting for the display.
    Immediate,
    /// At the next refresh, the newest frame replacing one that still waits.
    Mailbox,
    /// In the order they were finished, one per refresh.
    Fifo,
}

/// The configuration of the surface's swap chain.
#[derive(Clone, Copy, Debug, PartialEq)]
pub struct SwapChainDescriptor {
    pub usage: TextureUsage,
    pub format: wgpu::TextureFormat,
    pub width: u32,
    pub height: u32,
    pub present_mode: PresentMode,
}

impl SwapChainDescriptor {
    /// The swap chain that the host starts with: frames of the given size
    /// and format, rendered to and shown one per refresh.
    pub open spec fn initial(size: PhysicalSize, format: wgpu::TextureFormat) -> SwapChainDescriptor {
        SwapChainDescriptor {
            usage: TextureUsage::render_attachment(),
            format,
            width: size.width,
            height: size.height,
            present_mode: PresentMode::Fifo,
        }
    }

    /// A surface can be configured with this descriptor: it covers at least
    /// one pixel.
    pub open spec fn is_configurable(self) -> bool {
        self.width > 0 && self.height > 0
    }
}

/// Why no frame could be acquired.
#[derive(Clone, Copy, Debug, PartialEq, Eq, Structural)]
pub enum SwapChainError {
    /// No frame came in time.
    Timeout,
    /// The surface changed under the swap chain.
    Outdated,
    /// The swap chain is gone and has to be made again.
    Lost,
    /// No memory is left for a frame.
    OutOfMemory,
}

/// What the pointer last did.
#[derive(Clone, Copy, Debug, PartialEq, Eq)]
pub struct MouseInputs {
    /// Where the pointer last was; nothing until it first moves.
    pub mouse_pointer_position: Option<PhysicalPosition>,
    /// How far the wheel last scrolled; nothing until it first does.
    pub scroll: Option<MouseScrollDelta>,
}

/// What the user's input has come to: the pointer's record, and the
/// background colour that follows from it.
#[derive(Clone, Copy, Debug, PartialEq, Eq)]
pub struct GameLocal {
    pub mouse_input: MouseInputs,
    pub color: Color,
}

impl GameLocal {
    /// Before any input: no pointer position, no scroll, the starting colour.
    pub open spec fn initial() -> GameLocal {
        GameLocal {
            mouse_input: MouseInputs { mouse_pointer_position: None, scroll: None },
            color: Color::initial(),
        }
    }
}

/// What happens to a colour target when a render pass begins.
#[derive(Clone, Copy, Debug, PartialEq, Eq)]
pub enum LoadOp {
    /// It is filled with the colour.
    Clear(Color),
    /// It keeps what it holds.
    Load,
}

/// What happens to a colour target when a render pass begins and ends.
#[derive(Clone, Copy, Debug, PartialEq, Eq)]
pub struct Operations {
    pub load: LoadOp,
    /// Whether what was drawn is kept.
    pub store: bool,
}

/// One command of a render pass. `render` is the place of a configuration in
/// the set: the command uses that configuration's pipeline or buffer.
#[derive(Clone, Copy, Debug, PartialEq, Eq)]
pub enum RenderCommand {
    SetPipeline { render: usize },
    /// Binds the whole vertex buffer to `slot`.
    SetVertexBuffer { slot: u32, render: usize },
    /// Binds the whole index buffer.
    SetIndexBuffer { render: usize, index_format: IndexFormat },
    Draw(DrawCall),
}

impl RenderCommand {
    /// The command names a configuration of the set, and one with geometry
    /// where it binds a buffer.
    pub open spec fn fits(self, renders: Seq<SpecificRenderView>) -> bool {
        match self {
            RenderCommand::SetPipeline { render } => render < renders.len(),
            RenderCommand::SetVertexBuffer { render, .. } => render < renders.len()
                && renders[render as int].buffer_related is Some,
            RenderCommand::SetIndexBuffer { render, .. } => render < renders.len()
                && renders[render as int].buffer_related is Some,
            RenderCommand::Draw(_) => true,
        }
    }
}

/// The commands of one frame: one render pass on the acquired frame, which
/// has no depth or stencil attachment and resolves to no other target.
#[derive(Clone, Debug, PartialEq, Eq)]
pub struct Frame {
    /// The label of the command encoder.
    pub encoder_label: &'static str,
    /// The label of the render pass.
    pub pass_label: &'static str,
    /// What happens to the acquired frame.
    pub ops: Operations,
    pub commands: Vec<RenderCommand>,
}

/// What a `Frame` holds.
pub struct FrameView {
    pub encoder_label: Seq<char>,
    pub pass_label: Seq<char>,
    pub ops: Operations,
    pub commands: Seq<RenderCommand>,
}

impl View for Frame {
    type V = FrameView;

    open spec fn view(&self) -> FrameView {
        FrameView {
            encoder_label: self.encoder_label@,
            pass_label: self.pass_label@,
            ops: self.ops,
            commands: self.commands@,
        }
    }
}

/// The state of the host. The size of the surface is kept once, in the
/// configuration of its swap chain.
#[derive(Debug, PartialEq)]
pub struct State {
    sc_desc: SwapChainDescriptor,
    render: Renders,
    game_local: GameLocal,
}

/// What a `State` holds.
pub struct StateView {
    pub sc_desc: SwapChainDescriptor,
    pub render: RendersView,
    pub game_local: GameLocal,
}

/// Whether the host takes the event for its own: the pointer moving, the
/// wheel scrolling, and the space key going down. A key acts when it goes
/// down and never when it comes up.
pub open spec fn handles(event: WindowEvent) -> bool {
    match event {
        WindowEvent::MouseWheel { .. } => true,
        WindowEvent::CursorMoved { .. } => true,
        WindowEvent::KeyboardInput { input } => input.spec_is_press_of(VirtualKeyCode::Space),
        _ => false,
    }
}

impl StateView {
    /// The cursor marks a configuration.
    pub open spec fn wf(self) -> bool {
        self.render.wf()
    }

    /// The size of the surface.
    pub open spec fn size(self) -> PhysicalSize {
        PhysicalSize { width: self.sc_desc.width, height: self.sc_desc.height }
    }

    /// The two configurations that the host starts with: the challenge
    /// program, which draws its own triangle, and the plain program, which
    /// draws the pentagon.
    pub open spec fn initial_renders(format: wgpu::TextureFormat) -> Seq<SpecificRenderView> {
        seq![
            SpecificRenderView {
                render_pipeline: render_pipeline(
                    "render pipeline"@,
                    ShaderBinary::ChallengeVert,
                    ShaderBinary::ChallengeFrag,
                    None,
                    format,
                ),
                buffer_related: None,
            },
            SpecificRenderView {
                render_pipeline: render_pipeline(
                    "render pipeline"@,
                    ShaderBinary::ShaderVert,
                    ShaderBinary::ShaderFrag,
                    Some(Vertex::layout()),
                    format,
                ),
                buffer_related: Some(
                    BufferRelatedDataView {
                        vertices: pentagon_vertices(),
                        indices: pentagon_indices(),
                        num_indices: 9,
                    },
                ),
            },
        ]
    }

    /// The state that a host with the given configurations starts with on a
    /// surface of the given size and format: the first configuration is
    /// active, and there has been no input.
    pub open spec fn starting(
        size: PhysicalSize,
        format: wgpu::TextureFormat,
        renders: Seq<SpecificRenderView>,
    ) -> StateView {
        StateView {
            sc_desc: SwapChainDescriptor::initial(size, format),
            render: RendersView { renders, current_render: 0 },
            game_local: GameLocal::initial(),
        }
    }

    /// The state that the host starts with on a surface of the given size
    /// and format.
    pub open spec fn initial(size: PhysicalSize, format: wgpu::TextureFormat) -> StateView {
        Self::starting(size, format, Self::initial_renders(format))
    }

    /// The state after a resize to `new_size`. A size that covers no pixel
    /// changes nothing; any other becomes the size of the surface.
    pub open spec fn resized(self, new_size: PhysicalSize) -> StateView {
        if new_size.spec_is_empty() {
            self
        } else {
            StateView {
                sc_desc: SwapChainDescriptor {
                    width: new_size.width,
                    height: new_size.height,
                    ..self.sc_desc
                },
                ..self
            }
        }
    }

    /// The state after an event of the window: a scroll and a pointer
    /// position are recorded, the space key going down moves the cursor to
    /// the next configuration, and nothing else changes anything.
    pub open spec fn after_input(self, event: WindowEvent) -> StateView {
        match event {
            WindowEvent::MouseWheel { delta } => StateView {
                game_local: GameLocal {
                    mouse_input: MouseInputs {
                        scroll: Some(delta),
                        ..self.game_local.mouse_input
                    },
                    ..self.game_local
                },
                ..self
            },
            WindowEvent::CursorMoved { position } => StateView {
                game_local: GameLocal {
                    mouse_input: MouseInputs {
                        mouse_pointer_position: Some(position),
                        ..self.game_local.mouse_input
                    },
                    ..self.game_local
                },
                ..self
            },
            WindowEvent::KeyboardInput { input } => if input.spec_is_press_of(
                VirtualKeyCode::Space,
            ) {
                StateView { render: self.render.next(), ..self }
            } else {
                self
            },
            _ => self,
        }
    }

    /// The state after an update. Once the pointer has moved, the red
    /// channel of the background is the pointer's x over the width of the
    /// surface, and the green channel its y over the height. Until then
    /// nothing changes.
    pub open spec fn updated(self) -> StateView {
        match self.game_local.mouse_input.mouse_pointer_position {
            Some(position) => StateView {
                game_local: GameLocal {
                    color: self.game_local.color.spec_pointed(
                        position.x,
                        position.y,
                        self.size().width,
                        self.size().height,
                    ),
                    ..self.game_local
                },
                ..self
            },
            None => self,
        }
    }

    /// The state after the same key event has come `times` times.
    pub open spec fn after_presses(self, input: KeyboardInput, times: nat) -> StateView
        decreases times,
    {
        if times == 0 {
            self
        } else {
            self.after_presses(input, (times - 1) as nat).after_input(
                WindowEvent::KeyboardInput { input },
            )
        }
    }

    /// The commands that draw the active configuration: its pipeline is
    /// set; if it has geometry, its vertex buffer is bound to slot 0 and its
    /// index buffer as 16-bit indices; then comes its one draw call.
    pub open spec fn commands(self) -> Seq<RenderCommand> {
        let render = self.render.current_render as usize;
        let call = RenderCommand::Draw(self.render.active().draw_call());
        match self.render.active().buffer_related {
            Some(_) => seq![
                RenderCommand::SetPipeline { render },
                RenderCommand::SetVertexBuffer { slot: 0, render },
                RenderCommand::SetIndexBuffer { render, index_format: IndexFormat::Uint16 },
                call,
            ],
            None => seq![RenderCommand::SetPipeline { render }, call],
        }
    }

    /// The frame that the state draws: one render pass that clears the
    /// target to the background colour, draws the active configuration and
    /// keeps the result.
    pub open spec fn frame(self) -> FrameView {
        FrameView {
            encoder_label: "Render Encoder"@,
            pass_label: "Render pass"@,
            ops: Operations { load: LoadOp::Clear(self.game_local.color), store: true },
            commands: self.commands(),
        }
    }
}

impl View for State {
    type V = StateView;

    closed spec fn view(&self) -> StateView {
        StateView {
            sc_desc: self.sc_desc,
            render: self.render@,
            game_local: self.game_local,
        }
    }
}

impl State {
    /// Describes the two pipelines that the host starts with, for a surface
    /// of the given format: first the plain program, which reads vertex
    /// records, then the challenge program, which reads no vertex buffer.
    pub fn create_render_pipeline(format: wgpu::TextureFormat) -> (pipelines: (
        RenderPipelineDescriptor,
        RenderPipelineDescriptor,
    ))
        ensures
            pipelines.0@ == render_pipeline(
                "render pipeline"@,
                ShaderBinary::ShaderVert,
                ShaderBinary::ShaderFrag,
                Some(Vertex::layout()),
                format,
            ),
            pipelines.1@ == render_pipeline(
                "render pipeline"@,
                ShaderBinary::ChallengeVert,
                ShaderBinary::ChallengeFrag,
                None,
                format,
            ),
    {
        let render_pipeline = RenderPipelineDescriptor::new(
            "render pipeline",
            ShaderBinary::ShaderVert,
            ShaderBinary::ShaderFrag,
            Some(Vertex::desc()),
            format,
        );
        let challenge_render_pipeline = RenderPipelineDescriptor::new(
            "render pipeline",
            ShaderBinary::ChallengeVert,
            ShaderBinary::ChallengeFrag,
            None,
            format,
        );
        (render_pipeline, challenge_render_pipeline)
    }

    /// The state that a host with the given configurations starts with, or
    /// nothing where it is given no configuration.
    pub fn with_renders(
        size: PhysicalSize,
        format: wgpu::TextureFormat,
        renders: Vec<SpecificRender>,
    ) -> (state: Option<State>)
        ensures
            renders@.len() == 0 ==> state is None,
            renders@.len() > 0 ==> state is Some && state.unwrap()@ == StateView::starting(
                size,
                format,
                render_views(renders@),
            ) && state.unwrap()@.wf(),
    {
        let sc_desc = SwapChainDescriptor {
            usage: TextureUsage {
                copy_src: false,
                copy_dst: false,
                sampled: false,
                storage: false,
                render_attachment: true,
            },
            format,
            width: size.width,
            height: size.height,
            present_mode: PresentMode::Fifo,
        };
        match Renders::new(renders) {
            None => None,
            Some(render) => Some(
                State {
                    sc_desc,
                    render,
                    game_local: GameLocal {
                        mouse_input: MouseInputs { mouse_pointer_position: None, scroll: None },
                        color: Color::start(),
                    },
                },
            ),
        }
    }

    /// The state that the host starts with, on a surface of the given size
    /// whose preferred format is `format`.
    pub fn new(size: PhysicalSize, format: wgpu::TextureFormat) -> (state: State)
        ensures
            state@ == StateView::initial(size, format),
            state@.wf(),
    {
        let (render_pipeline, challenge_render_pipeline) = State::create_render_pipeline(format);
        let pentagon = BufferRelatedData::upload(vertices(), indices()).unwrap();
        let challenge = SpecificRender::new(challenge_render_pipeline, None).unwrap();
        let plain = SpecificRender::new(render_pipeline, Some(pentagon)).unwrap();
        let mut renders: Vec<SpecificRender> = Vec::new();
        renders.push(challenge);
        renders.push(plain);
        assert(render_views(renders@) =~= StateView::initial_renders(format));
        State::with_renders(size, format, renders).unwrap()
    }

    /// The size of the surface.
    pub fn size(&self) -> (size: PhysicalSize)
        ensures
            size == self@.size(),
    {
        PhysicalSize { width: self.sc_desc.width, height: self.sc_desc.height }
    }

    /// The configuration of the swap chain.
    pub fn sc_desc(&self) -> (descriptor: SwapChainDescriptor)
        ensures
            descriptor == self@.sc_desc,
    {
        self.sc_desc
    }

    /// The render configurations and their cursor.
    pub fn renders(&self) -> (render: &Renders)
        ensures
            render@ == self@.render,
            self@.wf(),
    {
        let _ = self.render.current_render();
        &self.render
    }

    /// The pointer's record and the background colour.
    pub fn game_local(&self) -> (game_local: GameLocal)
        ensures
            game_local == self@.game_local,
    {
        self.game_local
    }

    /// Takes a new size for the surface. A size that covers no pixel is
    /// ignored. Any other is recorded, and the swap chain's new
    /// configuration is returned for the host to apply.
    pub fn resize(&mut self, new_size: PhysicalSize) -> (configure: Option<SwapChainDescriptor>)
        ensures
            final(self)@ == old(self)@.resized(new_size),
            new_size.spec_is_empty() ==> configure is None,
            !new_size.spec_is_empty() ==> configure == Some(final(self)@.sc_desc)
                && final(self)@.sc_desc.is_configurable() && final(self)@.size() == new_size,
    {
        if new_size.is_empty() {
            None
        } else {
            self.sc_desc.width = new_size.width;
            self.sc_desc.height = new_size.height;
            Some(self.sc_desc)
        }
    }

    /// Takes an event of the window and says whether the host took it for
    /// its own. A scroll and a pointer position are recorded; the space key
    /// going down makes the next configuration the active one, for the next
    /// frame on. Every other event is left to the caller.
    pub fn input(&mut self, event: &WindowEvent) -> (handled: bool)
        ensures
            final(self)@ == old(self)@.after_input(*event),
            handled == handles(*event),
    {
        match event {
            WindowEvent::MouseWheel { delta } => {
                self.game_local.mouse_input.scroll = Some(*delta);
                true
            },
            WindowEvent::CursorMoved { position } => {
                self.game_local.mouse_input.mouse_pointer_position = Some(*position);
                true
            },
            WindowEvent::KeyboardInput { input } => {
                if input.is_press_of(VirtualKeyCode::Space) {
                    self.render.next();
                    true
                } else {
                    false
                }
            },
            _ => false,
        }
    }

    /// Brings the background colour up to date with the pointer.
    pub fn update(&mut self)
        ensures
            final(self)@ == old(self)@.updated(),
    {
        match self.game_local.mouse_input.mouse_pointer_position {
            Some(position) => {
                self.game_local.color = self.game_local.color.pointed(
                    position.x,
                    position.y,
                    self.sc_desc.width,
                    self.sc_desc.height,
                );
            },
            None => {},
        }
    }

    /// Records the commands of one frame, given how acquiring the frame
    /// went. Where no frame was acquired nothing is recorded, and the reason
    /// is handed back as it came.
    pub fn render(&self, acquired: Result<(), SwapChainError>) -> (recorded: Result<
        Frame,
        SwapChainError,
    >)
        ensures
            self@.wf(),
            match acquired {
                Ok(_) => recorded is Ok && recorded.unwrap()@ == self@.frame(),
                Err(error) => recorded == Err::<Frame, SwapChainError>(error),
            },
    {
        let place = self.render.current_render();
        match acquired {
            Err(error) => Err(error),
            Ok(_) => {
                let render = self.render.active();
                let mut commands: Vec<RenderCommand> = Vec::new();
                commands.push(RenderCommand::SetPipeline { render: place });
                match render.buffer_related() {
                    Some(_) => {
                        commands.push(RenderCommand::SetVertexBuffer { slot: 0, render: place });
                        commands.push(
                            RenderCommand::SetIndexBuffer {
                                render: place,
                                index_format: IndexFormat::Uint16,
                            },
                        );
                    },
                    None => {},
                }
                commands.push(RenderCommand::Draw(render.draw_call()));
                assert(commands@ =~= self@.commands());
                Ok(
                    Frame {
                        encoder_label: "Render Encoder",
                        pass_label: "Render pass",
                        ops: Operations {
                            load: LoadOp::Clear(self.game_local.color),
                            store: true,
                        },
                        commands,
                    },
                )
            },
        }
    }

} // impl State

} // verus!

verus! {

/// A resize to a size that covers no pixel changes nothing.
pub proof fn lemma_empty_resize_changes_nothing(state: StateView, new_size: PhysicalSize)
    requires
        new_size.width == 0 || new_size.height == 0,
    ensures
        state.resized(new_size) == state,
{
}

/// A resize to a size that covers a pixel makes that size the size of the
/// surface, with a swap chain that can be configured, and changes nothing
/// else.
pub proof fn lemma_resize_takes_size(state: StateView, new_size: PhysicalSize)
    requires
        new_size.width > 0,
        new_size.height > 0,
    ensures
        state.resized(new_size).size() == new_size,
        state.resized(new_size).sc_desc.is_configurable(),
        state.resized(new_size).sc_desc.format == state.sc_desc.format,
        state.resized(new_size).sc_desc.usage == state.sc_desc.usage,
        state.resized(new_size).sc_desc.present_mode == state.sc_desc.present_mode,
        state.resized(new_size).render == state.render,
        state.resized(new_size).game_local == state.game_local,
{
}

/// A second resize to the same size changes nothing more.
pub proof fn lemma_resize_is_idempotent(state: StateView, new_size: PhysicalSize)
    ensures
        state.resized(new_size).resized(new_size) == state.resized(new_size),
{
}

/// Once the pointer has moved, an update makes the red channel the
/// pointer's x over the surface's width and the green channel its y over
/// the height, with nothing done to either, and changes nothing else.
pub proof fn lemma_update_follows_pointer(state: StateView, position: PhysicalPosition)
    requires
        state.game_local.mouse_input.mouse_pointer_position == Some(position),
    ensures
        state.updated().game_local.color.r == (Channel::Quotient {
            numerator: position.x,
            denominator: state.size().width,
        }),
        state.updated().game_local.color.g == (Channel::Quotient {
            numerator: position.y,
            denominator: state.size().height,
        }),
        state.updated().game_local.color.b == state.game_local.color.b,
        state.updated().game_local.color.a == state.game_local.color.a,
        state.updated().game_local.mouse_input == state.game_local.mouse_input,
        state.updated().render == state.render,
        state.updated().sc_desc == state.sc_desc,
{
}

/// Until the pointer has moved, an update changes nothing.
pub proof fn lemma_update_without_pointer(state: StateView)
    requires
        state.game_local.mouse_input.mouse_pointer_position is None,
    ensures
        state.updated() == state,
{
}

/// A second update with no event in between changes nothing more.
pub proof fn lemma_update_is_idempotent(state: StateView)
    ensures
        state.updated().updated() == state.updated(),
{
}

/// The space key going down as often as there are configurations brings
/// the state back to what it was.
pub proof fn lemma_cycle_returns(state: StateView, input: KeyboardInput, presses: nat)
    requires
        state.wf(),
        input.spec_is_press_of(VirtualKeyCode::Space),
    ensures
        state.after_presses(input, presses) == (StateView {
            render: state.render.advance(presses),
            ..state
        }),
        presses == state.render.renders.len() ==> state.after_presses(input, presses) == state,
    decreases presses,
{
    if presses > 0 {
        lemma_cycle_returns(state, input, (presses - 1) as nat);
    }
    if presses == state.render.renders.len() {
        lemma_full_cycle(state.render);
    }
}

/// An event that the host does not take for its own changes nothing.
pub proof fn lemma_unhandled_input_changes_nothing(state: StateView, event: WindowEvent)
    requires
        !handles(event),
    ensures
        state.after_input(event) == state,
{
}

/// An event of the window leaves the surface's configuration alone, and
/// moves the cursor only to a place of the set.
pub proof fn lemma_input_keeps_surface(state: StateView, event: WindowEvent)
    requires
        state.wf(),
    ensures
        state.after_input(event).sc_desc == state.sc_desc,
        state.after_input(event).render.renders == state.render.renders,
        state.after_input(event).wf(),
{
}

/// A frame draws with the configuration that is active when it is
/// recorded: its commands name the cursor's place, and end in that
/// configuration's draw call. Every command names a configuration of the
/// set, and binds only buffers that there are.
pub proof fn lemma_frame_draws_active(state: StateView)
    requires
        state.wf(),
    ensures
        forall|i: int|
            0 <= i < state.commands().len() ==> (#[trigger] state.commands()[i]).fits(
                state.render.renders,
            ),
        state.commands().len() >= 2,
        state.commands()[0] == (RenderCommand::SetPipeline {
            render: state.render.current_render as usize,
        }),
        state.commands().last() == RenderCommand::Draw(state.render.active().draw_call()),
        state.render.active().buffer_related is None ==> state.commands().len() == 2,
        state.frame().ops == (Operations {
            load: LoadOp::Clear(state.game_local.color),
            store: true,
        }),
{
}

} // verus!
