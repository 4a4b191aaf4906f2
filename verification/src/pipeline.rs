//! What a render pipeline is made from: two shader binaries, the layout of
//! its vertex input, the colour target and the fixed-function state.

use vstd::prelude::*;
use crate::buffers::{VertexBufferLayout, VertexBufferLayoutView};

verus! {

/// The colour format of a surface or texture. The library never looks
/// inside: it takes the format that the surface prefers and hands it on to
/// every descriptor that needs it.
#[verifier::external_type_specification]
#[verifier::external_body]
pub struct ExTextureFormat(wgpu::TextureFormat);

/// A precompiled shader binary, by the stage it is for and the program it
/// belongs to.
#[derive(Clone, Copy, Debug, PartialEq, Eq, Structural)]
pub enum ShaderBinary {
    /// The vertex stage of the plain program.
    ShaderVert,
    /// The fragment stage of the plain program.
    ShaderFrag,
    /// The vertex stage of the challenge program.
    ChallengeVert,
    /// The fragment stage of the challenge program.
    ChallengeFrag,
}

impl ShaderBinary {
    /// The name of the file that holds the binary.
    pub open spec fn spec_file_name(self) -> Seq<char> {
        match self {
            ShaderBinary::ShaderVert => "shader.vert.spv"@,
            ShaderBinary::ShaderFrag => "shader.frag.spv"@,
            ShaderBinary::ChallengeVert => "challenge.vert.spv"@,
            ShaderBinary::ChallengeFrag => "challenge.frag.spv"@,
        }
    }

    /// The name of the file that holds the binary.
    pub fn file_name(self) -> (name: &'static str)
        ensures
            name@ == self.spec_file_name(),
    {
        match self {
            ShaderBinary::ShaderVert => "shader.vert.spv",
            ShaderBinary::ShaderFrag => "shader.frag.spv",
            ShaderBinary::ChallengeVert => "challenge.vert.spv",
            ShaderBinary::ChallengeFrag => "challenge.frag.spv",
        }
    }
}

/// How vertices are assembled into primitives.
#[derive(Clone, Copy, Debug, PartialEq, Eq, Structural)]
pub enum PrimitiveTopology {
    PointList,
    LineList,
    LineStrip,
    TriangleList,
    TriangleStrip,
}

/// Which winding marks the front of a triangle.
#[derive(Clone, Copy, Debug, PartialEq, Eq, Structural)]
pub enum FrontFace {
    /// Counter-clockwise.
    Ccw,
    /// Clockwise.
    Cw,
}

/// Which faces are dropped before rasterization.
#[derive(Clone, Copy, Debug, PartialEq, Eq, Structural)]
pub enum CullMode {
    /// No face is dropped.
    Neither,
    Front,
    Back,
}

/// How a polygon is rasterized.
#[derive(Clone, Copy, Debug, PartialEq, Eq, Structural)]
pub enum PolygonMode {
    Fill,
    Line,
    Point,
}

/// The width of an index.
#[derive(Clone, Copy, Debug, PartialEq, Eq, Structural)]
pub enum IndexFormat {
    Uint16,
    Uint32,
}

/// Primitive assembly and rasterization.
#[derive(Clone, Copy, Debug, PartialEq, Eq)]
pub struct PrimitiveState {
    pub topology: PrimitiveTopology,
    /// The index format of a strip topology; `None` for lists.
    pub strip_index_format: Option<IndexFormat>,
    pub front_face: FrontFace,
    pub cull_mode: CullMode,
    pub polygon_mode: PolygonMode,
}

/// Multisampling.
#[derive(Clone, Copy, Debug, PartialEq, Eq)]
pub struct MultisampleState {
    /// Samples per pixel.
    pub count: u32,
    /// The samples that the pipeline may write, one bit each.
    pub mask: u64,
    pub alpha_to_coverage_enabled: bool,
}

/// What a source or destination value is multiplied by when blending.
#[derive(Clone, Copy, Debug, PartialEq, Eq, Structural)]
pub enum BlendFactor {
    Zero,
    One,
    SrcColor,
    OneMinusSrcColor,
    SrcAlpha,
    OneMinusSrcAlpha,
    DstColor,
    OneMinusDstColor,
    DstAlpha,
    OneMinusDstAlpha,
    SrcAlphaSaturated,
    BlendColor,
    OneMinusBlendColor,
}

/// How the weighted source and destination are combined when blending.
#[derive(Clone, Copy, Debug, PartialEq, Eq, Structural)]
pub enum BlendOperation {
    Add,
    Subtract,
    ReverseSubtract,
    Min,
    Max,
}

/// How a fragment's value is combined with what the target holds.
#[derive(Clone, Copy, Debug, PartialEq, Eq)]
pub struct BlendState {
    pub src_factor: BlendFactor,
    pub dst_factor: BlendFactor,
    pub operation: BlendOperation,
}

impl BlendState {
    /// The blend that puts the source in place of the destination.
    pub open spec fn replace() -> BlendState {
        BlendState {
            src_factor: BlendFactor::One,
            dst_factor: BlendFactor::Zero,
            operation: BlendOperation::Add,
        }
    }
}

/// The channels of a target that a pipeline may write.
#[derive(Clone, Copy, Debug, PartialEq, Eq)]
pub struct ColorWrite {
    pub red: bool,
    pub green: bool,
    pub blue: bool,
    pub alpha: bool,
}

impl ColorWrite {
    /// Every channel.
    pub open spec fn all() -> ColorWrite {
        ColorWrite { red: true, green: true, blue: true, alpha: true }
    }
}

/// The colour target of a pipeline.
#[derive(Clone, Copy, Debug, PartialEq)]
pub struct ColorTargetState {
    pub format: wgpu::TextureFormat,
    pub alpha_blend: BlendState,
    pub color_blend: BlendState,
    pub write_mask: ColorWrite,
}

/// The resources that a pipeline's shaders are bound to. The host binds
/// none: no bind group, no push constant.
#[derive(Clone, Copy, Debug, PartialEq, Eq)]
pub struct PipelineLayoutDescriptor {
    pub label: &'static str,
}

/// The vertex stage.
#[derive(Clone, Debug, PartialEq, Eq)]
pub struct VertexState {
    pub module: ShaderBinary,
    pub entry_point: &'static str,
    /// The vertex buffer that the stage reads, if it reads one.
    pub buffers: Option<VertexBufferLayout>,
}

/// The fragment stage, which writes one colour target.
#[derive(Clone, Copy, Debug, PartialEq)]
pub struct FragmentState {
    pub module: ShaderBinary,
    pub entry_point: &'static str,
    pub target: ColorTargetState,
}

/// All that a render pipeline is created from. There is no depth or stencil
/// state: a pipeline of this host has neither.
#[derive(Clone, Debug, PartialEq)]
pub struct RenderPipelineDescriptor {
    pub label: &'static str,
    pub layout: PipelineLayoutDescriptor,
    pub vertex: VertexState,
    pub fragment: FragmentState,
    pub primitive: PrimitiveState,
    pub multisample: MultisampleState,
}

/// What a `FragmentState` holds.
pub struct FragmentStateView {
    pub module: ShaderBinary,
    pub entry_point: Seq<char>,
    pub target: ColorTargetState,
}

/// What a `RenderPipelineDescriptor` holds.
pub struct RenderPipelineDescriptorView {
    pub label: Seq<char>,
    pub layout_label: Seq<char>,
    pub vertex_module: ShaderBinary,
    pub vertex_entry_point: Seq<char>,
    pub buffers: Option<VertexBufferLayoutView>,
    pub fragment: FragmentStateView,
    pub primitive: PrimitiveState,
    pub multisample: MultisampleState,
}

impl View for FragmentState {
    type V = FragmentStateView;

    open spec fn view(&self) -> FragmentStateView {
        FragmentStateView {
            module: self.module,
            entry_point: self.entry_point@,
            target: self.target,
        }
    }
}

impl View for RenderPipelineDescriptor {
    type V = RenderPipelineDescriptorView;

    open spec fn view(&self) -> RenderPipelineDescriptorView {
        RenderPipelineDescriptorView {
            label: self.label@,
            layout_label: self.layout.label@,
            vertex_module: self.vertex.module,
            vertex_entry_point: self.vertex.entry_point@,
            buffers: match self.vertex.buffers {
                Some(layout) => Some(layout@),
                None => None,
            },
            fragment: self.fragment@,
            primitive: self.primitive,
            multisample: self.multisample,
        }
    }
}

/// The rasterization of every pipeline of the host: filled triangles from a
/// list, counter-clockwise fronts, backs culled.
pub open spec fn primitive_state() -> PrimitiveState {
    PrimitiveState {
        topology: PrimitiveTopology::TriangleList,
        strip_index_format: None,
        front_face: FrontFace::Ccw,
        cull_mode: CullMode::Back,
        polygon_mode: PolygonMode::Fill,
    }
}

/// The multisampling of every pipeline of the host: one sample per pixel,
/// all of them written.
pub open spec fn multisample_state() -> MultisampleState {
    MultisampleState { count: 1, mask: u64::MAX, alpha_to_coverage_enabled: false }
}

/// The colour target of every pipeline of the host: the surface's format,
/// written in full, the old value replaced.
pub open spec fn color_target(format: wgpu::TextureFormat) -> ColorTargetState {
    ColorTargetState {
        format,
        alpha_blend: BlendState::replace(),
        color_blend: BlendState::replace(),
        write_mask: ColorWrite::all(),
    }
}

/// The pipeline with the given label, shader binaries and vertex input that
/// draws to a surface of the given format. Both stages are entered at
/// `main`; the rest is the same for every pipeline of the host.
pub open spec fn render_pipeline(
    label: Seq<char>,
    vertex: ShaderBinary,
    fragment: ShaderBinary,
    buffers: Option<VertexBufferLayoutView>,
    format: wgpu::TextureFormat,
) -> RenderPipelineDescriptorView {
    RenderPipelineDescriptorView {
        label,
        layout_label: "render pipeline layout"@,
        vertex_module: vertex,
        vertex_entry_point: "main"@,
        buffers,
        fragment: FragmentStateView {
            module: fragment,
            entry_point: "main"@,
            target: color_target(format),
        },
        primitive: primitive_state(),
        multisample: multisample_state(),
    }
}

/// The view of a vertex input that may be absent.
pub open spec fn buffers_view(buffers: Option<VertexBufferLayout>) -> Option<
    VertexBufferLayoutView,
> {
    match buffers {
        Some(layout) => Some(layout@),
        None => None,
    }
}

impl RenderPipelineDescriptor {
    /// Describes one pipeline of the host: the two shader binaries and the
    /// vertex input are the caller's, everything else is fixed.
    pub fn new(
        label: &'static str,
        vertex: ShaderBinary,
        fragment: ShaderBinary,
        buffers: Option<VertexBufferLayout>,
        format: wgpu::TextureFormat,
    ) -> (descriptor: RenderPipelineDescriptor)
        ensures
            descriptor@ == render_pipeline(label@, vertex, fragment, buffers_view(buffers), format),
    {
        let replace = BlendState {
            src_factor: BlendFactor::One,
            dst_factor: BlendFactor::Zero,
            operation: BlendOperation::Add,
        };
        RenderPipelineDescriptor {
            label,
            layout: PipelineLayoutDescriptor { label: "render pipeline layout" },
            vertex: VertexState { module: vertex, entry_point: "main", buffers },
            fragment: FragmentState {
                module: fragment,
                entry_point: "main",
                target: ColorTargetState {
                    format,
                    alpha_blend: replace,
                    color_blend: replace,
                    write_mask: ColorWrite { red: true, green: true, blue: true, alpha: true },
                },
            },
            primitive: PrimitiveState {
                topology: PrimitiveTopology::TriangleList,
                strip_index_format: None,
                front_face: FrontFace::Ccw,
                cull_mode: CullMode::Back,
                polygon_mode: PolygonMode::Fill,
            },
            multisample: MultisampleState {
                count: 1,
                mask: u64::MAX,
                alpha_to_coverage_enabled: false,
            },
        }
    }
}

} // verus!
