//! The set of three render configurations: the plain program with its own
//! triangle, and the challenge program over two pieces of geometry.

use vstd::prelude::*;
use crate::buffers::Vertex;
use crate::pipeline::{render_pipeline, RenderPipelineDescriptor, ShaderBinary};
use crate::renders::{
    render_views,
    BufferRelatedData,
    BufferRelatedDataView,
    SpecificRender,
    SpecificRenderView,
};
use crate::swapchain::State;

verus! {

/// The configuration of the plain program, which reads no vertex buffer.
pub open spec fn simple_render(format: wgpu::TextureFormat) -> SpecificRenderView {
    SpecificRenderView {
        render_pipeline: render_pipeline(
            "render pipeline"@,
            ShaderBinary::ShaderVert,
            ShaderBinary::ShaderFrag,
            None,
            format,
        ),
        buffer_related: None,
    }
}

/// A configuration of the challenge program, which reads vertex records,
/// over the given geometry.
pub open spec fn challenge_render(
    label: Seq<char>,
    format: wgpu::TextureFormat,
    geometry: BufferRelatedDataView,
) -> SpecificRenderView {
    SpecificRenderView {
        render_pipeline: render_pipeline(
            label,
            ShaderBinary::ChallengeVert,
            ShaderBinary::ChallengeFrag,
            Some(Vertex::layout()),
            format,
        ),
        buffer_related: Some(geometry),
    }
}

/// The three configurations, in order.
pub open spec fn specific_renders(
    format: wgpu::TextureFormat,
    pentagon: BufferRelatedDataView,
    hexagon: BufferRelatedDataView,
) -> Seq<SpecificRenderView> {
    seq![
        simple_render(format),
        challenge_render("challenge render pipeline"@, format, pentagon),
        challenge_render("challenge 2 hexagon ender pipeline"@, format, hexagon),
    ]
}

impl State {
    /// Describes three render configurations for a surface of the given
    /// format: the plain program, then the challenge program over the
    /// pentagon, then the challenge program over the hexagon.
    pub fn create_specific_render_pipelines(
        format: wgpu::TextureFormat,
        pentagon: BufferRelatedData,
        hexagon: BufferRelatedData,
    ) -> (renders: Vec<SpecificRender>)
        ensures
            render_views(renders@) == specific_renders(format, pentagon@, hexagon@),
    {
        let simple_pipeline = RenderPipelineDescriptor::new(
            "render pipeline",
            ShaderBinary::ShaderVert,
            ShaderBinary::ShaderFrag,
            None,
            format,
        );
        let simple_specific_render = SpecificRender::new(simple_pipeline, None).unwrap();
        let challenge_pipeline = RenderPipelineDescriptor::new(
            "challenge render pipeline",
            ShaderBinary::ChallengeVert,
            ShaderBinary::ChallengeFrag,
            Some(Vertex::desc()),
            format,
        );
        let challenge_specific_render = SpecificRender::new(
            challenge_pipeline,
            Some(pentagon),
        ).unwrap();
        let challenge2_pipeline = RenderPipelineDescriptor::new(
            "challenge 2 hexagon ender pipeline",
            ShaderBinary::ChallengeVert,
            ShaderBinary::ChallengeFrag,
            Some(Vertex::desc()),
            format,
        );
        let challenge2_specific_render = SpecificRender::new(
            challenge2_pipeline,
            Some(hexagon),
        ).unwrap();
        let mut renders: Vec<SpecificRender> = Vec::new();
        renders.push(simple_specific_render);
        renders.push(challenge_specific_render);
        renders.push(challenge2_specific_render);
        assert(render_views(renders@) =~= specific_renders(format, pentagon@, hexagon@));
        renders
    }
}

} // verus!
