//! Render configurations: a pipeline with the geometry it draws, if it draws
//! any, and the ordered set of them with the cursor that selects one.

use vstd::prelude::*;
use vstd::arithmetic::div_mod::{
    lemma_fundamental_div_mod,
    lemma_fundamental_div_mod_converse,
    lemma_mod_pos_bound,
};
use crate::buffers::{flatten, vertex_words, Vertex, VertexBufferLayoutView};
use crate::memory::{cast_halves, cast_words, is_image_of_halves, is_image_of_words};
use crate::pipeline::{RenderPipelineDescriptor, RenderPipelineDescriptorView};

verus! {

/// Why a render configuration cannot be built.
#[derive(Clone, Copy, Debug, PartialEq, Eq, Structural)]
pub enum ConfigurationError {
    /// There are more indices than a draw call can count.
    TooManyIndices,
    /// The pipeline reads a vertex buffer and there is no geometry.
    MissingGeometry,
    /// There is geometry and the pipeline reads no vertex buffer.
    UnexpectedGeometry,
    /// The pipeline reads a vertex buffer that is not laid out as vertex
    /// records are.
    LayoutMismatch,
}

/// What a buffer is for.
#[derive(Clone, Copy, Debug, PartialEq, Eq, Structural)]
pub enum BufferUsage {
    /// Copies may write to it.
    CopyDst,
    /// The GPU reads indices from it.
    Index,
    /// The GPU reads vertex records from it.
    Vertex,
}

/// A buffer to create on the device, with the bytes it holds from the start.
#[derive(Clone, Debug, PartialEq, Eq)]
pub struct BufferInitDescriptor {
    pub label: &'static str,
    pub contents: Vec<u8>,
    pub usage: BufferUsage,
}

/// The geometry of a render configuration: vertex records, the indices that
/// join them into triangles, and the number of those indices.
#[derive(Debug, PartialEq, Eq)]
pub struct BufferRelatedData {
    vertices: Vec<Vertex>,
    indices: Vec<u16>,
    num_indices: u32,
}

/// What a `BufferRelatedData` holds.
pub struct BufferRelatedDataView {
    pub vertices: Seq<Vertex>,
    pub indices: Seq<u16>,
    pub num_indices: u32,
}

impl View for BufferRelatedData {
    type V = BufferRelatedDataView;

    closed spec fn view(&self) -> BufferRelatedDataView {
        BufferRelatedDataView {
            vertices: self.vertices@,
            indices: self.indices@,
            num_indices: self.num_indices,
        }
    }
}

impl BufferRelatedDataView {
    /// The index count is the number of indices.
    pub open spec fn wf(self) -> bool {
        self.num_indices == self.indices.len()
    }
}

impl BufferRelatedData {
    #[verifier::type_invariant]
    spec fn inv(self) -> bool {
        self.num_indices == self.indices@.len()
    }

    /// The index count of geometry with `len` indices. A draw call counts
    /// indices in 32 bits: a number that does not fit is refused.
    pub fn index_count(len: usize) -> (count: Result<u32, ConfigurationError>)
        ensures
            len <= u32::MAX ==> count == Ok::<u32, ConfigurationError>(len as u32),
            len > u32::MAX ==> count == Err::<u32, ConfigurationError>(
                ConfigurationError::TooManyIndices,
            ),
    {
        if len > 0xFFFF_FFFF {
            Err(ConfigurationError::TooManyIndices)
        } else {
            Ok(len as u32)
        }
    }

    /// Takes vertex records and indices as the geometry of a configuration.
    /// The index count is the number of indices; more indices than a draw
    /// call can count are refused.
    pub fn upload(vertices: Vec<Vertex>, indices: Vec<u16>) -> (uploaded: Result<
        BufferRelatedData,
        ConfigurationError,
    >)
        ensures
            indices@.len() <= u32::MAX ==> uploaded is Ok && uploaded.unwrap()@
                == (BufferRelatedDataView {
                vertices: vertices@,
                indices: indices@,
                num_indices: indices@.len() as u32,
            }),
            indices@.len() > u32::MAX ==> uploaded == Err::<BufferRelatedData, ConfigurationError>(
                ConfigurationError::TooManyIndices,
            ),
    {
        match Self::index_count(indices.len()) {
            Ok(num_indices) => Ok(BufferRelatedData { vertices, indices, num_indices }),
            Err(error) => Err(error),
        }
    }

    /// The number of indices that a draw call runs over.
    pub fn num_indices(&self) -> (count: u32)
        ensures
            self@.wf(),
            count == self@.num_indices,
    {
        proof {
            use_type_invariant(self);
        }
        self.num_indices
    }

    /// The number of vertex records.
    pub fn num_vertices(&self) -> (count: usize)
        ensures
            count == self@.vertices.len(),
    {
        self.vertices.len()
    }

    /// The vertex buffer to create: the memory image of the records.
    pub fn vertex_buffer(&self) -> (descriptor: BufferInitDescriptor)
        ensures
            descriptor.label@ == "vertex buffer"@,
            descriptor.usage == BufferUsage::Vertex,
            is_image_of_words(descriptor.contents@, vertex_words(self@.vertices)),
            descriptor.contents@.len() == 24 * self@.vertices.len(),
    {
        let words = flatten(&self.vertices);
        BufferInitDescriptor {
            label: "vertex buffer",
            contents: cast_words(&words),
            usage: BufferUsage::Vertex,
        }
    }

    /// The index buffer to create: the memory image of the indices.
    pub fn index_buffer(&self) -> (descriptor: BufferInitDescriptor)
        ensures
            descriptor.label@ == "index buffer"@,
            descriptor.usage == BufferUsage::Index,
            is_image_of_halves(descriptor.contents@, self@.indices),
            descriptor.contents@.len() == 2 * self@.indices.len(),
    {
        BufferInitDescriptor {
            label: "index buffer",
            contents: cast_halves(&self.indices),
            usage: BufferUsage::Index,
        }
    }
}

/// One draw call.
#[derive(Clone, Copy, Debug, PartialEq, Eq, Structural)]
pub enum DrawCall {
    /// Vertices `first_vertex..end_vertex`, taken in order, with no index
    /// buffer.
    Direct { first_vertex: u32, end_vertex: u32, first_instance: u32, end_instance: u32 },
    /// Indices `first_index..end_index` of the bound index buffer, each
    /// moved by `base_vertex`.
    Indexed {
        first_index: u32,
        end_index: u32,
        base_vertex: i32,
        first_instance: u32,
        end_instance: u32,
    },
}

/// One render configuration: a pipeline, and the geometry it draws, if it
/// draws any. A configuration without geometry draws the one triangle that
/// its shader holds.
#[derive(Debug, PartialEq)]
pub struct SpecificRender {
    render_pipeline: RenderPipelineDescriptor,
    buffer_related: Option<BufferRelatedData>,
}

/// What a `SpecificRender` holds.
pub struct SpecificRenderView {
    pub render_pipeline: RenderPipelineDescriptorView,
    pub buffer_related: Option<BufferRelatedDataView>,
}

/// What stands in the way of joining a pipeline that reads `declared` with
/// geometry that is there or not.
pub open spec fn mismatch(declared: Option<VertexBufferLayoutView>, has_geometry: bool) -> Option<
    ConfigurationError,
> {
    match declared {
        None => if has_geometry {
            Some(ConfigurationError::UnexpectedGeometry)
        } else {
            None
        },
        Some(layout) => if !has_geometry {
            Some(ConfigurationError::MissingGeometry)
        } else if layout != Vertex::layout() {
            Some(ConfigurationError::LayoutMismatch)
        } else {
            None
        },
    }
}

impl SpecificRenderView {
    /// The pipeline reads vertex records exactly if there is geometry, and
    /// the index count of the geometry is the number of its indices.
    pub open spec fn wf(self) -> bool {
        &&& mismatch(self.render_pipeline.buffers, self.buffer_related is Some) is None
        &&& self.buffer_related matches Some(geometry) ==> geometry.wf()
    }

    /// The draw call of this configuration: every index of the geometry
    /// once, or three vertices where there is none; one instance either way.
    pub open spec fn draw_call(self) -> DrawCall {
        match self.buffer_related {
            Some(geometry) => DrawCall::Indexed {
                first_index: 0,
                end_index: geometry.num_indices,
                base_vertex: 0,
                first_instance: 0,
                end_instance: 1,
            },
            None => DrawCall::Direct {
                first_vertex: 0,
                end_vertex: 3,
                first_instance: 0,
                end_instance: 1,
            },
        }
    }
}

/// The view of geometry that may be absent.
pub open spec fn geometry_view(geometry: Option<BufferRelatedData>) -> Option<
    BufferRelatedDataView,
> {
    match geometry {
        Some(data) => Some(data@),
        None => None,
    }
}

impl View for SpecificRender {
    type V = SpecificRenderView;

    closed spec fn view(&self) -> SpecificRenderView {
        SpecificRenderView {
            render_pipeline: self.render_pipeline@,
            buffer_related: geometry_view(self.buffer_related),
        }
    }
}

impl SpecificRender {
    #[verifier::type_invariant]
    spec fn inv(self) -> bool {
        mismatch(self.render_pipeline@.buffers, self.buffer_related is Some) is None
    }

    /// Joins a pipeline and its geometry into a configuration. A pipeline
    /// that reads a vertex buffer needs geometry, and must read it as vertex
    /// records are laid out; a pipeline that reads none must have none. What
    /// does not fit is refused here, before anything is drawn.
    pub fn new(
        render_pipeline: RenderPipelineDescriptor,
        buffer_related: Option<BufferRelatedData>,
    ) -> (made: Result<SpecificRender, ConfigurationError>)
        ensures
            match mismatch(render_pipeline@.buffers, buffer_related is Some) {
                Some(error) => made == Err::<SpecificRender, ConfigurationError>(error),
                None => made is Ok && made.unwrap()@ == (SpecificRenderView {
                    render_pipeline: render_pipeline@,
                    buffer_related: geometry_view(buffer_related),
                }),
            },
    {
        let has_geometry = buffer_related.is_some();
        let fits = match &render_pipeline.vertex.buffers {
            None => if has_geometry {
                Some(ConfigurationError::UnexpectedGeometry)
            } else {
                None
            },
            Some(layout) => if !has_geometry {
                Some(ConfigurationError::MissingGeometry)
            } else if !layout.is_vertex_layout() {
                Some(ConfigurationError::LayoutMismatch)
            } else {
                None
            },
        };
        match fits {
            Some(error) => Err(error),
            None => Ok(SpecificRender { render_pipeline, buffer_related }),
        }
    }

    /// The pipeline to create for this configuration.
    pub fn render_pipeline(&self) -> (descriptor: &RenderPipelineDescriptor)
        ensures
            descriptor@ == self@.render_pipeline,
    {
        &self.render_pipeline
    }

    /// The geometry of this configuration, if it has any.
    pub fn buffer_related(&self) -> (geometry: Option<&BufferRelatedData>)
        ensures
            self@.wf(),
            match geometry {
                Some(data) => self@.buffer_related == Some(data@),
                None => self@.buffer_related is None,
            },
    {
        proof {
            use_type_invariant(self);
        }
        match &self.buffer_related {
            Some(data) => {
                proof {
                    use_type_invariant(data);
                }
                Some(data)
            },
            None => None,
        }
    }

    /// The draw call of this configuration.
    pub fn draw_call(&self) -> (call: DrawCall)
        ensures
            call == self@.draw_call(),
    {
        match &self.buffer_related {
            Some(geometry) => DrawCall::Indexed {
                first_index: 0,
                end_index: geometry.num_indices(),
                base_vertex: 0,
                first_instance: 0,
                end_instance: 1,
            },
            None => DrawCall::Direct {
                first_vertex: 0,
                end_vertex: 3,
                first_instance: 0,
                end_instance: 1,
            },
        }
    }
}

} // verus!

verus! {

/// The render configurations of the host, in order, and the cursor that
/// marks the active one. There is always at least one configuration, and the
/// cursor always marks one of them.
#[derive(Debug, PartialEq)]
pub struct Renders {
    renders: Vec<SpecificRender>,
    current_render: usize,
}

/// What a `Renders` holds.
pub struct RendersView {
    pub renders: Seq<SpecificRenderView>,
    pub current_render: nat,
}

impl RendersView {
    /// The cursor marks one of the configurations, and there are no more of
    /// them than a machine can count.
    pub open spec fn wf(self) -> bool {
        self.current_render < self.renders.len() <= usize::MAX
    }

    /// The set with the cursor one place further, back at the first place
    /// after the last.
    pub open spec fn next(self) -> RendersView {
        RendersView {
            renders: self.renders,
            current_render: if self.current_render + 1 == self.renders.len() {
                0
            } else {
                self.current_render + 1
            },
        }
    }

    /// The set after `steps` steps of the cursor.
    pub open spec fn advance(self, steps: nat) -> RendersView
        decreases steps,
    {
        if steps == 0 {
            self
        } else {
            self.advance((steps - 1) as nat).next()
        }
    }

    /// The configuration that the cursor marks.
    pub open spec fn active(self) -> SpecificRenderView {
        self.renders[self.current_render as int]
    }
}

/// The views of a run of configurations.
pub open spec fn render_views(renders: Seq<SpecificRender>) -> Seq<SpecificRenderView> {
    renders.map_values(|render: SpecificRender| render@)
}

impl View for Renders {
    type V = RendersView;

    closed spec fn view(&self) -> RendersView {
        RendersView {
            renders: render_views(self.renders@),
            current_render: self.current_render as nat,
        }
    }
}

impl Renders {
    #[verifier::type_invariant]
    spec fn inv(self) -> bool {
        self.current_render < self.renders@.len() <= usize::MAX
    }

    /// A set of the given configurations with the first one active, or
    /// nothing where there is no configuration to be active.
    pub fn new(renders: Vec<SpecificRender>) -> (set: Option<Renders>)
        ensures
            renders@.len() == 0 ==> set is None,
            renders@.len() > 0 ==> set is Some && set.unwrap()@ == (RendersView {
                renders: render_views(renders@),
                current_render: 0,
            }) && set.unwrap()@.wf(),
    {
        if renders.len() == 0 {
            None
        } else {
            Some(Renders { renders, current_render: 0 })
        }
    }

    /// Moves the cursor to the next configuration, and from the last one back
    /// to the first.
    pub fn next(&mut self)
        ensures
            final(self)@ == old(self)@.next(),
            final(self)@.wf(),
    {
        proof {
            use_type_invariant(&*self);
        }
        let len = self.renders.len();
        if self.current_render + 1 == len {
            self.current_render = 0;
        } else {
            self.current_render = self.current_render + 1;
        }
    }

    /// The number of configurations.
    pub fn len(&self) -> (len: usize)
        ensures
            len == self@.renders.len(),
            len > 0,
    {
        proof {
            use_type_invariant(self);
        }
        self.renders.len()
    }

    /// The place of the active configuration.
    pub fn current_render(&self) -> (cursor: usize)
        ensures
            cursor == self@.current_render,
            self@.wf(),
    {
        proof {
            use_type_invariant(self);
        }
        self.current_render
    }

    /// The active configuration.
    pub fn active(&self) -> (render: &SpecificRender)
        ensures
            self@.wf(),
            render@ == self@.active(),
    {
        proof {
            use_type_invariant(self);
        }
        &self.renders[self.current_render]
    }

    /// The configuration at the given place, if there is one.
    pub fn get(&self, place: usize) -> (render: Option<&SpecificRender>)
        ensures
            place < self@.renders.len() ==> render is Some && render.unwrap()@
                == self@.renders[place as int],
            place >= self@.renders.len() ==> render is None,
    {
        if place < self.renders.len() {
            Some(&self.renders[place])
        } else {
            None
        }
    }
}

/// One step of the cursor adds one to its place, modulo the number of
/// configurations, and leaves the configurations as they are.
pub proof fn lemma_next_wraps(set: RendersView)
    requires
        set.wf(),
    ensures
        set.next().wf(),
        set.next().renders == set.renders,
        set.next().current_render == (set.current_render + 1) as int % (set.renders.len() as int),
{
    let len = set.renders.len() as int;
    let cursor = set.current_render as int;
    if cursor + 1 == len {
        assert(cursor + 1 == 1 * len + 0);
        lemma_fundamental_div_mod_converse(cursor + 1, len, 1, 0);
    } else {
        assert(cursor + 1 == 0 * len + (cursor + 1));
        lemma_fundamental_div_mod_converse(cursor + 1, len, 0, cursor + 1);
    }
}

/// After any number of steps the cursor stands where counting modulo the
/// number of configurations puts it, and the configurations are as they were.
pub proof fn lemma_advance_wraps(set: RendersView, steps: nat)
    requires
        set.wf(),
    ensures
        set.advance(steps).wf(),
        set.advance(steps).renders == set.renders,
        set.advance(steps).current_render == (set.current_render + steps) as int % (
        set.renders.len() as int),
    decreases steps,
{
    let len = set.renders.len() as int;
    let cursor = set.current_render as int;
    if steps == 0 {
        assert(cursor == 0 * len + cursor);
        lemma_fundamental_div_mod_converse(cursor, len, 0, cursor);
    } else {
        let before = set.advance((steps - 1) as nat);
        lemma_advance_wraps(set, (steps - 1) as nat);
        let total = cursor + steps - 1;
        let quotient = total / len;
        let place = total % len;
        lemma_fundamental_div_mod(total, len);
        lemma_mod_pos_bound(total, len);
        assert(before.current_render == place);
        assert(total == quotient * len + place) by (nonlinear_arith)
            requires
                total == len * quotient + place,
        ;
        if place + 1 == len {
            assert(total + 1 == (quotient + 1) * len + 0) by (nonlinear_arith)
                requires
                    total == quotient * len + place,
                    place + 1 == len,
            ;
            lemma_fundamental_div_mod_converse(total + 1, len, quotient + 1, 0);
            assert(set.advance(steps).current_render == 0);
        } else {
            assert(total + 1 == quotient * len + (place + 1));
            lemma_fundamental_div_mod_converse(total + 1, len, quotient, place + 1);
            assert(set.advance(steps).current_render == place + 1);
        }
    }
}

/// As many steps as there are configurations bring the cursor back to where
/// it stood: the set is as it was.
pub proof fn lemma_full_cycle(set: RendersView)
    requires
        set.wf(),
    ensures
        set.advance(set.renders.len()) == set,
{
    let len = set.renders.len() as int;
    let cursor = set.current_render as int;
    lemma_advance_wraps(set, set.renders.len());
    assert(cursor + len == 1 * len + cursor);
    lemma_fundamental_div_mod_converse(cursor + len, len, 1, cursor);
}

} // verus!
