//! Vertex records, the layout a pipeline declares for them, and the built-in
//! pentagon.

use vstd::prelude::*;

verus! {

/// How often the GPU steps to the next record of a vertex buffer.
#[derive(Clone, Copy, Debug, PartialEq, Eq, Structural)]
pub enum InputStepMode {
    /// Once per vertex.
    Vertex,
    /// Once per instance.
    Instance,
}

/// The type of one vertex attribute: one to four single-precision numbers.
#[derive(Clone, Copy, Debug, PartialEq, Eq, Structural)]
pub enum VertexFormat {
    Float,
    Float2,
    Float3,
    Float4,
}

impl VertexFormat {
    /// The number of bytes an attribute of this format takes.
    pub open spec fn spec_size(self) -> nat {
        match self {
            VertexFormat::Float => 4,
            VertexFormat::Float2 => 8,
            VertexFormat::Float3 => 12,
            VertexFormat::Float4 => 16,
        }
    }

    /// The number of bytes an attribute of this format takes.
    pub fn size(self) -> (bytes: u64)
        ensures
            bytes == self.spec_size(),
    {
        match self {
            VertexFormat::Float => 4,
            VertexFormat::Float2 => 8,
            VertexFormat::Float3 => 12,
            VertexFormat::Float4 => 16,
        }
    }
}

/// One input of the vertex stage, and where in a record it lies.
#[derive(Clone, Copy, Debug, PartialEq, Eq, Structural)]
pub struct VertexAttribute {
    /// Bytes from the start of the record.
    pub offset: u64,
    /// The input's location in the shader.
    pub shader_location: u32,
    pub format: VertexFormat,
}

/// The layout of one vertex buffer, as a pipeline declares it.
#[derive(Clone, Debug, PartialEq, Eq)]
pub struct VertexBufferLayout {
    /// Bytes from one record to the next.
    pub array_stride: u64,
    pub step_mode: InputStepMode,
    pub attributes: Vec<VertexAttribute>,
}

/// What a `VertexBufferLayout` holds.
pub struct VertexBufferLayoutView {
    pub array_stride: u64,
    pub step_mode: InputStepMode,
    pub attributes: Seq<VertexAttribute>,
}

impl View for VertexBufferLayout {
    type V = VertexBufferLayoutView;

    open spec fn view(&self) -> VertexBufferLayoutView {
        VertexBufferLayoutView {
            array_stride: self.array_stride,
            step_mode: self.step_mode,
            attributes: self.attributes@,
        }
    }
}

impl VertexBufferLayoutView {
    /// The bytes that the first `n` attributes take together.
    pub open spec fn bytes_before(self, n: int) -> nat
        decreases n,
    {
        if n <= 0 || n > self.attributes.len() {
            0
        } else {
            self.bytes_before(n - 1) + self.attributes[n - 1].format.spec_size()
        }
    }

    /// The attributes follow one another without a gap, from the start of
    /// the record to its end, at locations counted from zero.
    pub open spec fn is_packed(self) -> bool {
        &&& forall|i: int|
            0 <= i < self.attributes.len() ==> {
                &&& (#[trigger] self.attributes[i]).offset == self.bytes_before(i)
                &&& self.attributes[i].shader_location == i
            }
        &&& self.array_stride == self.bytes_before(self.attributes.len() as int)
    }
}

/// The number of 32-bit words in one vertex record.
pub const WORDS_PER_VERTEX: usize = 6;

/// The number of bytes in one vertex record.
pub const VERTEX_SIZE: u64 = 24;

/// One vertex: a position and a colour of three single-precision numbers
/// each. A number is kept as its IEEE 754 bit pattern, so that a record is
/// six 32-bit words.
#[derive(Clone, Copy, Debug, PartialEq, Eq)]
pub struct Vertex {
    pub position: [u32; 3],
    pub color: [u32; 3],
}

impl Vertex {
    /// The record's six words: the position, then the colour.
    pub open spec fn words(self) -> Seq<u32> {
        seq![
            self.position[0],
            self.position[1],
            self.position[2],
            self.color[0],
            self.color[1],
            self.color[2],
        ]
    }

    /// The layout of a buffer of vertex records: 24 bytes per vertex, the
    /// position at offset 0 and location 0, the colour at offset 12 and
    /// location 1.
    pub open spec fn layout() -> VertexBufferLayoutView {
        VertexBufferLayoutView {
            array_stride: 24,
            step_mode: InputStepMode::Vertex,
            attributes: seq![
                VertexAttribute { offset: 0, shader_location: 0, format: VertexFormat::Float3 },
                VertexAttribute { offset: 12, shader_location: 1, format: VertexFormat::Float3 },
            ],
        }
    }

    /// A vertex from the bit patterns of its position and colour.
    pub fn new(position: [u32; 3], color: [u32; 3]) -> (vertex: Vertex)
        ensures
            vertex.position == position,
            vertex.color == color,
    {
        Vertex { position, color }
    }

    /// The layout that a pipeline declares to read vertex records.
    pub fn desc() -> (layout: VertexBufferLayout)
        ensures
            layout@ == Self::layout(),
    {
        let position = VertexAttribute {
            offset: 0,
            shader_location: 0,
            format: VertexFormat::Float3,
        };
        let color = VertexAttribute {
            offset: VertexFormat::Float3.size(),
            shader_location: 1,
            format: VertexFormat::Float3,
        };
        let mut attributes: Vec<VertexAttribute> = Vec::new();
        attributes.push(position);
        attributes.push(color);
        assert(attributes@ =~= Self::layout().attributes);
        VertexBufferLayout { array_stride: VERTEX_SIZE, step_mode: InputStepMode::Vertex, attributes }
    }
}

/// The words of a run of vertex records, record after record.
pub open spec fn vertex_words(vertices: Seq<Vertex>) -> Seq<u32> {
    Seq::new(6 * vertices.len(), |i: int| vertices[i / 6].words()[i % 6])
}

/// The words of a run of vertex records, record after record.
pub fn flatten(vertices: &Vec<Vertex>) -> (words: Vec<u32>)
    ensures
        words@ == vertex_words(vertices@),
{
    let mut words: Vec<u32> = Vec::new();
    let mut i: usize = 0;
    while i < vertices.len()
        invariant
            i <= vertices.len(),
            words@.len() == 6 * i,
            forall|k: int|
                0 <= k < words@.len() ==> words@[k] == (#[trigger] vertex_words(vertices@)[k]),
        decreases vertices.len() - i,
    {
        let vertex = vertices[i];
        words.push(vertex.position[0]);
        words.push(vertex.position[1]);
        words.push(vertex.position[2]);
        words.push(vertex.color[0]);
        words.push(vertex.color[1]);
        words.push(vertex.color[2]);
        i += 1;
    }
    assert(words@ =~= vertex_words(vertices@));
    words
}

/// The vertex layout leaves no gap: the position and the colour fill the
/// record's 24 bytes, which are the bytes of its six words.
pub proof fn lemma_vertex_layout_is_packed()
    ensures
        Vertex::layout().is_packed(),
        Vertex::layout().array_stride == 4 * WORDS_PER_VERTEX,
        forall|v: Vertex| (#[trigger] v.words()).len() == WORDS_PER_VERTEX,
{
    let layout = Vertex::layout();
    reveal_with_fuel(VertexBufferLayoutView::bytes_before, 3);
    assert(layout.bytes_before(0) == 0);
    assert(layout.bytes_before(1) == 12);
    assert(layout.bytes_before(2) == 24);
}

/// The corners of the built-in pentagon, counter-clockwise from the top.
pub open spec fn pentagon_vertices() -> Seq<Vertex> {
    seq![
        Vertex { position: [0xBDB1_D0D5, 0x3EFC_1C5C, 0], color: [0x3F80_0000, 0, 0] },
        Vertex { position: [0xBEFD_8236, 0x3D8E_8306, 0], color: [0, 0x3F80_0000, 0] },
        Vertex { position: [0xBE60_7229, 0xBEE6_175F, 0], color: [0, 0, 0x3F80_0000] },
        Vertex { position: [0x3EB8_26AA, 0xBEB1_D51F, 0], color: [0x3F80_0000, 0, 0] },
        Vertex { position: [0x3EE2_08D8, 0x3E70_5E9C, 0], color: [0, 0x3F80_0000, 0] },
    ]
}

/// The pentagon's three triangles, as indices into its corners.
pub open spec fn pentagon_indices() -> Seq<u16> {
    seq![0, 1, 4, 1, 2, 4, 2, 3, 4]
}

/// The corners of the built-in pentagon.
pub fn vertices() -> (vertices: Vec<Vertex>)
    ensures
        vertices@ == pentagon_vertices(),
{
    let mut vertices: Vec<Vertex> = Vec::new();
    vertices.push(Vertex { position: [0xBDB1_D0D5, 0x3EFC_1C5C, 0], color: [0x3F80_0000, 0, 0] });
    vertices.push(Vertex { position: [0xBEFD_8236, 0x3D8E_8306, 0], color: [0, 0x3F80_0000, 0] });
    vertices.push(Vertex { position: [0xBE60_7229, 0xBEE6_175F, 0], color: [0, 0, 0x3F80_0000] });
    vertices.push(Vertex { position: [0x3EB8_26AA, 0xBEB1_D51F, 0], color: [0x3F80_0000, 0, 0] });
    vertices.push(Vertex { position: [0x3EE2_08D8, 0x3E70_5E9C, 0], color: [0, 0x3F80_0000, 0] });
    assert(vertices@ =~= pentagon_vertices());
    vertices
}

/// The pentagon's three triangles, as indices into its corners.
pub fn indices() -> (indices: Vec<u16>)
    ensures
        indices@ == pentagon_indices(),
{
    let mut indices: Vec<u16> = Vec::new();
    indices.push(0);
    indices.push(1);
    indices.push(4);
    indices.push(1);
    indices.push(2);
    indices.push(4);
    indices.push(2);
    indices.push(3);
    indices.push(4);
    assert(indices@ =~= pentagon_indices());
    indices
}

} // verus!

verus! {

impl VertexBufferLayout {
    /// Whether this is the layout of a buffer of vertex records.
    pub fn is_vertex_layout(&self) -> (same: bool)
        ensures
            same == (self@ == Vertex::layout()),
    {
        let expected_position = VertexAttribute {
            offset: 0,
            shader_location: 0,
            format: VertexFormat::Float3,
        };
        let expected_color = VertexAttribute {
            offset: 12,
            shader_location: 1,
            format: VertexFormat::Float3,
        };
        if self.array_stride == VERTEX_SIZE && self.step_mode == InputStepMode::Vertex
            && self.attributes.len() == 2 {
            let same = self.attributes[0] == expected_position && self.attributes[1]
                == expected_color;
            proof {
                if same {
                    assert(self.attributes@ =~= Vertex::layout().attributes);
                } else {
                    assert(Vertex::layout().attributes[0] == expected_position);
                    assert(Vertex::layout().attributes[1] == expected_color);
                }
            }
            same
        } else {
            proof {
                assert(Vertex::layout().attributes.len() == 2);
            }
            false
        }
    }
}

} // verus!
