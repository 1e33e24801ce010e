//! The cube mesh: its corners, its triangles and the layout of its
//! interleaved vertex buffer.

use vstd::prelude::*;

verus! {

/// Component type of a vertex attribute.
#[derive(Clone, Copy, Debug, PartialEq, Eq, Structural)]
pub enum VertexFormat {
    /// Two 32-bit components.
    Float32x2,
    /// Three 32-bit components.
    Float32x3,
}

impl VertexFormat {
    /// Size of one attribute of this format, in bytes.
    pub open spec fn spec_size(self) -> u64 {
        match self {
            VertexFormat::Float32x2 => 8,
            VertexFormat::Float32x3 => 12,
        }
    }

    /// Size of one attribute of this format, in bytes.
    #[verifier::when_used_as_spec(spec_size)]
    pub fn size(self) -> (out: u64)
        ensures
            out == self.spec_size(),
    {
        match self {
            VertexFormat::Float32x2 => 8,
            VertexFormat::Float32x3 => 12,
        }
    }
}

/// How often the vertex buffer advances.
#[derive(Clone, Copy, Debug, PartialEq, Eq, Structural)]
pub enum VertexStepMode {
    Vertex,
    Instance,
}

/// Where one attribute lies inside a vertex.
#[derive(Clone, Copy, Debug, PartialEq, Eq, Structural)]
pub struct VertexAttribute {
    pub offset: u64,
    pub shader_location: u32,
    pub format: VertexFormat,
}

/// Layout of one vertex buffer.
#[derive(Clone, Debug, PartialEq, Eq)]
pub struct VertexBufferLayout {
    pub array_stride: u64,
    pub step_mode: VertexStepMode,
    pub attributes: Vec<VertexAttribute>,
}

/// Whether attributes lie back to back from offset zero, at consecutive
/// shader locations, and fill the stride exactly.
pub open spec fn attributes_packed(stride: u64, attributes: Seq<VertexAttribute>) -> bool {
    &&& forall|i: int|
        0 <= i < attributes.len() ==> (#[trigger] attributes[i]).shader_location == i
    &&& forall|i: int|
        0 <= i < attributes.len() ==> (#[trigger] attributes[i]).offset == (if i == 0 {
            0
        } else {
            attributes[i - 1].offset + attributes[i - 1].format.spec_size()
        })
    &&& stride == (if attributes.len() == 0 {
        0
    } else {
        attributes.last().offset + attributes.last().format.spec_size()
    })
}

/// One corner of the cube. The position `(x, y, z)` counts half units, so
/// `-1` stands for `-0.5`; the texture coordinates `(u, v)` count whole units.
#[derive(Clone, Copy, Debug, PartialEq, Eq, Structural)]
pub struct Vertex {
    pub x: i8,
    pub y: i8,
    pub z: i8,
    pub u: u8,
    pub v: u8,
}

/// The attributes of a [`Vertex`] buffer: position, then texture coordinates.
pub open spec fn vertex_attributes() -> Seq<VertexAttribute> {
    seq![
        VertexAttribute { offset: 0, shader_location: 0, format: VertexFormat::Float32x3 },
        VertexAttribute { offset: 12, shader_location: 1, format: VertexFormat::Float32x2 },
    ]
}

/// Whether `layout` describes a buffer of [`Vertex`]: 20 bytes per vertex,
/// advancing per vertex, position at location 0 and texture coordinates at
/// location 1.
pub open spec fn is_vertex_layout(layout: VertexBufferLayout) -> bool {
    &&& layout.array_stride == 20
    &&& layout.step_mode == VertexStepMode::Vertex
    &&& layout.attributes@ == vertex_attributes()
}

impl Vertex {
    /// Layout of a buffer of vertices.
    pub fn desc() -> (out: VertexBufferLayout)
        ensures
            is_vertex_layout(out),
            attributes_packed(out.array_stride, out.attributes@),
    {
        let position = VertexFormat::Float32x3;
        let tex_coords = VertexFormat::Float32x2;
        let mut attributes: Vec<VertexAttribute> = Vec::new();
        attributes.push(VertexAttribute { offset: 0, shader_location: 0, format: position });
        attributes.push(
            VertexAttribute { offset: position.size(), shader_location: 1, format: tex_coords },
        );
        assert(attributes@ == vertex_attributes());
        VertexBufferLayout {
            array_stride: position.size() + tex_coords.size(),
            step_mode: VertexStepMode::Vertex,
            attributes,
        }
    }
}

/// The eight corners of the cube: the back face, then the front face, each
/// counter-clockwise from the lower left.
pub open spec fn cube_vertices() -> Seq<Vertex> {
    seq![
        Vertex { x: -1i8, y: -1i8, z: -1i8, u: 0, v: 0 },
        Vertex { x: 1, y: -1i8, z: -1i8, u: 1, v: 0 },
        Vertex { x: 1, y: 1, z: -1i8, u: 1, v: 1 },
        Vertex { x: -1i8, y: 1, z: -1i8, u: 0, v: 1 },
        Vertex { x: -1i8, y: -1i8, z: 1, u: 0, v: 0 },
        Vertex { x: 1, y: -1i8, z: 1, u: 1, v: 0 },
        Vertex { x: 1, y: 1, z: 1, u: 1, v: 1 },
        Vertex { x: -1i8, y: 1, z: 1, u: 0, v: 1 },
    ]
}

/// The twelve triangles of the cube, as indices into [`cube_vertices`].
pub open spec fn cube_indices() -> Seq<u16> {
    seq![
        0u16, 2, 1, 0, 3, 2,
        1, 2, 6, 6, 5, 1,
        4, 5, 6, 6, 7, 4,
        2, 3, 6, 6, 3, 7,
        0, 7, 3, 0, 4, 7,
        0, 1, 5, 0, 5, 4,
    ]
}

/// Byte `k` of the index list `indices`, each index taking two bytes, low
/// byte first when `little_endian` holds and high byte first otherwise.
pub open spec fn index_byte(indices: Seq<u16>, little_endian: bool, k: int) -> u8 {
    let index = indices[k / 2];
    if (k % 2 == 0) == little_endian {
        (index % 256) as u8
    } else {
        (index / 256) as u8
    }
}

/// The index list as bytes in one of the two byte orders.
pub open spec fn index_bytes(indices: Seq<u16>, little_endian: bool) -> Seq<u8> {
    Seq::new(2 * indices.len(), |k: int| index_byte(indices, little_endian, k))
}

/// Calls `bytemuck::cast_slice` to read a `u16` slice as bytes. The cast
/// cannot fail for this pair of types; it yields the same memory, so each
/// index gives two bytes in the byte order of the machine.
#[verifier::external_body]
fn cast_indices(indices: &Vec<u16>) -> (out: Vec<u8>)
    ensures
        out@ == index_bytes(indices@, true) || out@ == index_bytes(indices@, false),
{
    bytemuck::cast_slice::<u16, u8>(indices.as_slice()).to_vec()
}

/// The static geometry of one cube.
#[derive(Clone, Debug, PartialEq, Eq)]
pub struct Mesh {
    pub num_vertices: u32,
    pub vertices: Vec<Vertex>,
    pub num_indices: u32,
    pub indices: Vec<u16>,
}

impl Mesh {
    /// Whether the counts agree with the lists, the indices form whole
    /// triangles and each index names a vertex.
    pub open spec fn wf(&self) -> bool {
        &&& self.num_vertices == self.vertices@.len()
        &&& self.num_indices == self.indices@.len()
        &&& self.num_indices % 3 == 0
        &&& forall|i: int|
            0 <= i < self.indices@.len() ==> (#[trigger] self.indices@[i]) < self.num_vertices
    }

    /// The cube: eight corners and thirty-six indices.
    pub fn new() -> (out: Mesh)
        ensures
            out.wf(),
            out.vertices@ == cube_vertices(),
            out.indices@ == cube_indices(),
            out.num_vertices == 8,
            out.num_indices == 36,
    {
        let mut vertices: Vec<Vertex> = Vec::new();
        vertices.push(Vertex { x: -1, y: -1, z: -1, u: 0, v: 0 });
        vertices.push(Vertex { x: 1, y: -1, z: -1, u: 1, v: 0 });
        vertices.push(Vertex { x: 1, y: 1, z: -1, u: 1, v: 1 });
        vertices.push(Vertex { x: -1, y: 1, z: -1, u: 0, v: 1 });
        vertices.push(Vertex { x: -1, y: -1, z: 1, u: 0, v: 0 });
        vertices.push(Vertex { x: 1, y: -1, z: 1, u: 1, v: 0 });
        vertices.push(Vertex { x: 1, y: 1, z: 1, u: 1, v: 1 });
        vertices.push(Vertex { x: -1, y: 1, z: 1, u: 0, v: 1 });
        assert(vertices@ == cube_vertices());
        let mut indices: Vec<u16> = Vec::new();
        push_triangle(&mut indices, 0, 2, 1);
        push_triangle(&mut indices, 0, 3, 2);
        push_triangle(&mut indices, 1, 2, 6);
        push_triangle(&mut indices, 6, 5, 1);
        push_triangle(&mut indices, 4, 5, 6);
        push_triangle(&mut indices, 6, 7, 4);
        push_triangle(&mut indices, 2, 3, 6);
        push_triangle(&mut indices, 6, 3, 7);
        push_triangle(&mut indices, 0, 7, 3);
        push_triangle(&mut indices, 0, 4, 7);
        push_triangle(&mut indices, 0, 1, 5);
        push_triangle(&mut indices, 0, 5, 4);
        assert(indices@ == cube_indices());
        Mesh { num_vertices: 8, vertices, num_indices: 36, indices }
    }

    /// The contents of the index buffer: two bytes per index, in the byte
    /// order of the machine.
    pub fn index_bytes(&self) -> (out: Vec<u8>)
        ensures
            out@.len() == 2 * self.indices@.len(),
            out@ == index_bytes(self.indices@, true) || out@ == index_bytes(self.indices@, false),
    {
        cast_indices(&self.indices)
    }
}

fn push_triangle(indices: &mut Vec<u16>, a: u16, b: u16, c: u16)
    ensures
        final(indices)@ == old(indices)@ + seq![a, b, c],
{
    indices.push(a);
    indices.push(b);
    indices.push(c);
    assert(indices@ == old(indices)@ + seq![a, b, c]);
}

} // verus!
