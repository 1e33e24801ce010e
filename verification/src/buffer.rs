//! Descriptions of the GPU buffers: what each is for, how large it is and
//! how it may be used.

use vstd::prelude::*;
use crate::binding::{BindingFamily, BindingKind, BufferKind};
use crate::instances::{Instances, MATRIX_BYTES};
use crate::mesh::{Mesh, Vertex};
use crate::rotator::{matrix_write, CameraState, Rotation, UniformWrite};

verus! {

/// What a buffer holds.
#[derive(Clone, Copy, Debug, PartialEq, Eq, Structural)]
pub enum BufferRole {
    /// The interleaved vertices of the mesh.
    Vertices,
    /// The indices of the mesh.
    Indices,
    /// The view-projection matrix.
    Camera,
    /// The accumulated rotation matrix.
    Rotation,
    /// One model matrix per instance.
    Instances,
}

/// How a buffer may be used.
#[derive(Clone, Copy, Debug, PartialEq, Eq, Structural)]
pub struct BufferUsage {
    pub vertex: bool,
    pub index: bool,
    pub uniform: bool,
    pub storage: bool,
    pub copy_dst: bool,
}

/// Everything needed to create one buffer, but for its contents.
#[derive(Clone, Copy, Debug, PartialEq, Eq, Structural)]
pub struct BufferDescriptor {
    pub role: BufferRole,
    pub size: u64,
    pub usage: BufferUsage,
}

impl BufferRole {
    /// The family whose bind group hands the buffer to the shaders, if any.
    pub open spec fn family(self) -> Option<BindingFamily> {
        match self {
            BufferRole::Vertices => None,
            BufferRole::Indices => None,
            BufferRole::Camera => Some(BindingFamily::Camera),
            BufferRole::Rotation => Some(BindingFamily::Rotation),
            BufferRole::Instances => Some(BindingFamily::Instances),
        }
    }

    /// How a buffer of this role is used: mesh buffers are read by the
    /// input assembler only; bound buffers are read as their layout says and
    /// can be written to.
    pub open spec fn usage(self) -> BufferUsage {
        match self {
            BufferRole::Vertices => BufferUsage {
                vertex: true,
                index: false,
                uniform: false,
                storage: false,
                copy_dst: false,
            },
            BufferRole::Indices => BufferUsage {
                vertex: false,
                index: true,
                uniform: false,
                storage: false,
                copy_dst: false,
            },
            BufferRole::Camera | BufferRole::Rotation => BufferUsage {
                vertex: false,
                index: false,
                uniform: true,
                storage: false,
                copy_dst: true,
            },
            BufferRole::Instances => BufferUsage {
                vertex: false,
                index: false,
                uniform: false,
                storage: true,
                copy_dst: true,
            },
        }
    }

    /// Describes a buffer of this role and the given size.
    pub fn describe(self, size: u64) -> (out: BufferDescriptor)
        ensures
            out == (BufferDescriptor { role: self, size, usage: self.usage() }),
    {
        let usage = match self {
            BufferRole::Vertices => BufferUsage {
                vertex: true,
                index: false,
                uniform: false,
                storage: false,
                copy_dst: false,
            },
            BufferRole::Indices => BufferUsage {
                vertex: false,
                index: true,
                uniform: false,
                storage: false,
                copy_dst: false,
            },
            BufferRole::Camera | BufferRole::Rotation => BufferUsage {
                vertex: false,
                index: false,
                uniform: true,
                storage: false,
                copy_dst: true,
            },
            BufferRole::Instances => BufferUsage {
                vertex: false,
                index: false,
                uniform: false,
                storage: true,
                copy_dst: true,
            },
        };
        BufferDescriptor { role: self, size, usage }
    }
}

/// The buffer of the given role that holds one matrix.
pub open spec fn matrix_buffer(role: BufferRole) -> BufferDescriptor {
    BufferDescriptor { role, size: MATRIX_BYTES, usage: role.usage() }
}

impl BufferDescriptor {
    /// Whether an upload may be made to this buffer: the buffer belongs to
    /// the family written to, it can be copied to, and the bytes written lie
    /// inside it.
    pub open spec fn accepts(&self, write: UniformWrite) -> bool {
        &&& self.role.family() == Some(write.family)
        &&& self.usage.copy_dst
        &&& write.offset + write.size <= self.size
    }

    /// Whether the buffer may stand at a binding of the given kind.
    pub open spec fn serves(&self, kind: BindingKind) -> bool {
        match kind {
            BindingKind::Buffer { kind: BufferKind::Uniform, .. } => self.usage.uniform,
            BindingKind::Buffer { kind: BufferKind::Storage { .. }, .. } => self.usage.storage,
            _ => false,
        }
    }
}

impl Mesh {
    /// The vertex buffer: one packed vertex per corner.
    pub fn vertex_buffer(&self) -> (out: BufferDescriptor)
        ensures
            out == (BufferDescriptor {
                role: BufferRole::Vertices,
                size: (self.num_vertices * 20) as u64,
                usage: BufferRole::Vertices.usage(),
            }),
    {
        let stride: u64 = Vertex::desc().array_stride;
        BufferRole::Vertices.describe(self.num_vertices as u64 * stride)
    }

    /// The index buffer: two bytes per index.
    pub fn index_buffer(&self) -> (out: BufferDescriptor)
        ensures
            out == (BufferDescriptor {
                role: BufferRole::Indices,
                size: (self.num_indices * 2) as u64,
                usage: BufferRole::Indices.usage(),
            }),
    {
        BufferRole::Indices.describe(self.num_indices as u64 * 2)
    }
}

impl Instances {
    /// The storage buffer: one matrix per instance.
    pub fn buffer(&self) -> (out: BufferDescriptor)
        ensures
            out == (BufferDescriptor {
                role: BufferRole::Instances,
                size: (self.cells().len() * MATRIX_BYTES) as u64,
                usage: BufferRole::Instances.usage(),
            }),
            out.serves(BindingFamily::Instances.layout_entries()[0].kind),
    {
        BufferRole::Instances.describe(self.buffer_size())
    }
}

impl Rotation {
    /// The uniform buffer: one matrix, which every update overwrites.
    pub fn buffer() -> (out: BufferDescriptor)
        ensures
            out == matrix_buffer(BufferRole::Rotation),
            out.accepts(matrix_write(BindingFamily::Rotation)),
            out.serves(BindingFamily::Rotation.layout_entries()[0].kind),
    {
        BufferRole::Rotation.describe(MATRIX_BYTES)
    }
}

impl CameraState {
    /// The uniform buffer: one matrix, which every update overwrites.
    pub fn buffer() -> (out: BufferDescriptor)
        ensures
            out == matrix_buffer(BufferRole::Camera),
            out.accepts(matrix_write(BindingFamily::Camera)),
            out.serves(BindingFamily::Camera.layout_entries()[0].kind),
    {
        BufferRole::Camera.describe(MATRIX_BYTES)
    }
}

/// Every upload that an update asks for is accepted by the uniform buffer
/// of the family it is addressed to, and by no buffer of another role.
pub proof fn update_writes_are_accepted(role: BufferRole)
    ensures
        matrix_buffer(BufferRole::Camera).accepts(matrix_write(BindingFamily::Camera)),
        matrix_buffer(BufferRole::Rotation).accepts(matrix_write(BindingFamily::Rotation)),
        matrix_buffer(role).accepts(matrix_write(BindingFamily::Camera)) ==> role
            == BufferRole::Camera,
        matrix_buffer(role).accepts(matrix_write(BindingFamily::Rotation)) ==> role
            == BufferRole::Rotation,
{
}

} // verus!
