//! Subdivision surfaces: positions, vertices per face, and face corners.

use vstd::prelude::*;
use crate::buffer::Buffer;
use crate::device::Device;
use crate::kinds::{BufferType, Format, GeometryType, SubdivisionMode};
use crate::layout::{all_allocatable, all_in_bounds, BufferLayout};

verus! {

/// A subdivision surface. The face buffer gives the number of corners of
/// each face; the index buffer lists the corners of all faces one after the
/// other.
pub struct SubdivMesh<'a> {
    /// The device the mesh was created on.
    pub device: &'a Device,
    /// The address of the engine's geometry object.
    pub handle: usize,
    pub vertex_buffer: Buffer<'a>,
    pub index_buffer: Buffer<'a>,
    pub face_buffer: Buffer<'a>,
    /// The boundary treatment the mesh was created with.
    pub subdiv_mode: SubdivisionMode,
    /// The tessellation rate the mesh was created with: the bit pattern of a
    /// single-precision float.
    pub subdiv_level: u32,
}

impl<'a> SubdivMesh<'a> {
    /// The positions: `num_verts` packed triples of floats.
    pub open spec fn vertex_layout(num_verts: usize) -> BufferLayout {
        BufferLayout::packed(BufferType::VERTEX, Format::FLOAT3, 12, num_verts)
    }

    /// The corner counts: one unsigned integer for each of `num_faces` faces.
    pub open spec fn face_layout(num_faces: usize) -> BufferLayout {
        BufferLayout::packed(BufferType::FACE, Format::UINT, 4, num_faces)
    }

    /// The corners: one vertex index for each of `num_edges` face corners.
    pub open spec fn index_layout(num_edges: usize) -> BufferLayout {
        BufferLayout::packed(BufferType::INDEX, Format::UINT, 4, num_edges)
    }

    /// The buffers of a mesh, in the order in which they are bound.
    pub open spec fn spec_layout(num_faces: usize, num_edges: usize, num_verts: usize) -> Seq<BufferLayout> {
        seq![
            Self::vertex_layout(num_verts),
            Self::face_layout(num_faces),
            Self::index_layout(num_edges),
        ]
    }

    /// All buffers live on the mesh's device and record the binding under
    /// which the mesh refers to them.
    pub open spec fn well_formed(&self) -> bool {
        &&& self.vertex_buffer.bound_on(self.device, self.handle, BufferType::VERTEX)
        &&& self.face_buffer.bound_on(self.device, self.handle, BufferType::FACE)
        &&& self.index_buffer.bound_on(self.device, self.handle, BufferType::INDEX)
    }

    /// The kind of geometry to create for a subdivision surface.
    pub fn geometry_type() -> (kind: GeometryType)
        ensures
            kind == GeometryType::SUBDIVISION,
    {
        GeometryType::SUBDIVISION
    }

    /// The buffers to allocate and bind for a surface of `num_faces` faces
    /// with `num_edges` corners in all over `num_verts` vertices, in binding
    /// order.
    pub fn layout(num_faces: usize, num_edges: usize, num_verts: usize) -> (layout: Vec<BufferLayout>)
        ensures
            layout@ == Self::spec_layout(num_faces, num_edges, num_verts),
            all_in_bounds(layout@),
    {
        let mut layout: Vec<BufferLayout> = Vec::new();
        layout.push(BufferLayout::packed(BufferType::VERTEX, Format::FLOAT3, 12, num_verts));
        layout.push(BufferLayout::packed(BufferType::FACE, Format::UINT, 4, num_faces));
        layout.push(BufferLayout::packed(BufferType::INDEX, Format::UINT, 4, num_edges));
        assert(layout@ =~= Self::spec_layout(num_faces, num_edges, num_verts));
        layout
    }

    /// Records the surface that the engine created at `handle`, with the
    /// buffers it allocated at `buffers`, given in binding order, and the
    /// boundary treatment and tessellation rate it is created with. Each
    /// buffer is sized by its layout and records its binding to the surface.
    pub fn unanimated(
        device: &'a Device,
        handle: usize,
        buffers: &[usize],
        num_faces: usize,
        num_edges: usize,
        num_verts: usize,
        subdiv_mode: SubdivisionMode,
        subdiv_level: u32,
    ) -> (mesh: SubdivMesh<'a>)
        requires
            buffers@.len() == Self::spec_layout(num_faces, num_edges, num_verts).len(),
            all_allocatable(Self::spec_layout(num_faces, num_edges, num_verts)),
        ensures
            mesh.device == device,
            mesh.handle == handle,
            mesh.subdiv_mode == subdiv_mode,
            mesh.subdiv_level == subdiv_level,
            Self::vertex_layout(num_verts).describes(&mesh.vertex_buffer, device, handle, buffers@[0]),
            Self::face_layout(num_faces).describes(&mesh.face_buffer, device, handle, buffers@[1]),
            Self::index_layout(num_edges).describes(&mesh.index_buffer, device, handle, buffers@[2]),
            mesh.vertex_buffer.len() >= num_verts,
            mesh.face_buffer.len() >= num_faces,
            mesh.index_buffer.len() >= num_edges,
            Self::vertex_layout(num_verts).held_by(&mesh.vertex_buffer),
            Self::face_layout(num_faces).held_by(&mesh.face_buffer),
            Self::index_layout(num_edges).held_by(&mesh.index_buffer),
            mesh.well_formed(),
    {
        let layout = Self::layout(num_faces, num_edges, num_verts);
        let vertex_buffer = layout[0].bind(device, handle, buffers[0]);
        let face_buffer = layout[1].bind(device, handle, buffers[1]);
        let index_buffer = layout[2].bind(device, handle, buffers[2]);
        SubdivMesh {
            device,
            handle,
            vertex_buffer,
            index_buffer,
            face_buffer,
            subdiv_mode,
            subdiv_level,
        }
    }
}

} // verus!
