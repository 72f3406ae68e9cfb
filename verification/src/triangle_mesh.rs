//! Triangle meshes: three-float positions and index triples.

use vstd::prelude::*;
use crate::buffer::Buffer;
use crate::device::Device;
use crate::kinds::{BufferType, Format, GeometryType};
use crate::layout::{all_allocatable, all_in_bounds, BufferLayout};

verus! {

/// A triangle mesh with one position per vertex and one index triple per
/// triangle.
pub struct TriangleMesh<'a> {
    /// The device the mesh was created on.
    pub device: &'a Device,
    /// The address of the engine's geometry object.
    pub handle: usize,
    pub vertex_buffer: Buffer<'a>,
    pub index_buffer: Buffer<'a>,
}

impl<'a> TriangleMesh<'a> {
    /// The positions: `num_verts` packed triples of floats.
    pub open spec fn vertex_layout(num_verts: usize) -> BufferLayout {
        BufferLayout::packed(BufferType::VERTEX, Format::FLOAT3, 12, num_verts)
    }

    /// The connectivity: `num_tris` packed triples of vertex indices.
    pub open spec fn index_layout(num_tris: usize) -> BufferLayout {
        BufferLayout::packed(BufferType::INDEX, Format::UINT3, 12, num_tris)
    }

    /// The buffers of a mesh, in the order in which they are bound.
    pub open spec fn spec_layout(num_tris: usize, num_verts: usize) -> Seq<BufferLayout> {
        seq![Self::vertex_layout(num_verts), Self::index_layout(num_tris)]
    }

    /// Both buffers live on the mesh's device and record the binding under
    /// which the mesh refers to them.
    pub open spec fn well_formed(&self) -> bool {
        &&& self.vertex_buffer.bound_on(self.device, self.handle, BufferType::VERTEX)
        &&& self.index_buffer.bound_on(self.device, self.handle, BufferType::INDEX)
    }

    /// The kind of geometry to create for a triangle mesh.
    pub fn geometry_type() -> (kind: GeometryType)
        ensures
            kind == GeometryType::TRIANGLE,
    {
        GeometryType::TRIANGLE
    }

    /// The buffers to allocate and bind for a mesh of `num_tris` triangles
    /// over `num_verts` vertices, in binding order.
    pub fn layout(num_tris: usize, num_verts: usize) -> (layout: Vec<BufferLayout>)
        ensures
            layout@ == Self::spec_layout(num_tris, num_verts),
            all_in_bounds(layout@),
    {
        let mut layout: Vec<BufferLayout> = Vec::new();
        layout.push(BufferLayout::packed(BufferType::VERTEX, Format::FLOAT3, 12, num_verts));
        layout.push(BufferLayout::packed(BufferType::INDEX, Format::UINT3, 12, num_tris));
        assert(layout@ =~= Self::spec_layout(num_tris, num_verts));
        layout
    }

    /// Records the mesh that the engine created at `handle`, with the buffers
    /// it allocated at `buffers`, given in binding order. Each buffer is
    /// sized by its layout and records its binding to the mesh.
    pub fn unanimated(
        device: &'a Device,
        handle: usize,
        buffers: &[usize],
        num_tris: usize,
        num_verts: usize,
    ) -> (mesh: TriangleMesh<'a>)
        requires
            buffers@.len() == Self::spec_layout(num_tris, num_verts).len(),
            all_allocatable(Self::spec_layout(num_tris, num_verts)),
        ensures
            mesh.device == device,
            mesh.handle == handle,
            Self::vertex_layout(num_verts).describes(&mesh.vertex_buffer, device, handle, buffers@[0]),
            Self::index_layout(num_tris).describes(&mesh.index_buffer, device, handle, buffers@[1]),
            mesh.vertex_buffer.len() >= num_verts,
            mesh.index_buffer.len() >= num_tris,
            Self::vertex_layout(num_verts).held_by(&mesh.vertex_buffer),
            Self::index_layout(num_tris).held_by(&mesh.index_buffer),
            mesh.well_formed(),
    {
        let layout = Self::layout(num_tris, num_verts);
        let vertex_buffer = layout[0].bind(device, handle, buffers[0]);
        let index_buffer = layout[1].bind(device, handle, buffers[1]);
        TriangleMesh { device, handle, vertex_buffer, index_buffer }
    }
}

} // verus!
