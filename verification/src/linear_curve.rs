//! Linear curves: control points with a radius, one index and one flag per
//! segment, and normals where the caller asks for them.

use vstd::prelude::*;
use crate::buffer::Buffer;
use crate::device::Device;
use crate::kinds::{BufferType, CurveType, Format, GeometryType};
use crate::layout::{all_allocatable, all_in_bounds, BufferLayout};

verus! {

/// A set of piecewise linear curves. Index `i` names the first control point
/// of segment `i`.
pub struct LinearCurve<'a> {
    /// The device the curves were created on.
    pub device: &'a Device,
    /// The address of the engine's geometry object.
    pub handle: usize,
    /// The kind of geometry the engine was asked for.
    pub geometry_type: GeometryType,
    pub vertex_buffer: Buffer<'a>,
    pub index_buffer: Buffer<'a>,
    pub flag_buffer: Buffer<'a>,
    pub normal_buffer: Option<Buffer<'a>>,
}

impl<'a> LinearCurve<'a> {
    /// The kind of geometry that draws linear curves in style `curve_type`.
    /// A style that linear curves do not have is drawn flat.
    pub open spec fn spec_geometry_type_for(curve_type: CurveType) -> GeometryType {
        match curve_type {
            CurveType::Cone => GeometryType::CONE_LINEAR_CURVE,
            CurveType::Round => GeometryType::ROUND_LINEAR_CURVE,
            _ => GeometryType::FLAT_LINEAR_CURVE,
        }
    }

    /// The control points: `num_verts` packed quadruples of floats, a
    /// position and a radius.
    pub open spec fn vertex_layout(num_verts: usize) -> BufferLayout {
        BufferLayout::packed(BufferType::VERTEX, Format::FLOAT4, 16, num_verts)
    }

    /// The segments: the index of the first control point of each of
    /// `num_segments` segments.
    pub open spec fn index_layout(num_segments: usize) -> BufferLayout {
        BufferLayout::packed(BufferType::INDEX, Format::UINT, 4, num_segments)
    }

    /// The flags: one byte for each of `num_segments` segments.
    pub open spec fn flag_layout(num_segments: usize) -> BufferLayout {
        BufferLayout::packed(BufferType::FLAGS, Format::UCHAR, 1, num_segments)
    }

    /// The normals: `num_verts` packed triples of floats.
    pub open spec fn normal_layout(num_verts: usize) -> BufferLayout {
        BufferLayout::packed(BufferType::NORMAL, Format::FLOAT3, 12, num_verts)
    }

    /// The buffers of a set of curves, in the order in which they are bound.
    /// The normals come last, and only where they are used.
    pub open spec fn spec_layout(num_segments: usize, num_verts: usize, use_normals: bool) -> Seq<BufferLayout> {
        let always = seq![
            Self::vertex_layout(num_verts),
            Self::index_layout(num_segments),
            Self::flag_layout(num_segments),
        ];
        if use_normals {
            always.push(Self::normal_layout(num_verts))
        } else {
            always
        }
    }

    /// All buffers live on the curves' device and record the binding under
    /// which the curves refer to them.
    pub open spec fn well_formed(&self) -> bool {
        &&& self.vertex_buffer.bound_on(self.device, self.handle, BufferType::VERTEX)
        &&& self.index_buffer.bound_on(self.device, self.handle, BufferType::INDEX)
        &&& self.flag_buffer.bound_on(self.device, self.handle, BufferType::FLAGS)
        &&& self.normal_buffer matches Some(normals) ==> normals.bound_on(
            self.device,
            self.handle,
            BufferType::NORMAL,
        )
    }

    /// `curve` is the set of curves of kind `geometry_type` that the engine
    /// created at `handle`, with each buffer at its handle in `buffers`,
    /// sized by its layout and bound to the curves.
    pub open spec fn built(
        curve: &LinearCurve<'a>,
        device: &'a Device,
        handle: usize,
        buffers: Seq<usize>,
        num_segments: usize,
        num_verts: usize,
        geometry_type: GeometryType,
        use_normals: bool,
    ) -> bool {
        &&& curve.device == device
        &&& curve.handle == handle
        &&& curve.geometry_type == geometry_type
        &&& Self::vertex_layout(num_verts).describes(&curve.vertex_buffer, device, handle, buffers[0])
        &&& Self::index_layout(num_segments).describes(&curve.index_buffer, device, handle, buffers[1])
        &&& Self::flag_layout(num_segments).describes(&curve.flag_buffer, device, handle, buffers[2])
        &&& Self::vertex_layout(num_verts).held_by(&curve.vertex_buffer)
        &&& Self::index_layout(num_segments).held_by(&curve.index_buffer)
        &&& Self::flag_layout(num_segments).held_by(&curve.flag_buffer)
        &&& curve.vertex_buffer.len() >= num_verts
        &&& curve.index_buffer.len() >= num_segments
        &&& curve.flag_buffer.len() >= num_segments
        &&& use_normals ==> {
            &&& curve.normal_buffer matches Some(normals)
            &&& Self::normal_layout(num_verts).describes(&normals, device, handle, buffers[3])
            &&& Self::normal_layout(num_verts).held_by(&normals)
            &&& normals.len() >= num_verts
        }
        &&& !use_normals ==> curve.normal_buffer is None
    }

    /// The kind of geometry to create for linear curves of style
    /// `curve_type`.
    #[verifier::when_used_as_spec(spec_geometry_type_for)]
    pub fn geometry_type_for(curve_type: CurveType) -> (kind: GeometryType)
        ensures
            kind == Self::spec_geometry_type_for(curve_type),
    {
        match curve_type {
            CurveType::Cone => GeometryType::CONE_LINEAR_CURVE,
            CurveType::Round => GeometryType::ROUND_LINEAR_CURVE,
            _ => GeometryType::FLAT_LINEAR_CURVE,
        }
    }

    /// The buffers to allocate and bind for `num_segments` segments over
    /// `num_verts` control points, in binding order.
    pub fn layout(num_segments: usize, num_verts: usize, use_normals: bool) -> (layout: Vec<BufferLayout>)
        ensures
            layout@ == Self::spec_layout(num_segments, num_verts, use_normals),
            all_in_bounds(layout@),
    {
        let mut layout: Vec<BufferLayout> = Vec::new();
        layout.push(BufferLayout::packed(BufferType::VERTEX, Format::FLOAT4, 16, num_verts));
        layout.push(BufferLayout::packed(BufferType::INDEX, Format::UINT, 4, num_segments));
        layout.push(BufferLayout::packed(BufferType::FLAGS, Format::UCHAR, 1, num_segments));
        if use_normals {
            layout.push(BufferLayout::packed(BufferType::NORMAL, Format::FLOAT3, 12, num_verts));
        }
        assert(layout@ =~= Self::spec_layout(num_segments, num_verts, use_normals));
        layout
    }

    /// Records flat curves that the engine created at `handle`, with the
    /// buffers it allocated at `buffers`, given in binding order.
    pub fn flat(
        device: &'a Device,
        handle: usize,
        buffers: &[usize],
        num_segments: usize,
        num_verts: usize,
        use_normals: bool,
    ) -> (curve: LinearCurve<'a>)
        requires
            buffers@.len() == Self::spec_layout(num_segments, num_verts, use_normals).len(),
            all_allocatable(Self::spec_layout(num_segments, num_verts, use_normals)),
        ensures
            Self::built(
                &curve,
                device,
                handle,
                buffers@,
                num_segments,
                num_verts,
                GeometryType::FLAT_LINEAR_CURVE,
                use_normals,
            ),
            curve.well_formed(),
    {
        Self::unanimated(device, handle, buffers, num_segments, num_verts, CurveType::Flat, use_normals)
    }

    /// Records round curves that the engine created at `handle`, with the
    /// buffers it allocated at `buffers`, given in binding order.
    pub fn round(
        device: &'a Device,
        handle: usize,
        buffers: &[usize],
        num_segments: usize,
        num_verts: usize,
        use_normals: bool,
    ) -> (curve: LinearCurve<'a>)
        requires
            buffers@.len() == Self::spec_layout(num_segments, num_verts, use_normals).len(),
            all_allocatable(Self::spec_layout(num_segments, num_verts, use_normals)),
        ensures
            Self::built(
                &curve,
                device,
                handle,
                buffers@,
                num_segments,
                num_verts,
                GeometryType::ROUND_LINEAR_CURVE,
                use_normals,
            ),
            curve.well_formed(),
    {
        Self::unanimated(device, handle, buffers, num_segments, num_verts, CurveType::Round, use_normals)
    }

    /// Records cone curves that the engine created at `handle`, with the
    /// buffers it allocated at `buffers`, given in binding order.
    pub fn cone(
        device: &'a Device,
        handle: usize,
        buffers: &[usize],
        num_segments: usize,
        num_verts: usize,
        use_normals: bool,
    ) -> (curve: LinearCurve<'a>)
        requires
            buffers@.len() == Self::spec_layout(num_segments, num_verts, use_normals).len(),
            all_allocatable(Self::spec_layout(num_segments, num_verts, use_normals)),
        ensures
            Self::built(
                &curve,
                device,
                handle,
                buffers@,
                num_segments,
                num_verts,
                GeometryType::CONE_LINEAR_CURVE,
                use_normals,
            ),
            curve.well_formed(),
    {
        Self::unanimated(device, handle, buffers, num_segments, num_verts, CurveType::Cone, use_normals)
    }

    fn unanimated(
        device: &'a Device,
        handle: usize,
        buffers: &[usize],
        num_segments: usize,
        num_verts: usize,
        curve_type: CurveType,
        use_normals: bool,
    ) -> (curve: LinearCurve<'a>)
        requires
            buffers@.len() == Self::spec_layout(num_segments, num_verts, use_normals).len(),
            all_allocatable(Self::spec_layout(num_segments, num_verts, use_normals)),
        ensures
            Self::built(
                &curve,
                device,
                handle,
                buffers@,
                num_segments,
                num_verts,
                Self::geometry_type_for(curve_type),
                use_normals,
            ),
            curve.well_formed(),
    {
        let geometry_type = Self::geometry_type_for(curve_type);
        let layout = Self::layout(num_segments, num_verts, use_normals);
        let vertex_buffer = layout[0].bind(device, handle, buffers[0]);
        let index_buffer = layout[1].bind(device, handle, buffers[1]);
        let flag_buffer = layout[2].bind(device, handle, buffers[2]);
        let normal_buffer = if use_normals {
            Some(layout[3].bind(device, handle, buffers[3]))
        } else {
            None
        };
        LinearCurve {
            device,
            handle,
            geometry_type,
            vertex_buffer,
            index_buffer,
            flag_buffer,
            normal_buffer,
        }
    }
}

} // verus!
