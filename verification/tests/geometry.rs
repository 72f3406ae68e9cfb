use embree::layout::{is_allocatable, is_bindable};
use embree::{
    BsplineCurve, BufferAttachment, BufferLayout, BufferType, CurveType, Device, Format, Geometry,
    GeometryType, LinearCurve, QuadMesh, SubdivMesh, SubdivisionMode, TriangleMesh,
};

fn packed(buf_type: BufferType, format: Format, elem_size: usize, len: usize) -> BufferLayout {
    BufferLayout { buf_type, slot: 0, format, elem_size, len, stride: elem_size, count: len }
}

fn bound(geom: usize, buf_type: BufferType) -> BufferAttachment {
    BufferAttachment { geom, buf_type, slot: 0 }
}

#[test]
fn format_sizes() {
    assert_eq!(Format::UCHAR.size(), 1);
    assert_eq!(Format::UINT.size(), 4);
    assert_eq!(Format::UINT3.size(), 12);
    assert_eq!(Format::UINT4.size(), 16);
    assert_eq!(Format::FLOAT3.size(), 12);
    assert_eq!(Format::FLOAT4.size(), 16);
    assert_eq!(Format::FLOAT4X4_COLUMN_MAJOR.size(), 64);
}

#[test]
fn element_sizes_match_the_vector_types() {
    let triangle = TriangleMesh::layout(1, 1);
    assert_eq!(triangle[0].elem_size, std::mem::size_of::<ultraviolet::Vec3>());
    assert_eq!(triangle[1].elem_size, std::mem::size_of::<[u32; 3]>());
    let quad = QuadMesh::layout(1, 1);
    assert_eq!(quad[0].elem_size, std::mem::size_of::<cgmath::Vector4<f32>>());
    assert_eq!(quad[1].elem_size, std::mem::size_of::<cgmath::Vector4<u32>>());
    let subdiv = SubdivMesh::layout(1, 1, 1);
    assert_eq!(subdiv[0].elem_size, std::mem::size_of::<ultraviolet::Vec3>());
    assert_eq!(subdiv[1].elem_size, std::mem::size_of::<u32>());
    assert_eq!(subdiv[2].elem_size, std::mem::size_of::<u32>());
    let linear = LinearCurve::layout(1, 1, true);
    assert_eq!(linear[0].elem_size, std::mem::size_of::<ultraviolet::Vec4>());
    assert_eq!(linear[1].elem_size, std::mem::size_of::<u32>());
    assert_eq!(linear[2].elem_size, std::mem::size_of::<u8>());
    assert_eq!(linear[3].elem_size, std::mem::size_of::<ultraviolet::Vec3>());
    let bspline = BsplineCurve::layout(1, 1, true);
    assert_eq!(bspline[0].elem_size, std::mem::size_of::<cgmath::Vector4<f32>>());
    assert_eq!(bspline[1].elem_size, std::mem::size_of::<u32>());
    assert_eq!(bspline[2].elem_size, std::mem::size_of::<cgmath::Vector3<f32>>());
}

#[test]
fn transform_is_sixteen_floats() {
    let format = embree::Instance::transform_format();
    assert_eq!(format, Format::FLOAT4X4_COLUMN_MAJOR);
    assert_eq!(format.size(), std::mem::size_of::<ultraviolet::Mat4>());
    assert_eq!(format.size(), ultraviolet::Mat4::identity().as_array().len() * 4);
}

#[test]
fn layout_byte_lengths() {
    assert_eq!(packed(BufferType::VERTEX, Format::FLOAT3, 12, 3).byte_len(), Some(48));
    assert_eq!(packed(BufferType::VERTEX, Format::FLOAT3, 12, 0).byte_len(), Some(0));
    assert_eq!(packed(BufferType::INDEX, Format::UINT, 4, 5).byte_len(), Some(32));
    assert_eq!(packed(BufferType::INDEX, Format::UINT, 0, 5).byte_len(), Some(0));
    assert_eq!(packed(BufferType::INDEX, Format::UINT, 4, usize::MAX / 4).byte_len(), None);
    assert_eq!(packed(BufferType::INDEX, Format::UINT, 4, usize::MAX).byte_len(), None);
    assert_eq!(
        BufferLayout::packed(BufferType::FACE, Format::UINT, 4, 9),
        packed(BufferType::FACE, Format::UINT, 4, 9)
    );
}

#[test]
fn is_allocatable_looks_at_every_buffer() {
    assert!(is_allocatable(&Vec::new()));
    assert!(is_allocatable(&TriangleMesh::layout(100, 100)));
    assert!(!is_allocatable(&TriangleMesh::layout(usize::MAX, 100)));
    assert!(!is_allocatable(&TriangleMesh::layout(100, usize::MAX)));
    assert!(!is_allocatable(&LinearCurve::layout(4, usize::MAX / 2, true)));
}

#[test]
fn triangle_mesh_layout_and_buffers() {
    assert_eq!(TriangleMesh::geometry_type(), GeometryType::TRIANGLE);
    assert_eq!(
        TriangleMesh::layout(2, 4),
        vec![
            packed(BufferType::VERTEX, Format::FLOAT3, 12, 4),
            packed(BufferType::INDEX, Format::UINT3, 12, 2),
        ]
    );
    let device = Device::new(0x1000);
    let mesh = TriangleMesh::unanimated(&device, 0x2000, &[0x3000, 0x4000], 2, 4);
    assert_eq!(mesh.handle, 0x2000);
    assert_eq!(mesh.device.handle(), 0x1000);
    assert_eq!(mesh.vertex_buffer.handle(), 0x3000);
    assert_eq!(mesh.vertex_buffer.byte_len(), 48);
    assert_eq!(mesh.vertex_buffer.elem_size(), 12);
    assert_eq!(mesh.vertex_buffer.attachment(), bound(0x2000, BufferType::VERTEX));
    assert_eq!(mesh.index_buffer.handle(), 0x4000);
    assert_eq!(mesh.index_buffer.byte_len(), 32);
    assert_eq!(mesh.index_buffer.elem_size(), 12);
    assert_eq!(mesh.index_buffer.attachment(), bound(0x2000, BufferType::INDEX));
    assert!(mesh.vertex_buffer.len() >= 4);
    assert!(mesh.index_buffer.len() >= 2);
}

#[test]
fn quad_mesh_layout_and_buffers() {
    assert_eq!(QuadMesh::geometry_type(), GeometryType::QUAD);
    assert_eq!(
        QuadMesh::layout(1, 4),
        vec![
            packed(BufferType::VERTEX, Format::FLOAT3, 16, 4),
            packed(BufferType::INDEX, Format::UINT4, 16, 1),
        ]
    );
    let device = Device::new(0x1000);
    let mesh = QuadMesh::unanimated(&device, 0x2000, &[0x3000, 0x4000], 1, 4);
    assert_eq!(mesh.handle, 0x2000);
    assert_eq!(mesh.vertex_buffer.handle(), 0x3000);
    assert_eq!(mesh.vertex_buffer.byte_len(), 64);
    assert_eq!(mesh.vertex_buffer.len(), 4);
    assert_eq!(mesh.vertex_buffer.attachment(), bound(0x2000, BufferType::VERTEX));
    assert_eq!(mesh.index_buffer.handle(), 0x4000);
    assert_eq!(mesh.index_buffer.byte_len(), 16);
    assert_eq!(mesh.index_buffer.len(), 1);
    assert_eq!(mesh.index_buffer.attachment(), bound(0x2000, BufferType::INDEX));
}

#[test]
fn subdiv_mesh_layout_and_buffers() {
    assert_eq!(SubdivMesh::geometry_type(), GeometryType::SUBDIVISION);
    assert_eq!(
        SubdivMesh::layout(6, 24, 8),
        vec![
            packed(BufferType::VERTEX, Format::FLOAT3, 12, 8),
            packed(BufferType::FACE, Format::UINT, 4, 6),
            packed(BufferType::INDEX, Format::UINT, 4, 24),
        ]
    );
    let device = Device::new(0x1000);
    let mesh = SubdivMesh::unanimated(
        &device,
        0x2000,
        &[0x3000, 0x4000, 0x5000],
        6,
        24,
        8,
        SubdivisionMode::PIN_CORNERS,
        4.0f32.to_bits(),
    );
    assert_eq!(mesh.handle, 0x2000);
    assert_eq!(mesh.subdiv_mode, SubdivisionMode::PIN_CORNERS);
    assert_eq!(mesh.subdiv_level, 0x4080_0000);
    assert_eq!(f32::from_bits(mesh.subdiv_level), 4.0);
    assert_eq!(mesh.vertex_buffer.handle(), 0x3000);
    assert_eq!(mesh.vertex_buffer.byte_len(), 96);
    assert_eq!(mesh.vertex_buffer.attachment(), bound(0x2000, BufferType::VERTEX));
    assert_eq!(mesh.face_buffer.handle(), 0x4000);
    assert_eq!(mesh.face_buffer.byte_len(), 32);
    assert_eq!(mesh.face_buffer.attachment(), bound(0x2000, BufferType::FACE));
    assert_eq!(mesh.index_buffer.handle(), 0x5000);
    assert_eq!(mesh.index_buffer.byte_len(), 96);
    assert_eq!(mesh.index_buffer.attachment(), bound(0x2000, BufferType::INDEX));
}

#[test]
fn linear_curve_geometry_types() {
    assert_eq!(LinearCurve::geometry_type_for(CurveType::Flat), GeometryType::FLAT_LINEAR_CURVE);
    assert_eq!(LinearCurve::geometry_type_for(CurveType::Round), GeometryType::ROUND_LINEAR_CURVE);
    assert_eq!(LinearCurve::geometry_type_for(CurveType::Cone), GeometryType::CONE_LINEAR_CURVE);
    assert_eq!(
        LinearCurve::geometry_type_for(CurveType::NormalOriented),
        GeometryType::FLAT_LINEAR_CURVE
    );
}

#[test]
fn linear_curve_layout() {
    let flags = BufferLayout {
        buf_type: BufferType::FLAGS,
        slot: 0,
        format: Format::UCHAR,
        elem_size: 1,
        len: 5,
        stride: 1,
        count: 5,
    };
    assert_eq!(
        LinearCurve::layout(5, 6, false),
        vec![
            packed(BufferType::VERTEX, Format::FLOAT4, 16, 6),
            packed(BufferType::INDEX, Format::UINT, 4, 5),
            flags,
        ]
    );
    assert_eq!(
        LinearCurve::layout(5, 6, true),
        vec![
            packed(BufferType::VERTEX, Format::FLOAT4, 16, 6),
            packed(BufferType::INDEX, Format::UINT, 4, 5),
            flags,
            packed(BufferType::NORMAL, Format::FLOAT3, 12, 6),
        ]
    );
}

#[test]
fn linear_curve_without_normals() {
    let device = Device::new(0x1000);
    let curve = LinearCurve::flat(&device, 0x2000, &[0x3000, 0x4000, 0x5000], 5, 6, false);
    assert_eq!(curve.geometry_type, GeometryType::FLAT_LINEAR_CURVE);
    assert_eq!(curve.handle, 0x2000);
    assert_eq!(curve.vertex_buffer.handle(), 0x3000);
    assert_eq!(curve.vertex_buffer.byte_len(), 96);
    assert_eq!(curve.vertex_buffer.attachment(), bound(0x2000, BufferType::VERTEX));
    assert_eq!(curve.index_buffer.handle(), 0x4000);
    assert_eq!(curve.index_buffer.byte_len(), 32);
    assert_eq!(curve.index_buffer.attachment(), bound(0x2000, BufferType::INDEX));
    assert_eq!(curve.flag_buffer.handle(), 0x5000);
    assert_eq!(curve.flag_buffer.byte_len(), 16);
    assert_eq!(curve.flag_buffer.elem_size(), 1);
    assert!(curve.flag_buffer.len() >= 5);
    assert_eq!(curve.flag_buffer.attachment(), bound(0x2000, BufferType::FLAGS));
    assert!(curve.normal_buffer.is_none());
}

#[test]
fn linear_curve_with_normals() {
    let device = Device::new(0x1000);
    let handles = [0x3000, 0x4000, 0x5000, 0x6000];
    let round = LinearCurve::round(&device, 0x2000, &handles, 5, 6, true);
    assert_eq!(round.geometry_type, GeometryType::ROUND_LINEAR_CURVE);
    let normals = round.normal_buffer.expect("normals were asked for");
    assert_eq!(normals.handle(), 0x6000);
    assert_eq!(normals.byte_len(), 80);
    assert_eq!(normals.elem_size(), 12);
    assert_eq!(normals.attachment(), bound(0x2000, BufferType::NORMAL));
    let cone = LinearCurve::cone(&device, 0x2008, &handles, 5, 6, true);
    assert_eq!(cone.geometry_type, GeometryType::CONE_LINEAR_CURVE);
    assert_eq!(cone.handle, 0x2008);
    assert!(cone.normal_buffer.is_some());
}

#[test]
fn bspline_curve_geometry_types() {
    assert_eq!(BsplineCurve::geometry_type_for(CurveType::Flat), GeometryType::FLAT_BSPLINE_CURVE);
    assert_eq!(BsplineCurve::geometry_type_for(CurveType::Round), GeometryType::ROUND_BSPLINE_CURVE);
    assert_eq!(
        BsplineCurve::geometry_type_for(CurveType::NormalOriented),
        GeometryType::NORMAL_ORIENTED_BSPLINE_CURVE
    );
    assert_eq!(BsplineCurve::geometry_type_for(CurveType::Cone), GeometryType::FLAT_BSPLINE_CURVE);
}

#[test]
fn bspline_curve_layout_and_buffers() {
    assert_eq!(
        BsplineCurve::layout(3, 6, false),
        vec![
            packed(BufferType::VERTEX, Format::FLOAT4, 16, 6),
            packed(BufferType::INDEX, Format::UINT, 4, 3),
        ]
    );
    assert_eq!(
        BsplineCurve::layout(3, 6, true),
        vec![
            packed(BufferType::VERTEX, Format::FLOAT4, 16, 6),
            packed(BufferType::INDEX, Format::UINT, 4, 3),
            packed(BufferType::NORMAL, Format::FLOAT3, 12, 6),
        ]
    );
    let device = Device::new(0x1000);
    let flat = BsplineCurve::flat(&device, 0x2000, &[0x3000, 0x4000], 3, 6, false);
    assert_eq!(flat.geometry_type, GeometryType::FLAT_BSPLINE_CURVE);
    assert_eq!(flat.vertex_buffer.handle(), 0x3000);
    assert_eq!(flat.vertex_buffer.byte_len(), 96);
    assert_eq!(flat.vertex_buffer.attachment(), bound(0x2000, BufferType::VERTEX));
    assert_eq!(flat.index_buffer.handle(), 0x4000);
    assert_eq!(flat.index_buffer.byte_len(), 16);
    assert_eq!(flat.index_buffer.attachment(), bound(0x2000, BufferType::INDEX));
    assert!(flat.normal_buffer.is_none());
    let round = BsplineCurve::round(&device, 0x2000, &[0x3000, 0x4000, 0x5000], 3, 6, true);
    assert_eq!(round.geometry_type, GeometryType::ROUND_BSPLINE_CURVE);
    assert!(round.normal_buffer.is_some());
}

#[test]
fn normal_oriented_bspline_always_has_normals() {
    let device = Device::new(0x1000);
    let curve = BsplineCurve::normal_oriented(&device, 0x2000, &[0x3000, 0x4000, 0x5000], 3, 6);
    assert_eq!(curve.geometry_type, GeometryType::NORMAL_ORIENTED_BSPLINE_CURVE);
    let normals = curve.normal_buffer.expect("normal-oriented curves carry normals");
    assert_eq!(normals.handle(), 0x5000);
    assert_eq!(normals.byte_len(), 80);
    assert!(normals.len() >= 6);
    assert_eq!(normals.attachment(), bound(0x2000, BufferType::NORMAL));
}

#[test]
fn geometry_reports_handle_and_kind_of_its_variant() {
    let device = Device::new(0x1000);
    let triangle = Geometry::Triangle(TriangleMesh::unanimated(&device, 0x10, &[1, 2], 1, 3));
    assert_eq!(triangle.handle(), 0x10);
    assert_eq!(triangle.geometry_type(), GeometryType::TRIANGLE);
    let quad = Geometry::Quad(QuadMesh::unanimated(&device, 0x20, &[1, 2], 1, 4));
    assert_eq!(quad.handle(), 0x20);
    assert_eq!(quad.geometry_type(), GeometryType::QUAD);
    let subdiv = Geometry::Subdiv(SubdivMesh::unanimated(
        &device,
        0x30,
        &[1, 2, 3],
        1,
        4,
        4,
        SubdivisionMode::SMOOTH_BOUNDARY,
        1.0f32.to_bits(),
    ));
    assert_eq!(subdiv.handle(), 0x30);
    assert_eq!(subdiv.geometry_type(), GeometryType::SUBDIVISION);
    let linear = Geometry::LinearCurve(LinearCurve::cone(&device, 0x40, &[1, 2, 3], 1, 2, false));
    assert_eq!(linear.handle(), 0x40);
    assert_eq!(linear.geometry_type(), GeometryType::CONE_LINEAR_CURVE);
    let bspline = Geometry::BsplineCurve(BsplineCurve::round(&device, 0x50, &[1, 2], 1, 4, false));
    assert_eq!(bspline.handle(), 0x50);
    assert_eq!(bspline.geometry_type(), GeometryType::ROUND_BSPLINE_CURVE);
}

fn in_bounds(entry: &BufferLayout) -> bool {
    let bytes = entry.byte_len().expect("small enough");
    entry.format.size() <= entry.stride && entry.count * entry.stride <= bytes
}

#[test]
fn bindings_stay_inside_their_buffers() {
    for n in 0..20usize {
        for m in 0..20usize {
            assert!(TriangleMesh::layout(n, m).iter().all(in_bounds));
            assert!(QuadMesh::layout(n, m).iter().all(in_bounds));
            assert!(SubdivMesh::layout(n, m, n + m).iter().all(in_bounds));
            assert!(BsplineCurve::layout(n, m, true).iter().all(in_bounds));
            assert!(LinearCurve::layout(n, m, true).iter().all(in_bounds));
            assert!(LinearCurve::layout(n, m, false).iter().all(in_bounds));
            assert!(is_bindable(&LinearCurve::layout(n, m, true)));
            assert!(is_bindable(&SubdivMesh::layout(n, m, n + m)));
        }
    }
}

#[test]
fn flags_of_curves_without_segments_bind_nothing() {
    let layout = LinearCurve::layout(0, 3, false);
    assert_eq!(layout[2], packed(BufferType::FLAGS, Format::UCHAR, 1, 0));
    assert_eq!(layout[2].byte_len(), Some(0));
    assert!(layout[2].fits());
    let device = Device::new(0x1000);
    let curve = LinearCurve::flat(&device, 0x2000, &[0x3000, 0x4000, 0x5000], 0, 3, false);
    assert_eq!(curve.flag_buffer.byte_len(), 0);
    assert_eq!(curve.index_buffer.byte_len(), 0);
    assert_eq!(curve.vertex_buffer.byte_len(), 48);
    assert!(layout[2].count * layout[2].stride <= curve.flag_buffer.byte_len());
}

#[test]
fn fits_tells_overrun_and_overflow() {
    let inside = packed(BufferType::VERTEX, Format::FLOAT3, 12, 4);
    assert!(inside.fits());
    let overrun = BufferLayout { count: 5, ..inside };
    assert!(!overrun.fits());
    let padded_only = BufferLayout { len: 3, stride: 16, count: 3, ..inside };
    assert!(padded_only.fits());
    let narrow = BufferLayout { stride: 8, ..inside };
    assert!(!narrow.fits());
    let too_large = packed(BufferType::VERTEX, Format::FLOAT3, 12, usize::MAX);
    assert!(!too_large.fits());
    let count_overflows = BufferLayout { stride: usize::MAX, count: 2, ..inside };
    assert!(!count_overflows.fits());
    let flags_over_verts = BufferLayout {
        buf_type: BufferType::FLAGS,
        slot: 0,
        format: Format::UCHAR,
        elem_size: 4,
        len: 0,
        stride: 1,
        count: 3,
    };
    assert!(!flags_over_verts.fits());
}

#[test]
fn is_bindable_looks_at_every_buffer() {
    assert!(is_bindable(&Vec::new()));
    assert!(is_bindable(&TriangleMesh::layout(100, 100)));
    assert!(!is_bindable(&TriangleMesh::layout(usize::MAX, 100)));
    let mut layout = QuadMesh::layout(1, 4);
    assert!(is_bindable(&layout));
    layout[1].count = 2;
    assert!(is_allocatable(&layout));
    assert!(!is_bindable(&layout));
}
