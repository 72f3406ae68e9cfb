//! The closed set of geometries a scene can hold.

use vstd::prelude::*;
use crate::bspline_curve::BsplineCurve;
use crate::instance::Instance;
use crate::kinds::GeometryType;
use crate::linear_curve::LinearCurve;
use crate::quad_mesh::QuadMesh;
use crate::subdiv_mesh::SubdivMesh;
use crate::triangle_mesh::TriangleMesh;

verus! {

/// One geometry of any kind.
pub enum Geometry<'a> {
    Triangle(TriangleMesh<'a>),
    Quad(QuadMesh<'a>),
    Subdiv(SubdivMesh<'a>),
    LinearCurve(LinearCurve<'a>),
    BsplineCurve(BsplineCurve<'a>),
    Instance(Instance<'a>),
}

impl<'a> Geometry<'a> {
    /// The address of the engine's geometry object.
    pub open spec fn spec_handle(&self) -> usize {
        match self {
            Geometry::Triangle(mesh) => mesh.handle,
            Geometry::Quad(mesh) => mesh.handle,
            Geometry::Subdiv(mesh) => mesh.handle,
            Geometry::LinearCurve(curve) => curve.handle,
            Geometry::BsplineCurve(curve) => curve.handle,
            Geometry::Instance(instance) => instance.handle,
        }
    }

    /// The kind of geometry the engine was asked for.
    pub open spec fn spec_geometry_type(&self) -> GeometryType {
        match self {
            Geometry::Triangle(_) => GeometryType::TRIANGLE,
            Geometry::Quad(_) => GeometryType::QUAD,
            Geometry::Subdiv(_) => GeometryType::SUBDIVISION,
            Geometry::LinearCurve(curve) => curve.geometry_type,
            Geometry::BsplineCurve(curve) => curve.geometry_type,
            Geometry::Instance(_) => GeometryType::INSTANCE,
        }
    }

    /// Every buffer of the geometry lives on the geometry's device and
    /// records the binding under which the geometry refers to it.
    pub open spec fn well_formed(&self) -> bool {
        match self {
            Geometry::Triangle(mesh) => mesh.well_formed(),
            Geometry::Quad(mesh) => mesh.well_formed(),
            Geometry::Subdiv(mesh) => mesh.well_formed(),
            Geometry::LinearCurve(curve) => curve.well_formed(),
            Geometry::BsplineCurve(curve) => curve.well_formed(),
            Geometry::Instance(_) => true,
        }
    }

    /// The address of the engine's geometry object.
    #[verifier::when_used_as_spec(spec_handle)]
    pub fn handle(&self) -> (handle: usize)
        ensures
            handle == self.spec_handle(),
    {
        match self {
            Geometry::Triangle(mesh) => mesh.handle,
            Geometry::Quad(mesh) => mesh.handle,
            Geometry::Subdiv(mesh) => mesh.handle,
            Geometry::LinearCurve(curve) => curve.handle,
            Geometry::BsplineCurve(curve) => curve.handle,
            Geometry::Instance(instance) => instance.handle,
        }
    }

    /// The kind of geometry the engine was asked for.
    #[verifier::when_used_as_spec(spec_geometry_type)]
    pub fn geometry_type(&self) -> (kind: GeometryType)
        ensures
            kind == self.spec_geometry_type(),
    {
        match self {
            Geometry::Triangle(_) => GeometryType::TRIANGLE,
            Geometry::Quad(_) => GeometryType::QUAD,
            Geometry::Subdiv(_) => GeometryType::SUBDIVISION,
            Geometry::LinearCurve(curve) => curve.geometry_type,
            Geometry::BsplineCurve(curve) => curve.geometry_type,
            Geometry::Instance(_) => GeometryType::INSTANCE,
        }
    }
}

} // verus!
