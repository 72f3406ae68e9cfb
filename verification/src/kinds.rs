//! The engine's enumerations, as far as geometry construction names them.

use vstd::prelude::*;

verus! {

/// The semantic slot a buffer is bound to on a geometry.
#[allow(non_camel_case_types)]
#[derive(Clone, Copy, Debug, PartialEq, Eq, Structural)]
pub enum BufferType {
    INDEX,
    VERTEX,
    NORMAL,
    TANGENT,
    FACE,
    FLAGS,
}

/// The element format announced to the engine when a buffer is bound.
#[allow(non_camel_case_types)]
#[derive(Clone, Copy, Debug, PartialEq, Eq, Structural)]
pub enum Format {
    UCHAR,
    UINT,
    UINT3,
    UINT4,
    FLOAT3,
    FLOAT4,
    FLOAT4X4_COLUMN_MAJOR,
}

/// The kind of geometry the engine is asked to create.
#[allow(non_camel_case_types)]
#[derive(Clone, Copy, Debug, PartialEq, Eq, Structural)]
pub enum GeometryType {
    TRIANGLE,
    QUAD,
    SUBDIVISION,
    CONE_LINEAR_CURVE,
    ROUND_LINEAR_CURVE,
    FLAT_LINEAR_CURVE,
    ROUND_BSPLINE_CURVE,
    FLAT_BSPLINE_CURVE,
    NORMAL_ORIENTED_BSPLINE_CURVE,
    INSTANCE,
}

/// The style in which a curve is swept around its control points.
#[derive(Clone, Copy, Debug, PartialEq, Eq, Structural)]
pub enum CurveType {
    Flat,
    Round,
    NormalOriented,
    Cone,
}

/// How the boundary of a subdivision surface is treated.
#[allow(non_camel_case_types)]
#[derive(Clone, Copy, Debug, PartialEq, Eq, Structural)]
pub enum SubdivisionMode {
    NO_BOUNDARY,
    SMOOTH_BOUNDARY,
    PIN_CORNERS,
    PIN_BOUNDARY,
    PIN_ALL,
}

impl Format {
    /// The number of bytes one element of this format occupies.
    pub open spec fn spec_size(self) -> usize {
        match self {
            Format::UCHAR => 1,
            Format::UINT => 4,
            Format::UINT3 => 12,
            Format::UINT4 => 16,
            Format::FLOAT3 => 12,
            Format::FLOAT4 => 16,
            Format::FLOAT4X4_COLUMN_MAJOR => 64,
        }
    }

    /// The number of bytes one element of this format occupies.
    #[verifier::when_used_as_spec(spec_size)]
    pub fn size(self) -> (bytes: usize)
        ensures
            bytes == self.spec_size(),
    {
        match self {
            Format::UCHAR => 1,
            Format::UINT => 4,
            Format::UINT3 => 12,
            Format::UINT4 => 16,
            Format::FLOAT3 => 12,
            Format::FLOAT4 => 16,
            Format::FLOAT4X4_COLUMN_MAJOR => 64,
        }
    }
}

} // verus!
