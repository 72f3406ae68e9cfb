//! Bookkeeping for geometry that lives inside a native ray-tracing engine.
//!
//! The engine owns every buffer and every geometry; this library decides how
//! large each buffer has to be, how it is bound to its geometry, and which
//! binding each buffer currently records. Engine objects are named by the
//! address the engine returned for them, with 0 standing for the null handle.

pub mod bspline_curve;
pub mod buffer;
pub mod device;
pub mod geometry;
pub mod instance;
pub mod kinds;
pub mod layout;
pub mod linear_curve;
pub mod quad_mesh;
pub mod scene;
pub mod subdiv_mesh;
pub mod triangle_mesh;

pub use bspline_curve::BsplineCurve;
pub use buffer::{Buffer, BufferAttachment};
pub use device::Device;
pub use geometry::Geometry;
pub use instance::Instance;
pub use kinds::{BufferType, CurveType, Format, GeometryType, SubdivisionMode};
pub use layout::BufferLayout;
pub use linear_curve::LinearCurve;
pub use quad_mesh::QuadMesh;
pub use scene::{hit_id, CommittedScene, Scene, INVALID_ID};
pub use subdiv_mesh::SubdivMesh;
pub use triangle_mesh::TriangleMesh;
