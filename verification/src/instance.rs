//! Instances: a committed scene placed into another scene under a transform.

use vstd::prelude::*;
use crate::device::Device;
use crate::kinds::{Format, GeometryType};
use crate::scene::CommittedScene;

verus! {

/// `ultraviolet::Mat4`: a 4x4 matrix of single-precision floats, held as four
/// columns. Nothing inside it is visible here.
#[verifier::external_type_specification]
#[verifier::external_body]
pub struct ExMat4(ultraviolet::Mat4);

/// The sixteen entries of `matrix`, column by column, each as the bit pattern
/// of its float.
pub uninterp spec fn mat4_columns(matrix: ultraviolet::Mat4) -> Seq<u32>;

/// Reads the entries of `matrix` in the order of `Mat4::as_array`, which is
/// column by column, and turns each float into its bit pattern with
/// `to_bits`. The contract only names what comes out.
#[verifier::external_body]
fn columns_of(matrix: &ultraviolet::Mat4) -> (columns: [u32; 16])
    ensures
        columns@ == mat4_columns(*matrix),
{
    let entries = matrix.as_array();
    let mut columns = [0u32; 16];
    for (column, entry) in columns.iter_mut().zip(entries.iter()) {
        *column = entry.to_bits();
    }
    columns
}

/// A geometry that shows a committed scene once more. It owns no vertex
/// data; it borrows the snapshot it shows, which therefore outlives it.
pub struct Instance<'a> {
    /// The device the instance was created on.
    pub device: &'a Device,
    /// The address of the engine's geometry object.
    pub handle: usize,
    /// The scene being instanced.
    pub scene: &'a CommittedScene<'a>,
    /// The transform that was last set, or `None` where none was: sixteen
    /// single-precision floats, column by column, each as its bit pattern.
    pub transform: Option<[u32; 16]>,
}

impl<'a> Instance<'a> {
    /// The address of the engine's scene object that the instance shows.
    pub open spec fn spec_instanced_scene(&self) -> usize {
        self.scene.scene.handle()
    }

    /// The kind of geometry to create for an instance.
    pub fn geometry_type() -> (kind: GeometryType)
        ensures
            kind == GeometryType::INSTANCE,
    {
        GeometryType::INSTANCE
    }

    /// The format in which the engine is handed an instance's transform:
    /// sixteen floats, column by column.
    pub fn transform_format() -> (format: Format)
        ensures
            format == Format::FLOAT4X4_COLUMN_MAJOR,
            format.size() == 64,
    {
        Format::FLOAT4X4_COLUMN_MAJOR
    }

    /// Records the instance that the engine created at `handle` to show
    /// `scene`. No transform is set yet.
    pub fn unanimated(device: &'a Device, handle: usize, scene: &'a CommittedScene<'a>) -> (instance: Instance<'a>)
        ensures
            instance.device == device,
            instance.handle == handle,
            instance.scene == scene,
            instance.transform is None,
            instance.instanced_scene() == scene.scene.handle(),
    {
        Instance { device, handle, scene, transform: None }
    }

    /// Replaces the instance's transform by `transform`. Any matrix is
    /// taken: nothing is asked of its entries.
    pub fn set_transform(&mut self, transform: &ultraviolet::Mat4)
        ensures
            final(self).transform matches Some(columns) && columns@ == mat4_columns(*transform),
            final(self).device == old(self).device,
            final(self).handle == old(self).handle,
            final(self).scene == old(self).scene,
    {
        let columns = columns_of(transform);
        self.set_transform_columns(&columns);
    }

    /// Replaces the instance's transform by the matrix whose entries have
    /// the bit patterns `columns`, column by column.
    pub fn set_transform_columns(&mut self, columns: &[u32; 16])
        ensures
            final(self).transform == Some(*columns),
            final(self).device == old(self).device,
            final(self).handle == old(self).handle,
            final(self).scene == old(self).scene,
    {
        self.transform = Some(*columns);
    }

    /// The address of the engine's scene object that the instance shows.
    #[verifier::when_used_as_spec(spec_instanced_scene)]
    pub fn instanced_scene(&self) -> (handle: usize)
        ensures
            handle == self.spec_instanced_scene(),
    {
        self.scene.scene.handle()
    }
}

} // verus!
