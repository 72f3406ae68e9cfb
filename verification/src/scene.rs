//! Scenes: geometries under stable ids, and the snapshots queries run on.

use vstd::prelude::*;
use crate::device::Device;
use crate::geometry::Geometry;

verus! {

/// The geometry id that a query reports where nothing was hit. No attached
/// geometry ever has it.
pub const INVALID_ID: u32 = 0xFFFF_FFFF;

/// The id of the geometry that a query hit, read from the geometry id it
/// reported: `None` exactly where the query reported `INVALID_ID`.
pub fn hit_id(geom_id: u32) -> (hit: Option<u32>)
    ensures
        geom_id == INVALID_ID <==> hit is None,
        geom_id != INVALID_ID ==> hit == Some(geom_id),
{
    if geom_id == INVALID_ID {
        None
    } else {
        Some(geom_id)
    }
}

/// A set of attached geometries. A geometry's id is the number of
/// geometries that were attached before it, and never changes.
pub struct Scene<'a> {
    device: &'a Device,
    handle: usize,
    geometry: Vec<Geometry<'a>>,
}

/// A scene as it was committed: the snapshot that queries run on. It
/// borrows the scene, so the scene cannot change while the snapshot is held.
pub struct CommittedScene<'a> {
    pub scene: &'a Scene<'a>,
}

impl<'a> Scene<'a> {
    /// The device the scene was created on.
    pub closed spec fn spec_device(&self) -> &'a Device {
        self.device
    }

    /// The address of the engine's scene object.
    pub closed spec fn spec_handle(&self) -> usize {
        self.handle
    }

    /// The attached geometries; the geometry with id `i` stands at index `i`.
    pub closed spec fn geometries(&self) -> Seq<Geometry<'a>> {
        self.geometry@
    }

    /// The number of attached geometries.
    pub open spec fn spec_len(&self) -> usize {
        self.geometries().len() as usize
    }

    /// The geometry with id `id`, if one was attached under it.
    pub open spec fn spec_geometry(&self, id: u32) -> Option<&Geometry<'a>> {
        if id < self.geometries().len() {
            Some(&self.geometries()[id as int])
        } else {
            None
        }
    }

    /// Every attached geometry is well formed: its buffers record the
    /// binding under which it refers to them.
    pub open spec fn bindings_recorded(&self) -> bool {
        forall|id: int| 0 <= id < self.geometries().len() ==> (#[trigger] self.geometries()[id]).well_formed()
    }

    /// The ids in use all lie below `INVALID_ID`.
    pub closed spec fn well_formed(&self) -> bool {
        self.geometry@.len() <= INVALID_ID
    }

    /// Records the empty scene that the engine created at `handle`.
    pub fn new(device: &'a Device, handle: usize) -> (scene: Scene<'a>)
        ensures
            scene.device() == device,
            scene.handle() == handle,
            scene.geometries() == Seq::<Geometry<'a>>::empty(),
            scene.well_formed(),
    {
        Scene { device, handle, geometry: Vec::new() }
    }

    /// Takes `geometry` into the scene and returns its id: the number of
    /// geometries attached before it. Every earlier geometry keeps its id.
    pub fn attach_geometry(&mut self, geometry: Geometry<'a>) -> (id: u32)
        requires
            old(self).len() < INVALID_ID,
        ensures
            id == old(self).len(),
            id != INVALID_ID,
            final(self).geometries() == old(self).geometries().push(geometry),
            final(self).device() == old(self).device(),
            final(self).handle() == old(self).handle(),
            final(self).well_formed(),
            old(self).bindings_recorded() && geometry.well_formed() ==> final(self).bindings_recorded(),
    {
        let id: u32 = self.geometry.len() as u32;
        self.geometry.push(geometry);
        id
    }

    /// The snapshot of the scene as it stands. The scene can be changed
    /// again, and committed again, once the snapshot is let go.
    pub fn commit(&self) -> (committed: CommittedScene<'_>)
        ensures
            committed.scene == self,
    {
        CommittedScene { scene: self }
    }

    /// The geometry with id `id`, to be updated in place, or `None` where no
    /// geometry has that id. No other geometry changes, and no id.
    pub fn geometry_mut(&mut self, id: u32) -> (found: Option<&mut Geometry<'a>>)
        ensures
            id < old(self).geometries().len() ==> {
                &&& found matches Some(geometry)
                &&& *geometry == old(self).geometries()[id as int]
                &&& final(self).geometries() == old(self).geometries().update(id as int, *final(geometry))
            },
            id >= old(self).geometries().len() ==> {
                &&& found is None
                &&& final(self).geometries() == old(self).geometries()
            },
            final(self).device() == old(self).device(),
            final(self).handle() == old(self).handle(),
            final(self).well_formed() == old(self).well_formed(),
    {
        if (id as usize) < self.geometry.len() {
            Some(&mut self.geometry[id as usize])
        } else {
            None
        }
    }

    /// The device the scene was created on.
    #[verifier::when_used_as_spec(spec_device)]
    pub fn device(&self) -> (device: &'a Device)
        ensures
            device == self.spec_device(),
    {
        self.device
    }

    /// The address of the engine's scene object.
    #[verifier::when_used_as_spec(spec_handle)]
    pub fn handle(&self) -> (handle: usize)
        ensures
            handle == self.spec_handle(),
    {
        self.handle
    }

    /// The number of attached geometries.
    #[verifier::when_used_as_spec(spec_len)]
    pub fn len(&self) -> (len: usize)
        ensures
            len == self.spec_len(),
            len == self.geometries().len(),
    {
        self.geometry.len()
    }

    /// The geometry with id `id`, or `None` where no geometry has that id.
    #[verifier::when_used_as_spec(spec_geometry)]
    pub fn geometry(&self, id: u32) -> (found: Option<&Geometry<'a>>)
        ensures
            found == self.spec_geometry(id),
    {
        if (id as usize) < self.geometry.len() {
            Some(&self.geometry[id as usize])
        } else {
            None
        }
    }
}

/// No geometry of a scene has the id that stands for "nothing was hit".
pub proof fn lemma_invalid_id_names_no_geometry(scene: &Scene)
    requires
        scene.well_formed(),
    ensures
        scene.geometry(INVALID_ID) is None,
{
}

/// Attaching a geometry gives it the id that follows the ids in use, leaves
/// the id after that free, and changes neither the id of an earlier geometry
/// nor the geometry found under it.
pub proof fn lemma_ids_are_dense_and_stable(before: &Scene, after: &Scene, geometry: Geometry)
    requires
        before.well_formed(),
        before.len() < INVALID_ID,
        after.geometries() == before.geometries().push(geometry),
    ensures
        forall|id: u32| id < before.len() ==> after.geometry(id) == #[trigger] before.geometry(id),
        after.geometry(before.len() as u32) == Some(&geometry),
        after.geometry((before.len() + 1) as u32) is None,
{
}

} // verus!
