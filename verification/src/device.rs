//! The handle of one engine instance.

use vstd::prelude::*;

verus! {

/// One instance of the engine. Every buffer, geometry and scene borrows the
/// device it was created on, so none of them can outlive it.
pub struct Device {
    handle: usize,
}

impl Device {
    /// The address of the engine instance.
    pub closed spec fn spec_handle(&self) -> usize {
        self.handle
    }

    /// Records the engine instance that lives at `handle`.
    pub fn new(handle: usize) -> (device: Device)
        ensures
            device.handle() == handle,
    {
        Device { handle }
    }

    /// The address of the engine instance.
    #[verifier::when_used_as_spec(spec_handle)]
    pub fn handle(&self) -> (handle: usize)
        ensures
            handle == self.spec_handle(),
    {
        self.handle
    }
}

} // verus!
