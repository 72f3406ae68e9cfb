//! How the buffers of a geometry are sized and bound.

use vstd::prelude::*;
use crate::buffer::{byte_size, padded_size, Buffer, BufferAttachment};
use crate::device::Device;
use crate::kinds::{BufferType, Format};

verus! {

/// The allocation and the binding of one buffer of a geometry.
///
/// The buffer is allocated for `len` elements of `elem_size` bytes and bound
/// under `(buf_type, slot)`, from its first byte on, as `count` items of
/// `format` that lie `stride` bytes apart.
#[derive(Clone, Copy, Debug, PartialEq, Eq, Structural)]
pub struct BufferLayout {
    pub buf_type: BufferType,
    pub slot: u32,
    pub format: Format,
    pub elem_size: usize,
    pub len: usize,
    pub stride: usize,
    pub count: usize,
}

impl BufferLayout {
    /// The layout of `len` elements of `elem_size` bytes that are bound
    /// under slot 0, one item to each element.
    pub open spec fn spec_packed(buf_type: BufferType, format: Format, elem_size: usize, len: usize) -> BufferLayout {
        BufferLayout { buf_type, slot: 0, format, elem_size, len, stride: elem_size, count: len }
    }

    /// The layout of `len` elements of `elem_size` bytes that are bound
    /// under slot 0, one item to each element.
    #[verifier::when_used_as_spec(spec_packed)]
    pub fn packed(buf_type: BufferType, format: Format, elem_size: usize, len: usize) -> (layout: BufferLayout)
        ensures
            layout == Self::spec_packed(buf_type, format, elem_size, len),
    {
        BufferLayout { buf_type, slot: 0, format, elem_size, len, stride: elem_size, count: len }
    }

    /// The number of bytes the buffer spans once it is padded.
    pub open spec fn spec_byte_len(&self) -> nat {
        padded_size((self.len * self.elem_size) as nat)
    }

    /// The padded buffer fits the address space.
    pub open spec fn allocatable(&self) -> bool {
        self.spec_byte_len() <= usize::MAX
    }

    /// Every item the binding announces lies inside the padded buffer.
    pub open spec fn in_bounds(&self) -> bool {
        &&& self.format.size() <= self.stride
        &&& self.count * self.stride <= self.spec_byte_len()
    }

    /// Every item the binding announces lies inside `buffer`.
    pub open spec fn held_by(&self, buffer: &Buffer) -> bool {
        &&& self.format.size() <= self.stride
        &&& self.count * self.stride <= buffer.byte_len()
    }

    /// `buffer` is the buffer of this layout that the engine allocated at
    /// `handle` on `device`, and it records its binding to `geom`.
    pub open spec fn describes(&self, buffer: &Buffer, device: &Device, geom: usize, handle: usize) -> bool {
        &&& buffer.device() == device
        &&& buffer.handle() == handle
        &&& buffer.byte_len() == self.spec_byte_len()
        &&& buffer.elem_size() == self.elem_size
        &&& buffer.attachment() == (BufferAttachment {
            geom,
            buf_type: self.buf_type,
            slot: self.slot,
        })
    }

    /// The number of bytes to allocate for the buffer, or `None` where the
    /// layout is not allocatable.
    pub fn byte_len(&self) -> (bytes: Option<usize>)
        ensures
            self.allocatable() ==> bytes == Some(self.spec_byte_len() as usize),
            !self.allocatable() ==> bytes is None,
    {
        byte_size(self.len, self.elem_size)
    }

    /// Whether the buffer can be allocated and its binding then stays
    /// inside it.
    pub fn fits(&self) -> (ok: bool)
        ensures
            ok == (self.allocatable() && self.in_bounds()),
    {
        match self.byte_len() {
            None => false,
            Some(bytes) => {
                if self.format.size() > self.stride {
                    false
                } else {
                    match self.count.checked_mul(self.stride) {
                        Some(bound) => bound <= bytes,
                        None => false,
                    }
                }
            },
        }
    }

    /// Records the buffer that the engine allocated at `handle` for this
    /// layout, bound to the geometry at `geom`.
    pub fn bind<'a>(&self, device: &'a Device, geom: usize, handle: usize) -> (buffer: Buffer<'a>)
        requires
            self.allocatable(),
        ensures
            self.describes(&buffer, device, geom, handle),
            self.elem_size > 0 ==> buffer.len() >= self.len,
            self.in_bounds() ==> self.held_by(&buffer),
    {
        let mut buffer = Buffer::new(device, handle, self.len, self.elem_size);
        buffer.set_attachment(geom, self.buf_type, self.slot);
        buffer
    }
}

/// Every buffer of `layout` is allocatable.
pub open spec fn all_allocatable(layout: Seq<BufferLayout>) -> bool {
    forall|i: int| 0 <= i < layout.len() ==> (#[trigger] layout[i]).allocatable()
}

/// Every binding of `layout` stays inside its buffer.
pub open spec fn all_in_bounds(layout: Seq<BufferLayout>) -> bool {
    forall|i: int| 0 <= i < layout.len() ==> (#[trigger] layout[i]).in_bounds()
}

/// Whether every buffer of `layout` is allocatable.
pub fn is_allocatable(layout: &Vec<BufferLayout>) -> (ok: bool)
    ensures
        ok == all_allocatable(layout@),
{
    let mut i: usize = 0;
    while i < layout.len()
        invariant
            i <= layout.len(),
            forall|j: int| 0 <= j < i ==> (#[trigger] layout@[j]).allocatable(),
        decreases layout.len() - i,
    {
        if layout[i].byte_len().is_none() {
            return false;
        }
        i += 1;
    }
    true
}

/// Whether every buffer of `layout` is allocatable and every binding of it
/// stays inside its buffer.
pub fn is_bindable(layout: &Vec<BufferLayout>) -> (ok: bool)
    ensures
        ok == (all_allocatable(layout@) && all_in_bounds(layout@)),
{
    let mut i: usize = 0;
    while i < layout.len()
        invariant
            i <= layout.len(),
            forall|j: int| 0 <= j < i ==> (#[trigger] layout@[j]).allocatable(),
            forall|j: int| 0 <= j < i ==> (#[trigger] layout@[j]).in_bounds(),
        decreases layout.len() - i,
    {
        if !layout[i].fits() {
            return false;
        }
        i += 1;
    }
    true
}

} // verus!
