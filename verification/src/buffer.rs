//! Engine-owned buffers: how many bytes they span and what they are bound to.

use vstd::prelude::*;
use crate::device::Device;
use crate::kinds::BufferType;

verus! {

/// The smallest multiple of 16 that is not below `bytes`.
pub open spec fn padded_size(bytes: nat) -> nat {
    (((bytes + 15) / 16) * 16) as nat
}

/// `padded_size(bytes)` is a multiple of 16 that lies less than 16 above
/// `bytes`, and is `bytes` itself where that is a multiple of 16.
pub proof fn lemma_padded_size_is_next_multiple(bytes: nat)
    ensures
        padded_size(bytes) % 16 == 0,
        bytes <= padded_size(bytes) < bytes + 16,
        bytes % 16 == 0 ==> padded_size(bytes) == bytes,
{
}

/// No multiple of 16 lies between `bytes` and `padded_size(bytes)`.
pub proof fn lemma_padded_size_is_least(bytes: nat, multiple: nat)
    requires
        multiple % 16 == 0,
        bytes <= multiple,
    ensures
        padded_size(bytes) <= multiple,
{
}

/// Padding adds room behind the last element only where the elements do not
/// fill a multiple of 16 bytes. For elements of 12 bytes, a read of 16 bytes
/// from the start of the last element stays inside the padded region exactly
/// where `len` is not a multiple of 4.
pub proof fn lemma_wide_read_of_last_triple(len: nat)
    requires
        len > 0,
    ensures
        (len - 1) * 12 + 16 <= padded_size(len * 12) <==> len % 4 != 0,
{
}

/// Rounds `bytes` up to a multiple of 16, or reports that the result does not
/// fit the address space.
pub fn padded(bytes: usize) -> (padded: Option<usize>)
    ensures
        padded_size(bytes as nat) <= usize::MAX ==> padded == Some(padded_size(bytes as nat) as usize),
        padded_size(bytes as nat) > usize::MAX ==> padded is None,
{
    let rest: usize = bytes % 16;
    if rest == 0 {
        Some(bytes)
    } else {
        bytes.checked_add(16 - rest)
    }
}

/// The padded number of bytes that `len` elements of `elem_size` bytes need,
/// or `None` where that number does not fit the address space.
pub fn byte_size(len: usize, elem_size: usize) -> (bytes: Option<usize>)
    ensures
        padded_size((len * elem_size) as nat) <= usize::MAX ==> bytes == Some(
            padded_size((len * elem_size) as nat) as usize,
        ),
        padded_size((len * elem_size) as nat) > usize::MAX ==> bytes is None,
{
    proof {
        assert(len * elem_size >= 0) by (nonlinear_arith);
    }
    match len.checked_mul(elem_size) {
        Some(exact) => padded(exact),
        None => None,
    }
}

/// The binding a buffer records: the geometry it is bound to, under which
/// semantic slot, and at which index of that slot.
#[derive(Clone, Copy, Debug, PartialEq, Eq, Structural)]
pub struct BufferAttachment {
    pub geom: usize,
    pub buf_type: BufferType,
    pub slot: u32,
}

impl BufferAttachment {
    /// The record of a buffer that is bound to nothing.
    pub open spec fn spec_none() -> BufferAttachment {
        BufferAttachment { geom: 0, buf_type: BufferType::VERTEX, slot: u32::MAX }
    }

    /// The record names a geometry.
    pub open spec fn spec_is_attached(&self) -> bool {
        self.geom != 0
    }

    /// The record of a buffer that is bound to nothing.
    #[verifier::when_used_as_spec(spec_none)]
    pub fn none() -> (attachment: BufferAttachment)
        ensures
            attachment == BufferAttachment::spec_none(),
            !attachment.is_attached(),
    {
        BufferAttachment { geom: 0, buf_type: BufferType::VERTEX, slot: u32::MAX }
    }

    /// Whether the record names a geometry.
    #[verifier::when_used_as_spec(spec_is_attached)]
    pub fn is_attached(&self) -> (attached: bool)
        ensures
            attached == self.spec_is_attached(),
    {
        self.geom != 0
    }
}

/// A contiguous region of engine memory that holds elements of one size.
///
/// The region is padded to a multiple of 16 bytes, so it may hold more
/// elements than were asked for.
pub struct Buffer<'a> {
    device: &'a Device,
    handle: usize,
    bytes: usize,
    elem_size: usize,
    attachment: BufferAttachment,
}

impl<'a> Buffer<'a> {
    /// The device the buffer was allocated on.
    pub closed spec fn spec_device(&self) -> &'a Device {
        self.device
    }

    /// The address of the engine's buffer object.
    pub closed spec fn spec_handle(&self) -> usize {
        self.handle
    }

    /// The number of bytes the region spans.
    pub closed spec fn spec_byte_len(&self) -> usize {
        self.bytes
    }

    /// The number of bytes one element occupies.
    pub closed spec fn spec_elem_size(&self) -> usize {
        self.elem_size
    }

    /// The binding the buffer records.
    pub closed spec fn spec_attachment(&self) -> BufferAttachment {
        self.attachment
    }

    /// The number of whole elements the region holds.
    pub open spec fn spec_len(&self) -> usize {
        (self.byte_len() / self.elem_size()) as usize
    }

    /// The buffer lives on `device` and records that it is bound to `geom`
    /// under `buf_type`, at slot 0.
    pub open spec fn bound_on(&self, device: &Device, geom: usize, buf_type: BufferType) -> bool {
        &&& self.device() == device
        &&& self.attachment() == (BufferAttachment { geom, buf_type, slot: 0 })
    }

    #[verifier::type_invariant]
    spec fn well_formed(&self) -> bool {
        self.bytes % 16 == 0
    }

    /// Records a buffer that the engine allocated at `handle` for `bytes`
    /// bytes, padded to a multiple of 16, of elements of `elem_size` bytes.
    pub fn raw(device: &'a Device, handle: usize, bytes: usize, elem_size: usize) -> (buffer: Buffer<'a>)
        requires
            padded_size(bytes as nat) <= usize::MAX,
        ensures
            buffer.device() == device,
            buffer.handle() == handle,
            buffer.byte_len() == padded_size(bytes as nat),
            buffer.elem_size() == elem_size,
            buffer.attachment() == BufferAttachment::none(),
    {
        let rest: usize = bytes % 16;
        let bytes: usize = if rest == 0 {
            bytes
        } else {
            bytes + (16 - rest)
        };
        Buffer { device, handle, bytes, elem_size, attachment: BufferAttachment::none() }
    }

    /// Records a buffer that the engine allocated at `handle` for `len`
    /// elements of `elem_size` bytes, padded to a multiple of 16 bytes.
    pub fn new(device: &'a Device, handle: usize, len: usize, elem_size: usize) -> (buffer: Buffer<'a>)
        requires
            padded_size((len * elem_size) as nat) <= usize::MAX,
        ensures
            buffer.device() == device,
            buffer.handle() == handle,
            buffer.byte_len() == padded_size((len * elem_size) as nat),
            buffer.elem_size() == elem_size,
            buffer.attachment() == BufferAttachment::none(),
            elem_size > 0 ==> buffer.len() >= len,
    {
        proof {
            assert(len * elem_size >= 0) by (nonlinear_arith);
            if elem_size > 0 {
                lemma_len_covers(len as nat, elem_size as nat);
            }
        }
        Buffer::raw(device, handle, len * elem_size, elem_size)
    }

    /// The device the buffer was allocated on.
    #[verifier::when_used_as_spec(spec_device)]
    pub fn device(&self) -> (device: &'a Device)
        ensures
            device == self.spec_device(),
    {
        self.device
    }

    /// The address of the engine's buffer object.
    #[verifier::when_used_as_spec(spec_handle)]
    pub fn handle(&self) -> (handle: usize)
        ensures
            handle == self.spec_handle(),
    {
        self.handle
    }

    /// The number of bytes the region spans: always a multiple of 16.
    #[verifier::when_used_as_spec(spec_byte_len)]
    pub fn byte_len(&self) -> (bytes: usize)
        ensures
            bytes == self.spec_byte_len(),
            bytes % 16 == 0,
    {
        proof {
            use_type_invariant(self);
        }
        self.bytes
    }

    /// The number of bytes one element occupies.
    #[verifier::when_used_as_spec(spec_elem_size)]
    pub fn elem_size(&self) -> (elem_size: usize)
        ensures
            elem_size == self.spec_elem_size(),
    {
        self.elem_size
    }

    /// The binding the buffer records.
    #[verifier::when_used_as_spec(spec_attachment)]
    pub fn attachment(&self) -> (attachment: BufferAttachment)
        ensures
            attachment == self.spec_attachment(),
    {
        self.attachment
    }

    /// The number of whole elements the region holds: the length of the
    /// views the engine's memory is exposed through. Elements without a
    /// size cannot be counted.
    #[verifier::when_used_as_spec(spec_len)]
    pub fn len(&self) -> (len: usize)
        requires
            self.elem_size() > 0,
        ensures
            len == self.spec_len(),
    {
        self.bytes / self.elem_size
    }

    /// Replaces the recorded binding by `(geom, buf_type, slot)`.
    pub fn set_attachment(&mut self, geom: usize, buf_type: BufferType, slot: u32)
        ensures
            final(self).attachment() == (BufferAttachment { geom, buf_type, slot }),
            final(self).device() == old(self).device(),
            final(self).handle() == old(self).handle(),
            final(self).byte_len() == old(self).byte_len(),
            final(self).elem_size() == old(self).elem_size(),
    {
        proof {
            use_type_invariant(&*self);
        }
        self.attachment.geom = geom;
        self.attachment.buf_type = buf_type;
        self.attachment.slot = slot;
    }
}

/// A region padded from `len` elements holds at least `len` whole elements.
pub proof fn lemma_len_covers(len: nat, elem_size: nat)
    requires
        elem_size > 0,
    ensures
        padded_size(len * elem_size) / elem_size >= len,
{
    let exact: nat = len * elem_size;
    assert(padded_size(exact) >= exact);
    assert(exact / elem_size == len) by (nonlinear_arith)
        requires
            exact == len * elem_size,
            elem_size > 0,
    ;
    assert(padded_size(exact) / elem_size >= exact / elem_size) by (nonlinear_arith)
        requires
            padded_size(exact) >= exact,
            elem_size > 0,
    ;
}

} // verus!
