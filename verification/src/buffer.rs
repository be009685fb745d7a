//! Buffer objects: one owning handle per driver-side buffer, bound through
//! the context's buffer slots, with the read/write copy sub-slots that
//! buffer-to-buffer copies use independently of the general slots.
use vstd::prelude::*;

verus! {

use crate::call::{Call, DriverCall};
use crate::consts::{
    GL_STATIC_READ, GL_STATIC_COPY, GL_STATIC_DRAW, GL_STREAM_READ, GL_STREAM_COPY,
    GL_STREAM_DRAW, GL_DYNAMIC_READ, GL_DYNAMIC_COPY, GL_DYNAMIC_DRAW,
};
use crate::context::{alloc_call, bind_call, dealloc_call, GlContext, ResourceCategory, SlotKind};
use crate::{GlBind, GlObject, GlTarget};

/// The usage hint handed to the driver with a full buffer upload.
#[derive(Default, Debug, PartialEq, Eq, Clone, Copy, Structural)]
pub enum BufferUsage {
    StaticRead,
    StaticCopy,
    StaticDraw,
    StreamRead,
    StreamCopy,
    StreamDraw,
    DynamicRead,
    DynamicCopy,
    #[default]
    DynamicDraw,
}

impl BufferUsage {
    pub open spec fn enum_spec(self) -> u32 {
        match self {
            BufferUsage::StaticRead => GL_STATIC_READ,
            BufferUsage::StaticCopy => GL_STATIC_COPY,
            BufferUsage::StaticDraw => GL_STATIC_DRAW,
            BufferUsage::StreamRead => GL_STREAM_READ,
            BufferUsage::StreamCopy => GL_STREAM_COPY,
            BufferUsage::StreamDraw => GL_STREAM_DRAW,
            BufferUsage::DynamicRead => GL_DYNAMIC_READ,
            BufferUsage::DynamicCopy => GL_DYNAMIC_COPY,
            BufferUsage::DynamicDraw => GL_DYNAMIC_DRAW,
        }
    }

    pub fn to_enum(&self) -> (r: u32)
        ensures
            r == self.enum_spec(),
    {
        match self {
            BufferUsage::StaticRead => GL_STATIC_READ,
            BufferUsage::StaticCopy => GL_STATIC_COPY,
            BufferUsage::StaticDraw => GL_STATIC_DRAW,
            BufferUsage::StreamRead => GL_STREAM_READ,
            BufferUsage::StreamCopy => GL_STREAM_COPY,
            BufferUsage::StreamDraw => GL_STREAM_DRAW,
            BufferUsage::DynamicRead => GL_DYNAMIC_READ,
            BufferUsage::DynamicCopy => GL_DYNAMIC_COPY,
            BufferUsage::DynamicDraw => GL_DYNAMIC_DRAW,
        }
    }
}

/// The operations every buffer category shares. Uploads act on the buffer
/// currently bound to the category's slot, so they require the receiver to
/// be that buffer; copies go through the read/write sub-slots, leaving the
/// general slots untouched.
pub trait GlBuffer: GlObject + GlBind + GlTarget {
    /// Upload `data` in full, with `usage` as the allocation hint.
    fn data(&self, data: &Vec<u8>, usage: BufferUsage, ctx: &mut GlContext)
        requires
            old(ctx).slots.spec_get(Self::slot()) == self.id_spec(),
        ensures
            final(ctx).log() == old(ctx).log().push(
                Call::BufferData {
                    target: Self::slot().target_spec(),
                    size: data@.len() as usize,
                    usage: usage.enum_spec(),
                },
            ),
            final(ctx).slots == old(ctx).slots,
            final(ctx).next_id == old(ctx).next_id,
    {
        let c = DriverCall::BufferData {
            target: Self::target(),
            size: data.len(),
            usage: usage.to_enum(),
        };
        ctx.record(c);
    }

    /// Overwrite `count` bytes of the buffer's store at byte `offset` with
    /// the first `count` bytes of `data`.
    fn subdata(&self, offset: usize, count: usize, data: &Vec<u8>, ctx: &mut GlContext)
        requires
            old(ctx).slots.spec_get(Self::slot()) == self.id_spec(),
            count <= data@.len(),
        ensures
            final(ctx).log() == old(ctx).log().push(
                Call::BufferSubData {
                    target: Self::slot().target_spec(),
                    offset,
                    size: count,
                },
            ),
            final(ctx).slots == old(ctx).slots,
            final(ctx).next_id == old(ctx).next_id,
    {
        let c = DriverCall::BufferSubData { target: Self::target(), offset, size: count };
        ctx.record(c);
    }

    /// Make this buffer the source of copy operations, without disturbing
    /// the general slots or the write sub-slot.
    fn bind_read(&self, ctx: &mut GlContext)
        ensures
            final(ctx).slots == old(ctx).slots.spec_set(
                SlotKind::CopyReadBuffer,
                self.id_spec(),
            ),
            final(ctx).log() == old(ctx).log().push(
                bind_call(SlotKind::CopyReadBuffer, self.id_spec()),
            ),
            final(ctx).next_id == old(ctx).next_id,
    {
        ctx.set_slot(SlotKind::CopyReadBuffer, self.get_id());
    }

    /// Make this buffer the destination of copy operations, without
    /// disturbing the general slots or the read sub-slot.
    fn bind_write(&self, ctx: &mut GlContext)
        ensures
            final(ctx).slots == old(ctx).slots.spec_set(
                SlotKind::CopyWriteBuffer,
                self.id_spec(),
            ),
            final(ctx).log() == old(ctx).log().push(
                bind_call(SlotKind::CopyWriteBuffer, self.id_spec()),
            ),
            final(ctx).next_id == old(ctx).next_id,
    {
        ctx.set_slot(SlotKind::CopyWriteBuffer, self.get_id());
    }

    /// Copy `size` bytes between the buffers occupying the copy sub-slots,
    /// this buffer being the destination.
    fn copy(&self, read_offset: usize, write_offset: usize, size: usize, ctx: &mut GlContext)
        requires
            old(ctx).slots.spec_get(SlotKind::CopyWriteBuffer) == self.id_spec(),
        ensures
            final(ctx).log() == old(ctx).log().push(
                Call::CopyBufferSubData { read_offset, write_offset, size },
            ),
            final(ctx).slots == old(ctx).slots,
            final(ctx).next_id == old(ctx).next_id,
    {
        ctx.record(DriverCall::CopyBufferSubData { read_offset, write_offset, size });
    }
}

/// Copy `size` bytes out of `src` into `dst`: the source goes into the read
/// sub-slot, the destination into the write sub-slot, and the general slots
/// stay as they were.
pub fn copy_from<D: GlBuffer, S: GlBuffer>(
    dst: &D,
    src: &S,
    read_offset: usize,
    write_offset: usize,
    size: usize,
    ctx: &mut GlContext,
)
    ensures
        final(ctx).slots == old(ctx).slots.spec_set(
            SlotKind::CopyWriteBuffer,
            dst.id_spec(),
        ).spec_set(SlotKind::CopyReadBuffer, src.id_spec()),
        final(ctx).log() == old(ctx).log() + seq![
            bind_call(SlotKind::CopyWriteBuffer, dst.id_spec()),
            bind_call(SlotKind::CopyReadBuffer, src.id_spec()),
            Call::CopyBufferSubData { read_offset, write_offset, size },
        ],
        final(ctx).next_id == old(ctx).next_id,
{
    dst.bind_write(ctx);
    src.bind_read(ctx);
    ctx.record(DriverCall::CopyBufferSubData { read_offset, write_offset, size });
    proof {
        assert(ctx.log() =~= old(ctx).log() + seq![
            bind_call(SlotKind::CopyWriteBuffer, dst.id_spec()),
            bind_call(SlotKind::CopyReadBuffer, src.id_spec()),
            Call::CopyBufferSubData { read_offset, write_offset, size },
        ]);
    }
}

/// A buffer for vertex data.
#[derive(Debug, PartialEq, Eq)]
pub struct ArrayBuffer {
    id: u32,
}

/// A buffer for vertex indices.
#[derive(Debug, PartialEq, Eq)]
pub struct ElementArrayBuffer {
    id: u32,
}

/// A buffer backing a uniform block.
#[derive(Debug, PartialEq, Eq)]
pub struct UniformBuffer {
    id: u32,
}

/// A buffer backing a buffer texture.
#[derive(Debug, PartialEq, Eq)]
pub struct TextureBuffer {
    id: u32,
}

impl ArrayBuffer {
    /// Allocate one driver-side buffer and own it. The returned handle is
    /// never copied, so exactly one deallocation can follow.
    pub fn new(ctx: &mut GlContext) -> (r: ArrayBuffer)
        requires
            old(ctx).wf(),
            old(ctx).next_id < u32::MAX,
        ensures
            r.id_spec() == old(ctx).next_id,
            r.id_spec() >= 1,
            final(ctx).log() == old(ctx).log().push(
                alloc_call(ResourceCategory::Buffer, r.id_spec()),
            ),
            final(ctx).slots == old(ctx).slots,
            final(ctx).next_id == old(ctx).next_id + 1,
            final(ctx).wf(),
    {
        let id = ctx.allocate(ResourceCategory::Buffer);
        ArrayBuffer { id }
    }

    /// Issue the one deallocation call of this handle's lifetime, consuming
    /// the handle.
    pub fn delete(self, ctx: &mut GlContext)
        ensures
            final(ctx).log() == old(ctx).log().push(
                dealloc_call(ResourceCategory::Buffer, self.id_spec()),
            ),
            final(ctx).slots == old(ctx).slots,
            final(ctx).next_id == old(ctx).next_id,
    {
        ctx.deallocate(ResourceCategory::Buffer, self.id);
    }
}

impl GlObject for ArrayBuffer {
    closed spec fn id_spec(&self) -> u32 {
        self.id
    }

    fn get_id(&self) -> u32 {
        self.id
    }
}

impl GlTarget for ArrayBuffer {
    open spec fn slot() -> SlotKind {
        SlotKind::ArrayBuffer
    }

    fn slot_kind() -> SlotKind {
        SlotKind::ArrayBuffer
    }
}

impl GlBind for ArrayBuffer {
}

impl GlBuffer for ArrayBuffer {
}

impl ElementArrayBuffer {
    pub fn new(ctx: &mut GlContext) -> (r: ElementArrayBuffer)
        requires
            old(ctx).wf(),
            old(ctx).next_id < u32::MAX,
        ensures
            r.id_spec() == old(ctx).next_id,
            r.id_spec() >= 1,
            final(ctx).log() == old(ctx).log().push(
                alloc_call(ResourceCategory::Buffer, r.id_spec()),
            ),
            final(ctx).slots == old(ctx).slots,
            final(ctx).next_id == old(ctx).next_id + 1,
            final(ctx).wf(),
    {
        let id = ctx.allocate(ResourceCategory::Buffer);
        ElementArrayBuffer { id }
    }

    pub fn delete(self, ctx: &mut GlContext)
        ensures
            final(ctx).log() == old(ctx).log().push(
                dealloc_call(ResourceCategory::Buffer, self.id_spec()),
            ),
            final(ctx).slots == old(ctx).slots,
            final(ctx).next_id == old(ctx).next_id,
    {
        ctx.deallocate(ResourceCategory::Buffer, self.id);
    }
}

impl GlObject for ElementArrayBuffer {
    closed spec fn id_spec(&self) -> u32 {
        self.id
    }

    fn get_id(&self) -> u32 {
        self.id
    }
}

impl GlTarget for ElementArrayBuffer {
    open spec fn slot() -> SlotKind {
        SlotKind::ElementArrayBuffer
    }

    fn slot_kind() -> SlotKind {
        SlotKind::ElementArrayBuffer
    }
}

impl GlBind for ElementArrayBuffer {
}

impl GlBuffer for ElementArrayBuffer {
}

impl UniformBuffer {
    pub fn new(ctx: &mut GlContext) -> (r: UniformBuffer)
        requires
            old(ctx).wf(),
            old(ctx).next_id < u32::MAX,
        ensures
            r.id_spec() == old(ctx).next_id,
            r.id_spec() >= 1,
            final(ctx).log() == old(ctx).log().push(
                alloc_call(ResourceCategory::Buffer, r.id_spec()),
            ),
            final(ctx).slots == old(ctx).slots,
            final(ctx).next_id == old(ctx).next_id + 1,
            final(ctx).wf(),
    {
        let id = ctx.allocate(ResourceCategory::Buffer);
        UniformBuffer { id }
    }

    pub fn delete(self, ctx: &mut GlContext)
        ensures
            final(ctx).log() == old(ctx).log().push(
                dealloc_call(ResourceCategory::Buffer, self.id_spec()),
            ),
            final(ctx).slots == old(ctx).slots,
            final(ctx).next_id == old(ctx).next_id,
    {
        ctx.deallocate(ResourceCategory::Buffer, self.id);
    }
}

impl GlObject for UniformBuffer {
    closed spec fn id_spec(&self) -> u32 {
        self.id
    }

    fn get_id(&self) -> u32 {
        self.id
    }
}

impl GlTarget for UniformBuffer {
    open spec fn slot() -> SlotKind {
        SlotKind::UniformBuffer
    }

    fn slot_kind() -> SlotKind {
        SlotKind::UniformBuffer
    }
}

impl GlBind for UniformBuffer {
}

impl GlBuffer for UniformBuffer {
}

impl TextureBuffer {
    pub fn new(ctx: &mut GlContext) -> (r: TextureBuffer)
        requires
            old(ctx).wf(),
            old(ctx).next_id < u32::MAX,
        ensures
            r.id_spec() == old(ctx).next_id,
            r.id_spec() >= 1,
            final(ctx).log() == old(ctx).log().push(
                alloc_call(ResourceCategory::Buffer, r.id_spec()),
            ),
            final(ctx).slots == old(ctx).slots,
            final(ctx).next_id == old(ctx).next_id + 1,
            final(ctx).wf(),
    {
        let id = ctx.allocate(ResourceCategory::Buffer);
        TextureBuffer { id }
    }

    pub fn delete(self, ctx: &mut GlContext)
        ensures
            final(ctx).log() == old(ctx).log().push(
                dealloc_call(ResourceCategory::Buffer, self.id_spec()),
            ),
            final(ctx).slots == old(ctx).slots,
            final(ctx).next_id == old(ctx).next_id,
    {
        ctx.deallocate(ResourceCategory::Buffer, self.id);
    }
}

impl GlObject for TextureBuffer {
    closed spec fn id_spec(&self) -> u32 {
        self.id
    }

    fn get_id(&self) -> u32 {
        self.id
    }
}

impl GlTarget for TextureBuffer {
    open spec fn slot() -> SlotKind {
        SlotKind::TextureBuffer
    }

    fn slot_kind() -> SlotKind {
        SlotKind::TextureBuffer
    }
}

impl GlBind for TextureBuffer {
}

impl GlBuffer for TextureBuffer {
}

} // verus!
