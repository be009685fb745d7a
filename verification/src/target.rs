//! Framebuffer objects: render targets with the same read/write sub-slot
//! pattern the buffer copies use — blit-style operations bind the source
//! into the read sub-slot and the destination into the draw sub-slot
//! without disturbing the general framebuffer slot.
use vstd::prelude::*;

verus! {

use crate::call::{Call, DriverCall};
use crate::consts::{GL_COLOR_ATTACHMENT0, GL_DEPTH_ATTACHMENT, GL_STENCIL_ATTACHMENT};
use crate::context::{alloc_call, bind_call, dealloc_call, GlContext, ResourceCategory, SlotKind};
use crate::texture::GlTexture;
use crate::{GlBind, GlObject, GlTarget};

/// Where within a framebuffer an image is attached: one of the numbered
/// color attachment points, the depth plane, or the stencil plane.
#[derive(Debug, PartialEq, Eq, Copy, Clone, Structural)]
pub enum FramebufferAttachment {
    ColorAttachment(u32),
    DepthAttachment,
    StencilAttachment,
}

impl Default for FramebufferAttachment {
    fn default() -> (r: Self)
        ensures
            r == FramebufferAttachment::ColorAttachment(0u32),
    {
        FramebufferAttachment::ColorAttachment(0)
    }
}

impl FramebufferAttachment {
    /// A color attachment index small enough that its constant exists.
    pub open spec fn wf(self) -> bool {
        match self {
            FramebufferAttachment::ColorAttachment(c) => c <= u32::MAX - GL_COLOR_ATTACHMENT0,
            _ => true,
        }
    }

    pub open spec fn enum_spec(self) -> u32 {
        match self {
            FramebufferAttachment::ColorAttachment(c) => (GL_COLOR_ATTACHMENT0 + c) as u32,
            FramebufferAttachment::DepthAttachment => GL_DEPTH_ATTACHMENT,
            FramebufferAttachment::StencilAttachment => GL_STENCIL_ATTACHMENT,
        }
    }

    pub fn to_enum(&self) -> (r: u32)
        requires
            self.wf(),
        ensures
            r == self.enum_spec(),
    {
        match self {
            FramebufferAttachment::ColorAttachment(c) => GL_COLOR_ATTACHMENT0 + c,
            FramebufferAttachment::DepthAttachment => GL_DEPTH_ATTACHMENT,
            FramebufferAttachment::StencilAttachment => GL_STENCIL_ATTACHMENT,
        }
    }
}

/// An owning handle to one driver-side framebuffer object.
#[derive(Debug, PartialEq, Eq)]
pub struct Framebuffer {
    id: u32,
}

impl Framebuffer {
    /// Allocate one driver-side framebuffer and own it; the driver reports
    /// no failure for this call, so the result is always the handle.
    pub fn new(ctx: &mut GlContext) -> (r: Result<Framebuffer, String>)
        requires
            old(ctx).wf(),
            old(ctx).next_id < u32::MAX,
        ensures
            r is Ok,
            r matches Ok(f) ==> f.id_spec() == old(ctx).next_id && f.id_spec() >= 1,
            final(ctx).log() == old(ctx).log().push(
                alloc_call(ResourceCategory::Framebuffer, old(ctx).next_id),
            ),
            final(ctx).slots == old(ctx).slots,
            final(ctx).next_id == old(ctx).next_id + 1,
            final(ctx).wf(),
    {
        let id = ctx.allocate(ResourceCategory::Framebuffer);
        Ok(Framebuffer { id })
    }

    /// Issue the one deallocation call of this handle's lifetime.
    pub fn delete(self, ctx: &mut GlContext)
        ensures
            final(ctx).log() == old(ctx).log().push(
                dealloc_call(ResourceCategory::Framebuffer, self.id_spec()),
            ),
            final(ctx).slots == old(ctx).slots,
            final(ctx).next_id == old(ctx).next_id,
    {
        ctx.deallocate(ResourceCategory::Framebuffer, self.id);
    }

    /// Attach level zero of `texture` at `attachment` of this framebuffer,
    /// which must occupy the general framebuffer slot.
    pub fn attach_texture<T: GlTexture>(
        &self,
        attachment: FramebufferAttachment,
        texture: &T,
        ctx: &mut GlContext,
    )
        requires
            attachment.wf(),
            old(ctx).slots.spec_get(SlotKind::Framebuffer) == self.id_spec(),
        ensures
            final(ctx).log() == old(ctx).log().push(
                Call::FramebufferTexture2D {
                    target: SlotKind::Framebuffer.target_spec(),
                    attachment: attachment.enum_spec(),
                    tex_target: T::slot().target_spec(),
                    id: texture.id_spec(),
                    level: 0,
                },
            ),
            final(ctx).slots == old(ctx).slots,
            final(ctx).next_id == old(ctx).next_id,
    {
        ctx.record(
            DriverCall::FramebufferTexture2D {
                target: Self::target(),
                attachment: attachment.to_enum(),
                tex_target: T::target(),
                id: texture.get_id(),
                level: 0,
            },
        );
    }

    /// Make this framebuffer the source of blit operations, without
    /// disturbing the general slot or the draw sub-slot.
    pub fn bind_read(&self, ctx: &mut GlContext)
        ensures
            final(ctx).slots == old(ctx).slots.spec_set(
                SlotKind::ReadFramebuffer,
                self.id_spec(),
            ),
            final(ctx).log() == old(ctx).log().push(
                bind_call(SlotKind::ReadFramebuffer, self.id_spec()),
            ),
            final(ctx).next_id == old(ctx).next_id,
    {
        ctx.set_slot(SlotKind::ReadFramebuffer, self.id);
    }

    /// Make this framebuffer the destination of blit operations, without
    /// disturbing the general slot or the read sub-slot.
    pub fn bind_draw(&self, ctx: &mut GlContext)
        ensures
            final(ctx).slots == old(ctx).slots.spec_set(
                SlotKind::DrawFramebuffer,
                self.id_spec(),
            ),
            final(ctx).log() == old(ctx).log().push(
                bind_call(SlotKind::DrawFramebuffer, self.id_spec()),
            ),
            final(ctx).next_id == old(ctx).next_id,
    {
        ctx.set_slot(SlotKind::DrawFramebuffer, self.id);
    }
}

impl GlObject for Framebuffer {
    closed spec fn id_spec(&self) -> u32 {
        self.id
    }

    fn get_id(&self) -> u32 {
        self.id
    }
}

impl GlTarget for Framebuffer {
    open spec fn slot() -> SlotKind {
        SlotKind::Framebuffer
    }

    fn slot_kind() -> SlotKind {
        SlotKind::Framebuffer
    }
}

impl GlBind for Framebuffer {
}

} // verus!
