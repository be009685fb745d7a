//! The explicit driver context: binding-slot shadow state, the id source for
//! resource handles, and the stream of recorded driver calls.
//!
//! The context makes the process-wide binding state of the underlying API a
//! value that contracts can speak about. Every bind, allocation and upload
//! going through this layer updates the shadow slots and appends the call it
//! stands for to the log; bypassing the layer would desynchronise the shadow
//! state, which is a caller contract violation, not a detected error.
use vstd::prelude::*;

verus! {

use crate::call::{Call, DriverCall};
use crate::consts::{
    GL_ARRAY_BUFFER, GL_ELEMENT_ARRAY_BUFFER, GL_UNIFORM_BUFFER, GL_TEXTURE_BUFFER,
    GL_COPY_READ_BUFFER, GL_COPY_WRITE_BUFFER, GL_TEXTURE_1D, GL_TEXTURE_2D, GL_TEXTURE_3D,
    GL_TEXTURE_CUBE_MAP, GL_FRAMEBUFFER, GL_READ_FRAMEBUFFER, GL_DRAW_FRAMEBUFFER, GL_NONE,
    GL_ARRAY_BUFFER_BINDING, GL_ELEMENT_ARRAY_BUFFER_BINDING, GL_UNIFORM_BUFFER_BINDING,
    GL_TEXTURE_BUFFER_BINDING, GL_TEXTURE_BINDING_1D, GL_TEXTURE_BINDING_2D,
    GL_TEXTURE_BINDING_3D, GL_TEXTURE_BINDING_CUBE_MAP, GL_FRAMEBUFFER_BINDING,
    GL_VERTEX_ARRAY_BINDING,
};

/// One binding slot of the driver's implicit global state. Each resource
/// category owns one general slot; buffer copies and framebuffer blits use the
/// dedicated read/write sub-slots, which are independent of the general slots.
#[derive(Debug, Clone, Copy, PartialEq, Eq, Structural)]
pub enum SlotKind {
    ArrayBuffer,
    ElementArrayBuffer,
    UniformBuffer,
    TextureBuffer,
    CopyReadBuffer,
    CopyWriteBuffer,
    Texture1D,
    Texture2D,
    Texture3D,
    TextureCubeMap,
    Framebuffer,
    ReadFramebuffer,
    DrawFramebuffer,
    VertexArray,
    Program,
}

impl SlotKind {
    /// The target constant named in the bind call for this slot, or
    /// `GL_NONE` where the bind call takes no target parameter.
    pub open spec fn target_spec(self) -> u32 {
        match self {
            SlotKind::ArrayBuffer => GL_ARRAY_BUFFER,
            SlotKind::ElementArrayBuffer => GL_ELEMENT_ARRAY_BUFFER,
            SlotKind::UniformBuffer => GL_UNIFORM_BUFFER,
            SlotKind::TextureBuffer => GL_TEXTURE_BUFFER,
            SlotKind::CopyReadBuffer => GL_COPY_READ_BUFFER,
            SlotKind::CopyWriteBuffer => GL_COPY_WRITE_BUFFER,
            SlotKind::Texture1D => GL_TEXTURE_1D,
            SlotKind::Texture2D => GL_TEXTURE_2D,
            SlotKind::Texture3D => GL_TEXTURE_3D,
            SlotKind::TextureCubeMap => GL_TEXTURE_CUBE_MAP,
            SlotKind::Framebuffer => GL_FRAMEBUFFER,
            SlotKind::ReadFramebuffer => GL_READ_FRAMEBUFFER,
            SlotKind::DrawFramebuffer => GL_DRAW_FRAMEBUFFER,
            SlotKind::VertexArray => GL_NONE,
            SlotKind::Program => GL_NONE,
        }
    }

    pub fn target(&self) -> (r: u32)
        ensures
            r == self.target_spec(),
    {
        match self {
            SlotKind::ArrayBuffer => GL_ARRAY_BUFFER,
            SlotKind::ElementArrayBuffer => GL_ELEMENT_ARRAY_BUFFER,
            SlotKind::UniformBuffer => GL_UNIFORM_BUFFER,
            SlotKind::TextureBuffer => GL_TEXTURE_BUFFER,
            SlotKind::CopyReadBuffer => GL_COPY_READ_BUFFER,
            SlotKind::CopyWriteBuffer => GL_COPY_WRITE_BUFFER,
            SlotKind::Texture1D => GL_TEXTURE_1D,
            SlotKind::Texture2D => GL_TEXTURE_2D,
            SlotKind::Texture3D => GL_TEXTURE_3D,
            SlotKind::TextureCubeMap => GL_TEXTURE_CUBE_MAP,
            SlotKind::Framebuffer => GL_FRAMEBUFFER,
            SlotKind::ReadFramebuffer => GL_READ_FRAMEBUFFER,
            SlotKind::DrawFramebuffer => GL_DRAW_FRAMEBUFFER,
            SlotKind::VertexArray => GL_NONE,
            SlotKind::Program => GL_NONE,
        }
    }

    /// The query constant under which the driver reports this slot's
    /// occupant, or `GL_NONE` where the driver offers no query. The
    /// vertex-array slot is the special case that forces shadow state: its
    /// queried value and its true "no binding" value are both zero.
    pub open spec fn binding_spec(self) -> u32 {
        match self {
            SlotKind::ArrayBuffer => GL_ARRAY_BUFFER_BINDING,
            SlotKind::ElementArrayBuffer => GL_ELEMENT_ARRAY_BUFFER_BINDING,
            SlotKind::UniformBuffer => GL_UNIFORM_BUFFER_BINDING,
            SlotKind::TextureBuffer => GL_TEXTURE_BUFFER_BINDING,
            SlotKind::CopyReadBuffer => GL_NONE,
            SlotKind::CopyWriteBuffer => GL_NONE,
            SlotKind::Texture1D => GL_TEXTURE_BINDING_1D,
            SlotKind::Texture2D => GL_TEXTURE_BINDING_2D,
            SlotKind::Texture3D => GL_TEXTURE_BINDING_3D,
            SlotKind::TextureCubeMap => GL_TEXTURE_BINDING_CUBE_MAP,
            SlotKind::Framebuffer => GL_FRAMEBUFFER_BINDING,
            SlotKind::ReadFramebuffer => GL_NONE,
            SlotKind::DrawFramebuffer => GL_NONE,
            SlotKind::VertexArray => GL_VERTEX_ARRAY_BINDING,
            SlotKind::Program => GL_NONE,
        }
    }

    pub fn binding(&self) -> (r: u32)
        ensures
            r == self.binding_spec(),
    {
        match self {
            SlotKind::ArrayBuffer => GL_ARRAY_BUFFER_BINDING,
            SlotKind::ElementArrayBuffer => GL_ELEMENT_ARRAY_BUFFER_BINDING,
            SlotKind::UniformBuffer => GL_UNIFORM_BUFFER_BINDING,
            SlotKind::TextureBuffer => GL_TEXTURE_BUFFER_BINDING,
            SlotKind::CopyReadBuffer => GL_NONE,
            SlotKind::CopyWriteBuffer => GL_NONE,
            SlotKind::Texture1D => GL_TEXTURE_BINDING_1D,
            SlotKind::Texture2D => GL_TEXTURE_BINDING_2D,
            SlotKind::Texture3D => GL_TEXTURE_BINDING_3D,
            SlotKind::TextureCubeMap => GL_TEXTURE_BINDING_CUBE_MAP,
            SlotKind::Framebuffer => GL_FRAMEBUFFER_BINDING,
            SlotKind::ReadFramebuffer => GL_NONE,
            SlotKind::DrawFramebuffer => GL_NONE,
            SlotKind::VertexArray => GL_VERTEX_ARRAY_BINDING,
            SlotKind::Program => GL_NONE,
        }
    }
}

/// The bind call that occupies slot `k` with object `id` (id zero unbinds).
pub open spec fn bind_call(k: SlotKind, id: u32) -> Call {
    match k {
        SlotKind::VertexArray => Call::BindVertexArray { id },
        SlotKind::Program => Call::UseProgram { id },
        SlotKind::Framebuffer | SlotKind::ReadFramebuffer | SlotKind::DrawFramebuffer => {
            Call::BindFramebuffer { target: k.target_spec(), id }
        },
        SlotKind::Texture1D | SlotKind::Texture2D | SlotKind::Texture3D
            | SlotKind::TextureCubeMap => Call::BindTexture { target: k.target_spec(), id },
        _ => Call::BindBuffer { target: k.target_spec(), id },
    }
}

/// The state of every binding slot: which object id is current per slot,
/// with zero standing for "empty".
#[derive(Debug, Clone, Copy, PartialEq, Eq, Structural)]
pub struct BindingSlots {
    pub array_buffer: u32,
    pub element_array_buffer: u32,
    pub uniform_buffer: u32,
    pub texture_buffer: u32,
    pub copy_read_buffer: u32,
    pub copy_write_buffer: u32,
    pub texture_1d: u32,
    pub texture_2d: u32,
    pub texture_3d: u32,
    pub texture_cube_map: u32,
    pub framebuffer: u32,
    pub read_framebuffer: u32,
    pub draw_framebuffer: u32,
    pub vertex_array: u32,
    pub program: u32,
}

impl BindingSlots {
    /// All slots empty.
    pub open spec fn empty_spec() -> BindingSlots {
        BindingSlots {
            array_buffer: 0,
            element_array_buffer: 0,
            uniform_buffer: 0,
            texture_buffer: 0,
            copy_read_buffer: 0,
            copy_write_buffer: 0,
            texture_1d: 0,
            texture_2d: 0,
            texture_3d: 0,
            texture_cube_map: 0,
            framebuffer: 0,
            read_framebuffer: 0,
            draw_framebuffer: 0,
            vertex_array: 0,
            program: 0,
        }
    }

    pub fn empty() -> (r: BindingSlots)
        ensures
            r == BindingSlots::empty_spec(),
    {
        BindingSlots {
            array_buffer: 0,
            element_array_buffer: 0,
            uniform_buffer: 0,
            texture_buffer: 0,
            copy_read_buffer: 0,
            copy_write_buffer: 0,
            texture_1d: 0,
            texture_2d: 0,
            texture_3d: 0,
            texture_cube_map: 0,
            framebuffer: 0,
            read_framebuffer: 0,
            draw_framebuffer: 0,
            vertex_array: 0,
            program: 0,
        }
    }

    /// The id currently occupying slot `k`.
    pub open spec fn spec_get(self, k: SlotKind) -> u32 {
        match k {
            SlotKind::ArrayBuffer => self.array_buffer,
            SlotKind::ElementArrayBuffer => self.element_array_buffer,
            SlotKind::UniformBuffer => self.uniform_buffer,
            SlotKind::TextureBuffer => self.texture_buffer,
            SlotKind::CopyReadBuffer => self.copy_read_buffer,
            SlotKind::CopyWriteBuffer => self.copy_write_buffer,
            SlotKind::Texture1D => self.texture_1d,
            SlotKind::Texture2D => self.texture_2d,
            SlotKind::Texture3D => self.texture_3d,
            SlotKind::TextureCubeMap => self.texture_cube_map,
            SlotKind::Framebuffer => self.framebuffer,
            SlotKind::ReadFramebuffer => self.read_framebuffer,
            SlotKind::DrawFramebuffer => self.draw_framebuffer,
            SlotKind::VertexArray => self.vertex_array,
            SlotKind::Program => self.program,
        }
    }

    /// The slot state after `id` occupies slot `k`; every other slot keeps
    /// its occupant (last-bind-wins, no reference counting).
    pub open spec fn spec_set(self, k: SlotKind, id: u32) -> BindingSlots {
        match k {
            SlotKind::ArrayBuffer => BindingSlots { array_buffer: id, ..self },
            SlotKind::ElementArrayBuffer => BindingSlots { element_array_buffer: id, ..self },
            SlotKind::UniformBuffer => BindingSlots { uniform_buffer: id, ..self },
            SlotKind::TextureBuffer => BindingSlots { texture_buffer: id, ..self },
            SlotKind::CopyReadBuffer => BindingSlots { copy_read_buffer: id, ..self },
            SlotKind::CopyWriteBuffer => BindingSlots { copy_write_buffer: id, ..self },
            SlotKind::Texture1D => BindingSlots { texture_1d: id, ..self },
            SlotKind::Texture2D => BindingSlots { texture_2d: id, ..self },
            SlotKind::Texture3D => BindingSlots { texture_3d: id, ..self },
            SlotKind::TextureCubeMap => BindingSlots { texture_cube_map: id, ..self },
            SlotKind::Framebuffer => BindingSlots { framebuffer: id, ..self },
            SlotKind::ReadFramebuffer => BindingSlots { read_framebuffer: id, ..self },
            SlotKind::DrawFramebuffer => BindingSlots { draw_framebuffer: id, ..self },
            SlotKind::VertexArray => BindingSlots { vertex_array: id, ..self },
            SlotKind::Program => BindingSlots { program: id, ..self },
        }
    }

    pub fn get(&self, k: SlotKind) -> (r: u32)
        ensures
            r == self.spec_get(k),
    {
        match k {
            SlotKind::ArrayBuffer => self.array_buffer,
            SlotKind::ElementArrayBuffer => self.element_array_buffer,
            SlotKind::UniformBuffer => self.uniform_buffer,
            SlotKind::TextureBuffer => self.texture_buffer,
            SlotKind::CopyReadBuffer => self.copy_read_buffer,
            SlotKind::CopyWriteBuffer => self.copy_write_buffer,
            SlotKind::Texture1D => self.texture_1d,
            SlotKind::Texture2D => self.texture_2d,
            SlotKind::Texture3D => self.texture_3d,
            SlotKind::TextureCubeMap => self.texture_cube_map,
            SlotKind::Framebuffer => self.framebuffer,
            SlotKind::ReadFramebuffer => self.read_framebuffer,
            SlotKind::DrawFramebuffer => self.draw_framebuffer,
            SlotKind::VertexArray => self.vertex_array,
            SlotKind::Program => self.program,
        }
    }

    pub fn set(&mut self, k: SlotKind, id: u32)
        ensures
            *final(self) == old(self).spec_set(k, id),
    {
        match k {
            SlotKind::ArrayBuffer => {
                self.array_buffer = id;
            },
            SlotKind::ElementArrayBuffer => {
                self.element_array_buffer = id;
            },
            SlotKind::UniformBuffer => {
                self.uniform_buffer = id;
            },
            SlotKind::TextureBuffer => {
                self.texture_buffer = id;
            },
            SlotKind::CopyReadBuffer => {
                self.copy_read_buffer = id;
            },
            SlotKind::CopyWriteBuffer => {
                self.copy_write_buffer = id;
            },
            SlotKind::Texture1D => {
                self.texture_1d = id;
            },
            SlotKind::Texture2D => {
                self.texture_2d = id;
            },
            SlotKind::Texture3D => {
                self.texture_3d = id;
            },
            SlotKind::TextureCubeMap => {
                self.texture_cube_map = id;
            },
            SlotKind::Framebuffer => {
                self.framebuffer = id;
            },
            SlotKind::ReadFramebuffer => {
                self.read_framebuffer = id;
            },
            SlotKind::DrawFramebuffer => {
                self.draw_framebuffer = id;
            },
            SlotKind::VertexArray => {
                self.vertex_array = id;
            },
            SlotKind::Program => {
                self.program = id;
            },
        }
    }
}

/// Law: binding a handle occupies its slot, and a later bind of a different
/// handle into the same slot evicts the earlier occupant, whose query then
/// reports it as not current.
pub proof fn lemma_bind_eviction(s: BindingSlots, k: SlotKind, h1: u32, h2: u32)
    ensures
        s.spec_set(k, h1).spec_get(k) == h1,
        s.spec_set(k, h1).spec_set(k, h2).spec_get(k) == h2,
        h2 != h1 ==> s.spec_set(k, h1).spec_set(k, h2).spec_get(k) != h1,
{
}

/// Law: a bind touches only its own slot; every other slot, the read/write
/// sub-slots included, keeps its occupant.
pub proof fn lemma_bind_frame(s: BindingSlots, k_set: SlotKind, k_other: SlotKind, id: u32)
    requires
        k_set != k_other,
    ensures
        s.spec_set(k_set, id).spec_get(k_other) == s.spec_get(k_other),
{
}

/// The resource categories whose lifecycle the driver manages, each with its
/// own allocation and deallocation call. A shader allocation names the stage
/// it is created for.
#[derive(Debug, Clone, Copy, PartialEq, Eq, Structural)]
pub enum ResourceCategory {
    Buffer,
    Texture,
    VertexArray,
    Framebuffer,
    Shader { kind: u32 },
    Program,
}

/// The allocation call that issues a fresh object of category `cat`.
pub open spec fn alloc_call(cat: ResourceCategory, id: u32) -> Call {
    match cat {
        ResourceCategory::Buffer => Call::GenBuffer { id },
        ResourceCategory::Texture => Call::GenTexture { id },
        ResourceCategory::VertexArray => Call::GenVertexArray { id },
        ResourceCategory::Framebuffer => Call::GenFramebuffer { id },
        ResourceCategory::Shader { kind } => Call::CreateShader { kind, id },
        ResourceCategory::Program => Call::CreateProgram { id },
    }
}

/// The deallocation call that destroys object `id` of category `cat`.
pub open spec fn dealloc_call(cat: ResourceCategory, id: u32) -> Call {
    match cat {
        ResourceCategory::Buffer => Call::DeleteBuffer { id },
        ResourceCategory::Texture => Call::DeleteTexture { id },
        ResourceCategory::VertexArray => Call::DeleteVertexArray { id },
        ResourceCategory::Framebuffer => Call::DeleteFramebuffer { id },
        ResourceCategory::Shader { kind: _ } => Call::DeleteShader { id },
        ResourceCategory::Program => Call::DeleteProgram { id },
    }
}

/// The driver context: the shadow of the driver's binding state, the source
/// of fresh object ids, and the stream of calls issued so far.
#[derive(Debug)]
pub struct GlContext {
    /// Which object id is current per binding slot.
    pub slots: BindingSlots,
    /// The next object id the model driver will issue; ids start at one, so
    /// a live handle's id is never the "no object" value zero.
    pub next_id: u32,
    /// Every driver call issued through this context, in order.
    pub calls: Vec<DriverCall>,
}

impl GlContext {
    /// The mathematical image of the call stream.
    pub open spec fn log(self) -> Seq<Call> {
        self.calls@.map_values(|c: DriverCall| c@)
    }

    /// A context is well formed when its id source has not been exhausted
    /// below one; every operation preserves this.
    pub open spec fn wf(self) -> bool {
        self.next_id >= 1
    }

    /// A fresh context: all slots empty, no calls issued.
    pub fn new() -> (r: GlContext)
        ensures
            r.slots == BindingSlots::empty_spec(),
            r.next_id == 1,
            r.log() == Seq::<Call>::empty(),
            r.wf(),
    {
        let r = GlContext { slots: BindingSlots::empty(), next_id: 1, calls: Vec::new() };
        proof {
            assert(r.log() =~= Seq::<Call>::empty());
        }
        r
    }

    /// Append one call to the stream without touching the shadow state.
    pub fn record(&mut self, c: DriverCall)
        ensures
            final(self).log() == old(self).log().push(c@),
            final(self).slots == old(self).slots,
            final(self).next_id == old(self).next_id,
    {
        let ghost cv = c@;
        self.calls.push(c);
        proof {
            assert(self.log() =~= old(self).log().push(cv));
        }
    }

    /// Occupy slot `k` with object `id`, issuing the bind call that does so.
    pub fn set_slot(&mut self, k: SlotKind, id: u32)
        ensures
            final(self).slots == old(self).slots.spec_set(k, id),
            final(self).log() == old(self).log().push(bind_call(k, id)),
            final(self).next_id == old(self).next_id,
    {
        self.slots.set(k, id);
        let c = match k {
            SlotKind::VertexArray => DriverCall::BindVertexArray { id },
            SlotKind::Program => DriverCall::UseProgram { id },
            SlotKind::Framebuffer | SlotKind::ReadFramebuffer | SlotKind::DrawFramebuffer => {
                DriverCall::BindFramebuffer { target: k.target(), id }
            },
            SlotKind::Texture1D | SlotKind::Texture2D | SlotKind::Texture3D
                | SlotKind::TextureCubeMap => DriverCall::BindTexture { target: k.target(), id },
            _ => DriverCall::BindBuffer { target: k.target(), id },
        };
        self.record(c);
    }

    /// The id currently occupying slot `k`, read from the shadow state.
    pub fn current(&self, k: SlotKind) -> (r: u32)
        ensures
            r == self.slots.spec_get(k),
    {
        self.slots.get(k)
    }

    /// Issue a fresh object of category `cat`: the model driver hands out
    /// ids in order, so the returned id names no earlier object.
    pub fn allocate(&mut self, cat: ResourceCategory) -> (id: u32)
        requires
            old(self).wf(),
            old(self).next_id < u32::MAX,
        ensures
            id == old(self).next_id,
            id >= 1,
            final(self).next_id == old(self).next_id + 1,
            final(self).slots == old(self).slots,
            final(self).log() == old(self).log().push(alloc_call(cat, id)),
            final(self).wf(),
    {
        let id = self.next_id;
        self.next_id = self.next_id + 1;
        let c = match cat {
            ResourceCategory::Buffer => DriverCall::GenBuffer { id },
            ResourceCategory::Texture => DriverCall::GenTexture { id },
            ResourceCategory::VertexArray => DriverCall::GenVertexArray { id },
            ResourceCategory::Framebuffer => DriverCall::GenFramebuffer { id },
            ResourceCategory::Shader { kind } => DriverCall::CreateShader { kind, id },
            ResourceCategory::Program => DriverCall::CreateProgram { id },
        };
        self.record(c);
        id
    }

    /// Issue the deallocation call for object `id` of category `cat`.
    pub fn deallocate(&mut self, cat: ResourceCategory, id: u32)
        ensures
            final(self).next_id == old(self).next_id,
            final(self).slots == old(self).slots,
            final(self).log() == old(self).log().push(dealloc_call(cat, id)),
    {
        let c = match cat {
            ResourceCategory::Buffer => DriverCall::DeleteBuffer { id },
            ResourceCategory::Texture => DriverCall::DeleteTexture { id },
            ResourceCategory::VertexArray => DriverCall::DeleteVertexArray { id },
            ResourceCategory::Framebuffer => DriverCall::DeleteFramebuffer { id },
            ResourceCategory::Shader { kind: _ } => DriverCall::DeleteShader { id },
            ResourceCategory::Program => DriverCall::DeleteProgram { id },
        };
        self.record(c);
    }

    /// How many calls have been issued.
    pub fn call_count(&self) -> (r: usize)
        ensures
            r == self.log().len(),
    {
        self.calls.len()
    }

    /// The `i`-th issued call, for inspection from outside the model.
    pub fn call_at(&self, i: usize) -> (r: &DriverCall)
        requires
            i < self.log().len(),
        ensures
            r@ == self.log()[i as int],
    {
        &self.calls[i]
    }
}

} // verus!
