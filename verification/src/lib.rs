//! A typed layer over a stateful, handle-based graphics API.
//!
//! The driver is modelled by an explicit [`context::GlContext`]: it carries the
//! per-target binding slots (shadow state) and records every driver call as a
//! [`call::DriverCall`] value. Resource handles, the binding-slot state
//! machine, the vertex attribute layout compiler and the uniform marshalling
//! protocol are all specified and verified against that model; an unverified
//! executable layer replays the recorded calls against the real driver.
use vstd::prelude::*;

pub mod buffer;
pub mod call;
pub mod consts;
pub mod context;
pub mod glsl;
pub mod target;
pub mod texture;
pub mod vec;
pub mod vertex;

verus! {

use crate::call::{Call, DriverCall};
use crate::consts::{
    GL_BYTE, GL_UNSIGNED_BYTE, GL_SHORT, GL_UNSIGNED_SHORT, GL_INT, GL_UNSIGNED_INT, GL_FLOAT,
    GL_DOUBLE,
};
use crate::context::{bind_call, GlContext, SlotKind};
use vstd::string::StringExecFns;

/// A value owning one driver-side object, named by its numeric id.
pub trait GlObject {
    /// The id of the owned object.
    spec fn id_spec(&self) -> u32;

    fn get_id(&self) -> (r: u32)
        ensures
            r == self.id_spec(),
    ;
}

/// A resource category with a fixed binding slot: its target constant, its
/// binding-query constant, and the shadow slot this layer tracks for it.
pub trait GlTarget {
    /// The binding slot this category occupies.
    spec fn slot() -> SlotKind;

    fn slot_kind() -> (k: SlotKind)
        ensures
            k == Self::slot(),
    ;

    /// The target constant named in this category's bind calls.
    fn target() -> (r: u32)
        ensures
            r == Self::slot().target_spec(),
    {
        Self::slot_kind().target()
    }

    /// The constant under which the driver reports this slot's occupant.
    fn binding() -> (r: u32)
        ensures
            r == Self::slot().binding_spec(),
    {
        Self::slot_kind().binding()
    }

    /// The id currently occupying this category's slot, read from the
    /// context's shadow state.
    fn current_bind(ctx: &GlContext) -> (r: u32)
        ensures
            r == ctx.slots.spec_get(Self::slot()),
    {
        ctx.current(Self::slot_kind())
    }
}

/// Bind-before-use: occupying and vacating the category's binding slot.
pub trait GlBind: GlObject + GlTarget {
    /// Make this object current in its slot, evicting any prior occupant.
    fn bind(&self, ctx: &mut GlContext)
        ensures
            final(ctx).slots == old(ctx).slots.spec_set(Self::slot(), self.id_spec()),
            final(ctx).log() == old(ctx).log().push(bind_call(Self::slot(), self.id_spec())),
            final(ctx).next_id == old(ctx).next_id,
    {
        ctx.set_slot(Self::slot_kind(), self.get_id());
    }

    /// Leave this object's slot empty.
    fn unbind(&self, ctx: &mut GlContext)
        ensures
            final(ctx).slots == old(ctx).slots.spec_set(Self::slot(), 0),
            final(ctx).log() == old(ctx).log().push(bind_call(Self::slot(), 0)),
            final(ctx).next_id == old(ctx).next_id,
    {
        ctx.set_slot(Self::slot_kind(), 0);
    }

    /// Whether this object currently occupies its category's slot.
    fn is_binded(&self, ctx: &GlContext) -> (r: bool)
        ensures
            r == (ctx.slots.spec_get(Self::slot()) == self.id_spec()),
    {
        let cur = ctx.current(Self::slot_kind());
        cur == self.get_id()
    }
}

/// Making a program the one that subsequent draw and uniform calls address.
pub trait GlUse: GlObject {
    fn set_used(&self, ctx: &mut GlContext)
        ensures
            final(ctx).slots == old(ctx).slots.spec_set(SlotKind::Program, self.id_spec()),
            final(ctx).log() == old(ctx).log().push(
                bind_call(SlotKind::Program, self.id_spec()),
            ),
            final(ctx).next_id == old(ctx).next_id,
    {
        ctx.set_slot(SlotKind::Program, self.get_id());
    }

    fn set_unused(&self, ctx: &mut GlContext)
        ensures
            final(ctx).slots == old(ctx).slots.spec_set(SlotKind::Program, 0),
            final(ctx).log() == old(ctx).log().push(bind_call(SlotKind::Program, 0)),
            final(ctx).next_id == old(ctx).next_id,
    {
        ctx.set_slot(SlotKind::Program, 0);
    }
}

/// A host type with a name in the shading language.
pub trait GlslType {
    /// The type's name in shader source text.
    spec fn glsl_name() -> Seq<char>;

    fn to_glsl() -> (r: String)
        ensures
            r@ == Self::glsl_name(),
    ;
}

impl GlslType for bool {
    open spec fn glsl_name() -> Seq<char> {
        "bool"@
    }

    fn to_glsl() -> (r: String) {
        String::from_str("bool")
    }
}

impl GlslType for i32 {
    open spec fn glsl_name() -> Seq<char> {
        "int"@
    }

    fn to_glsl() -> (r: String) {
        String::from_str("int")
    }
}

impl GlslType for u32 {
    open spec fn glsl_name() -> Seq<char> {
        "uint"@
    }

    fn to_glsl() -> (r: String) {
        String::from_str("uint")
    }
}

/// A 32-bit float carried as its IEEE 754 bit pattern. The marshalling
/// protocol forwards such values without interpreting them; the executable
/// layer converts to and from the native float type at the boundary.
#[derive(Debug, Clone, Copy, PartialEq, Eq, Structural)]
pub struct F32Bits {
    pub bits: u32,
}

/// A 64-bit float carried as its IEEE 754 bit pattern.
#[derive(Debug, Clone, Copy, PartialEq, Eq, Structural)]
pub struct F64Bits {
    pub bits: u64,
}

impl GlslType for F32Bits {
    open spec fn glsl_name() -> Seq<char> {
        "float"@
    }

    fn to_glsl() -> (r: String) {
        String::from_str("float")
    }
}

impl GlslType for F64Bits {
    open spec fn glsl_name() -> Seq<char> {
        "double"@
    }

    fn to_glsl() -> (r: String) {
        String::from_str("double")
    }
}

/// A scalar after promotion to one of the four call families the driver
/// offers: 32-bit signed, 32-bit unsigned, single float, double float.
/// The API has no narrower upload form, so boolean and 8/16-bit values are
/// widened here and their original width is not recoverable.
#[derive(Debug, Clone, Copy, PartialEq, Eq, Structural)]
pub enum Promoted {
    I { v: i32 },
    U { v: u32 },
    F { bits: u32 },
    D { bits: u64 },
}

impl Promoted {
    pub open spec fn as_i(self) -> i32 {
        match self {
            Promoted::I { v } => v,
            _ => 0,
        }
    }

    pub open spec fn as_u(self) -> u32 {
        match self {
            Promoted::U { v } => v,
            _ => 0,
        }
    }

    pub open spec fn as_f(self) -> u32 {
        match self {
            Promoted::F { bits } => bits,
            _ => 0,
        }
    }

    pub open spec fn as_d(self) -> u64 {
        match self {
            Promoted::D { bits } => bits,
            _ => 0,
        }
    }
}

/// The single driver call that uploads one promoted scalar: the call variant
/// matches the promoted family's exact bit width and signedness.
pub open spec fn scalar_call(location: i32, p: Promoted) -> Call {
    match p {
        Promoted::I { v } => Call::Uniform1i { location, v },
        Promoted::U { v } => Call::Uniform1ui { location, v },
        Promoted::F { bits } => Call::Uniform1f { location, bits },
        Promoted::D { bits } => Call::Uniform1d { location, bits },
    }
}

/// The single driver call that uploads `ps` as one "send N elements" call of
/// the family of the first element (a vector's components share one family,
/// since they share one scalar type).
pub open spec fn vector_call(location: i32, ps: Seq<Promoted>) -> Call {
    match ps[0] {
        Promoted::I { v: _ } => Call::Uniform1iv {
            location,
            vals: ps.map_values(|p: Promoted| p.as_i()),
        },
        Promoted::U { v: _ } => Call::Uniform1uiv {
            location,
            vals: ps.map_values(|p: Promoted| p.as_u()),
        },
        Promoted::F { bits: _ } => Call::Uniform1fv {
            location,
            bits: ps.map_values(|p: Promoted| p.as_f()),
        },
        Promoted::D { bits: _ } => Call::Uniform1dv {
            location,
            bits: ps.map_values(|p: Promoted| p.as_d()),
        },
    }
}

/// A scalar type the uniform protocol accepts: each value promotes to the
/// nearest native 32- or 64-bit call family.
pub trait GlScalar: Sized + Copy {
    /// The promoted form of this value.
    spec fn promoted_spec(self) -> Promoted;

    fn promote(&self) -> (p: Promoted)
        ensures
            p == self.promoted_spec(),
    ;
}

impl GlScalar for bool {
    open spec fn promoted_spec(self) -> Promoted {
        Promoted::I { v: if self { 1 } else { 0 } }
    }

    fn promote(&self) -> (p: Promoted) {
        Promoted::I { v: if *self { 1 } else { 0 } }
    }
}

impl GlScalar for i8 {
    open spec fn promoted_spec(self) -> Promoted {
        Promoted::I { v: self as i32 }
    }

    fn promote(&self) -> (p: Promoted) {
        Promoted::I { v: *self as i32 }
    }
}

impl GlScalar for u8 {
    open spec fn promoted_spec(self) -> Promoted {
        Promoted::U { v: self as u32 }
    }

    fn promote(&self) -> (p: Promoted) {
        Promoted::U { v: *self as u32 }
    }
}

impl GlScalar for i16 {
    open spec fn promoted_spec(self) -> Promoted {
        Promoted::I { v: self as i32 }
    }

    fn promote(&self) -> (p: Promoted) {
        Promoted::I { v: *self as i32 }
    }
}

impl GlScalar for u16 {
    open spec fn promoted_spec(self) -> Promoted {
        Promoted::U { v: self as u32 }
    }

    fn promote(&self) -> (p: Promoted) {
        Promoted::U { v: *self as u32 }
    }
}

impl GlScalar for i32 {
    open spec fn promoted_spec(self) -> Promoted {
        Promoted::I { v: self }
    }

    fn promote(&self) -> (p: Promoted) {
        Promoted::I { v: *self }
    }
}

impl GlScalar for u32 {
    open spec fn promoted_spec(self) -> Promoted {
        Promoted::U { v: self }
    }

    fn promote(&self) -> (p: Promoted) {
        Promoted::U { v: *self }
    }
}

impl GlScalar for F32Bits {
    open spec fn promoted_spec(self) -> Promoted {
        Promoted::F { bits: self.bits }
    }

    fn promote(&self) -> (p: Promoted) {
        Promoted::F { bits: self.bits }
    }
}

impl GlScalar for F64Bits {
    open spec fn promoted_spec(self) -> Promoted {
        Promoted::D { bits: self.bits }
    }

    fn promote(&self) -> (p: Promoted) {
        Promoted::D { bits: self.bits }
    }
}

/// A value the uniform protocol can send: each send issues exactly one
/// driver call, whose form [`GlUniform::uniform_call`] pins down.
pub trait GlUniform: Sized {
    /// What a value of this type must satisfy to be sendable. Scalars and
    /// vectors are always sendable; a matrix must carry its full sixteen
    /// elements.
    spec fn uniform_req(self) -> bool;

    /// The one driver call that sending this value to `location` issues.
    spec fn uniform_call(self, location: i32) -> Call;

    /// Send this value to uniform location `location` of the program
    /// currently in use. A location naming no active uniform is accepted
    /// and ignored by the driver; no failure is observable here.
    fn send_uniform(&self, location: i32, ctx: &mut GlContext)
        requires
            self.uniform_req(),
        ensures
            final(ctx).log() == old(ctx).log().push(self.uniform_call(location)),
            final(ctx).slots == old(ctx).slots,
            final(ctx).next_id == old(ctx).next_id,
    ;
}

/// The uniform call of a scalar: one direct call of the promoted family.
pub open spec fn scalar_uniform_call<T: GlScalar>(v: T, location: i32) -> Call {
    scalar_call(location, v.promoted_spec())
}

/// Issue the one scalar upload call for an already promoted value.
pub fn send_promoted(p: Promoted, location: i32, ctx: &mut GlContext)
    ensures
        final(ctx).log() == old(ctx).log().push(scalar_call(location, p)),
        final(ctx).slots == old(ctx).slots,
        final(ctx).next_id == old(ctx).next_id,
{
    match p {
        Promoted::I { v } => ctx.record(DriverCall::Uniform1i { location, v }),
        Promoted::U { v } => ctx.record(DriverCall::Uniform1ui { location, v }),
        Promoted::F { bits } => ctx.record(DriverCall::Uniform1f { location, bits }),
        Promoted::D { bits } => ctx.record(DriverCall::Uniform1d { location, bits }),
    }
}

/// Issue the one vector upload call for a sequence of promoted components,
/// in the call family of the first component.
pub fn send_promoted_vector(ps: &Vec<Promoted>, location: i32, ctx: &mut GlContext)
    requires
        ps@.len() > 0,
    ensures
        final(ctx).log() == old(ctx).log().push(vector_call(location, ps@)),
        final(ctx).slots == old(ctx).slots,
        final(ctx).next_id == old(ctx).next_id,
{
    match ps[0] {
        Promoted::I { v: _ } => {
            let mut vals: Vec<i32> = Vec::new();
            let mut i: usize = 0;
            while i < ps.len()
                invariant
                    i <= ps@.len(),
                    vals@ == ps@.subrange(0, i as int).map_values(|p: Promoted| p.as_i()),
                decreases ps@.len() - i,
            {
                let p = ps[i];
                match p {
                    Promoted::I { v } => vals.push(v),
                    _ => vals.push(0),
                }
                proof {
                    assert(vals@ =~= ps@.subrange(0, i as int + 1).map_values(
                        |p: Promoted| p.as_i(),
                    ));
                }
                i = i + 1;
            }
            proof {
                assert(ps@.subrange(0, ps@.len() as int) =~= ps@);
            }
            ctx.record(DriverCall::Uniform1iv { location, vals });
        },
        Promoted::U { v: _ } => {
            let mut vals: Vec<u32> = Vec::new();
            let mut i: usize = 0;
            while i < ps.len()
                invariant
                    i <= ps@.len(),
                    vals@ == ps@.subrange(0, i as int).map_values(|p: Promoted| p.as_u()),
                decreases ps@.len() - i,
            {
                let p = ps[i];
                match p {
                    Promoted::U { v } => vals.push(v),
                    _ => vals.push(0),
                }
                proof {
                    assert(vals@ =~= ps@.subrange(0, i as int + 1).map_values(
                        |p: Promoted| p.as_u(),
                    ));
                }
                i = i + 1;
            }
            proof {
                assert(ps@.subrange(0, ps@.len() as int) =~= ps@);
            }
            ctx.record(DriverCall::Uniform1uiv { location, vals });
        },
        Promoted::F { bits: _ } => {
            let mut vals: Vec<u32> = Vec::new();
            let mut i: usize = 0;
            while i < ps.len()
                invariant
                    i <= ps@.len(),
                    vals@ == ps@.subrange(0, i as int).map_values(|p: Promoted| p.as_f()),
                decreases ps@.len() - i,
            {
                let p = ps[i];
                match p {
                    Promoted::F { bits } => vals.push(bits),
                    _ => vals.push(0),
                }
                proof {
                    assert(vals@ =~= ps@.subrange(0, i as int + 1).map_values(
                        |p: Promoted| p.as_f(),
                    ));
                }
                i = i + 1;
            }
            proof {
                assert(ps@.subrange(0, ps@.len() as int) =~= ps@);
            }
            ctx.record(DriverCall::Uniform1fv { location, bits: vals });
        },
        Promoted::D { bits: _ } => {
            let mut vals: Vec<u64> = Vec::new();
            let mut i: usize = 0;
            while i < ps.len()
                invariant
                    i <= ps@.len(),
                    vals@ == ps@.subrange(0, i as int).map_values(|p: Promoted| p.as_d()),
                decreases ps@.len() - i,
            {
                let p = ps[i];
                match p {
                    Promoted::D { bits } => vals.push(bits),
                    _ => vals.push(0),
                }
                proof {
                    assert(vals@ =~= ps@.subrange(0, i as int + 1).map_values(
                        |p: Promoted| p.as_d(),
                    ));
                }
                i = i + 1;
            }
            proof {
                assert(ps@.subrange(0, ps@.len() as int) =~= ps@);
            }
            ctx.record(DriverCall::Uniform1dv { location, bits: vals });
        },
    }
}

impl GlUniform for bool {
    open spec fn uniform_req(self) -> bool {
        true
    }

    open spec fn uniform_call(self, location: i32) -> Call {
        scalar_uniform_call(self, location)
    }

    fn send_uniform(&self, location: i32, ctx: &mut GlContext) {
        send_promoted(self.promote(), location, ctx);
    }
}

impl GlUniform for i8 {
    open spec fn uniform_req(self) -> bool {
        true
    }

    open spec fn uniform_call(self, location: i32) -> Call {
        scalar_uniform_call(self, location)
    }

    fn send_uniform(&self, location: i32, ctx: &mut GlContext) {
        send_promoted(self.promote(), location, ctx);
    }
}

impl GlUniform for u8 {
    open spec fn uniform_req(self) -> bool {
        true
    }

    open spec fn uniform_call(self, location: i32) -> Call {
        scalar_uniform_call(self, location)
    }

    fn send_uniform(&self, location: i32, ctx: &mut GlContext) {
        send_promoted(self.promote(), location, ctx);
    }
}

impl GlUniform for i16 {
    open spec fn uniform_req(self) -> bool {
        true
    }

    open spec fn uniform_call(self, location: i32) -> Call {
        scalar_uniform_call(self, location)
    }

    fn send_uniform(&self, location: i32, ctx: &mut GlContext) {
        send_promoted(self.promote(), location, ctx);
    }
}

impl GlUniform for u16 {
    open spec fn uniform_req(self) -> bool {
        true
    }

    open spec fn uniform_call(self, location: i32) -> Call {
        scalar_uniform_call(self, location)
    }

    fn send_uniform(&self, location: i32, ctx: &mut GlContext) {
        send_promoted(self.promote(), location, ctx);
    }
}

impl GlUniform for i32 {
    open spec fn uniform_req(self) -> bool {
        true
    }

    open spec fn uniform_call(self, location: i32) -> Call {
        scalar_uniform_call(self, location)
    }

    fn send_uniform(&self, location: i32, ctx: &mut GlContext) {
        send_promoted(self.promote(), location, ctx);
    }
}

impl GlUniform for u32 {
    open spec fn uniform_req(self) -> bool {
        true
    }

    open spec fn uniform_call(self, location: i32) -> Call {
        scalar_uniform_call(self, location)
    }

    fn send_uniform(&self, location: i32, ctx: &mut GlContext) {
        send_promoted(self.promote(), location, ctx);
    }
}

impl GlUniform for F32Bits {
    open spec fn uniform_req(self) -> bool {
        true
    }

    open spec fn uniform_call(self, location: i32) -> Call {
        scalar_uniform_call(self, location)
    }

    fn send_uniform(&self, location: i32, ctx: &mut GlContext) {
        send_promoted(self.promote(), location, ctx);
    }
}

impl GlUniform for F64Bits {
    open spec fn uniform_req(self) -> bool {
        true
    }

    open spec fn uniform_call(self, location: i32) -> Call {
        scalar_uniform_call(self, location)
    }

    fn send_uniform(&self, location: i32, ctx: &mut GlContext) {
        send_promoted(self.promote(), location, ctx);
    }
}

/// Law: sending a boolean through the uniform protocol issues exactly the
/// driver call that the corresponding 32-bit signed integer issues — one for
/// true, zero for false.
pub proof fn lemma_bool_promotion(b: bool, location: i32)
    ensures
        b.uniform_call(location) == (if b { 1i32 } else { 0i32 }).uniform_call(location),
{
}

/// Which framebuffer planes a clear call erases.
#[derive(Default, Debug, PartialEq, Eq, Clone, Copy, Structural)]
pub enum ClearFlags {
    #[default]
    ColorBufferBit,
    DepthBufferBit,
    StencilBufferBit,
}

impl ClearFlags {
    pub open spec fn enum_spec(self) -> u32 {
        match self {
            ClearFlags::ColorBufferBit => crate::consts::GL_COLOR_BUFFER_BIT,
            ClearFlags::DepthBufferBit => crate::consts::GL_DEPTH_BUFFER_BIT,
            ClearFlags::StencilBufferBit => crate::consts::GL_STENCIL_BUFFER_BIT,
        }
    }

    pub fn to_enum(&self) -> (r: u32)
        ensures
            r == self.enum_spec(),
    {
        match self {
            ClearFlags::ColorBufferBit => crate::consts::GL_COLOR_BUFFER_BIT,
            ClearFlags::DepthBufferBit => crate::consts::GL_DEPTH_BUFFER_BIT,
            ClearFlags::StencilBufferBit => crate::consts::GL_STENCIL_BUFFER_BIT,
        }
    }
}

/// The mask that one clear call gets for `flags`: the bitwise or of the
/// flags' constants, zero for no flags.
pub open spec fn clear_mask_spec(flags: Seq<ClearFlags>) -> u32
    decreases flags.len(),
{
    if flags.len() == 0 {
        0u32
    } else {
        clear_mask_spec(flags.drop_last()) | flags.last().enum_spec()
    }
}

/// Fold the flags of one clear request into the single mask argument of the
/// driver's clear call.
pub fn clear_mask(flags: &Vec<ClearFlags>) -> (mask: u32)
    ensures
        mask == clear_mask_spec(flags@),
{
    let mut mask: u32 = 0;
    let mut i: usize = 0;
    while i < flags.len()
        invariant
            i <= flags@.len(),
            mask == clear_mask_spec(flags@.subrange(0, i as int)),
        decreases flags@.len() - i,
    {
        mask = mask | flags[i].to_enum();
        proof {
            let pre = flags@.subrange(0, i as int + 1);
            assert(pre.drop_last() =~= flags@.subrange(0, i as int));
            assert(pre.last() == flags@[i as int]);
        }
        i = i + 1;
    }
    proof {
        assert(flags@.subrange(0, flags@.len() as int) =~= flags@);
    }
    mask
}

/// The driver capabilities this layer toggles.
#[derive(Default, Debug, PartialEq, Eq, Clone, Copy, Structural)]
pub enum EnableFlags {
    #[default]
    Blend,
    CullFace,
    DepthTest,
    Dither,
    Texture2D,
    ScissorTest,
}

impl EnableFlags {
    pub open spec fn enum_spec(self) -> u32 {
        match self {
            EnableFlags::Blend => crate::consts::GL_BLEND,
            EnableFlags::CullFace => crate::consts::GL_CULL_FACE,
            EnableFlags::DepthTest => crate::consts::GL_DEPTH_TEST,
            EnableFlags::Dither => crate::consts::GL_DITHER,
            EnableFlags::Texture2D => crate::consts::GL_TEXTURE_2D,
            EnableFlags::ScissorTest => crate::consts::GL_SCISSOR_TEST,
        }
    }

    pub fn to_enum(&self) -> (r: u32)
        ensures
            r == self.enum_spec(),
    {
        match self {
            EnableFlags::Blend => crate::consts::GL_BLEND,
            EnableFlags::CullFace => crate::consts::GL_CULL_FACE,
            EnableFlags::DepthTest => crate::consts::GL_DEPTH_TEST,
            EnableFlags::Dither => crate::consts::GL_DITHER,
            EnableFlags::Texture2D => crate::consts::GL_TEXTURE_2D,
            EnableFlags::ScissorTest => crate::consts::GL_SCISSOR_TEST,
        }
    }
}

/// How a draw call assembles vertices into primitives.
#[derive(Default, Debug, PartialEq, Eq, Copy, Clone, Structural)]
pub enum DrawMode {
    Points,
    Lines,
    #[default]
    Triangles,
}

impl DrawMode {
    pub open spec fn enum_spec(self) -> u32 {
        match self {
            DrawMode::Points => crate::consts::GL_POINTS,
            DrawMode::Lines => crate::consts::GL_LINES,
            DrawMode::Triangles => crate::consts::GL_TRIANGLES,
        }
    }

    pub fn to_enum(&self) -> (r: u32)
        ensures
            r == self.enum_spec(),
    {
        match self {
            DrawMode::Points => crate::consts::GL_POINTS,
            DrawMode::Lines => crate::consts::GL_LINES,
            DrawMode::Triangles => crate::consts::GL_TRIANGLES,
        }
    }
}

/// The blending factors of the fixed-function blend equation.
#[derive(Debug, PartialEq, Eq, PartialOrd, Ord, Copy, Clone, Structural)]
pub enum BlendFunc {
    Zero,
    One,
    SrcColor,
    OneMinusSrcColor,
    DstColor,
    OneMinusDstColor,
    SrcAlpha,
    OneMinusSrcAlpha,
    DstAlpha,
    OneMinusDstAlpha,
    ConstantColor,
    OneMinusConstantColor,
    ConstantAlpha,
    OneMinusConstantAlpha,
}

impl BlendFunc {
    pub open spec fn enum_spec(self) -> u32 {
        match self {
            BlendFunc::Zero => crate::consts::GL_ZERO,
            BlendFunc::One => crate::consts::GL_ONE,
            BlendFunc::SrcColor => crate::consts::GL_SRC_COLOR,
            BlendFunc::OneMinusSrcColor => crate::consts::GL_ONE_MINUS_SRC_COLOR,
            BlendFunc::DstColor => crate::consts::GL_DST_COLOR,
            BlendFunc::OneMinusDstColor => crate::consts::GL_ONE_MINUS_DST_COLOR,
            BlendFunc::SrcAlpha => crate::consts::GL_SRC_ALPHA,
            BlendFunc::OneMinusSrcAlpha => crate::consts::GL_ONE_MINUS_SRC_ALPHA,
            BlendFunc::DstAlpha => crate::consts::GL_DST_ALPHA,
            BlendFunc::OneMinusDstAlpha => crate::consts::GL_ONE_MINUS_DST_ALPHA,
            BlendFunc::ConstantColor => crate::consts::GL_CONSTANT_COLOR,
            BlendFunc::OneMinusConstantColor => crate::consts::GL_ONE_MINUS_CONSTANT_COLOR,
            BlendFunc::ConstantAlpha => crate::consts::GL_CONSTANT_ALPHA,
            BlendFunc::OneMinusConstantAlpha => crate::consts::GL_ONE_MINUS_CONSTANT_ALPHA,
        }
    }

    pub fn to_enum(&self) -> (r: u32)
        ensures
            r == self.enum_spec(),
    {
        match self {
            BlendFunc::Zero => crate::consts::GL_ZERO,
            BlendFunc::One => crate::consts::GL_ONE,
            BlendFunc::SrcColor => crate::consts::GL_SRC_COLOR,
            BlendFunc::OneMinusSrcColor => crate::consts::GL_ONE_MINUS_SRC_COLOR,
            BlendFunc::DstColor => crate::consts::GL_DST_COLOR,
            BlendFunc::OneMinusDstColor => crate::consts::GL_ONE_MINUS_DST_COLOR,
            BlendFunc::SrcAlpha => crate::consts::GL_SRC_ALPHA,
            BlendFunc::OneMinusSrcAlpha => crate::consts::GL_ONE_MINUS_SRC_ALPHA,
            BlendFunc::DstAlpha => crate::consts::GL_DST_ALPHA,
            BlendFunc::OneMinusDstAlpha => crate::consts::GL_ONE_MINUS_DST_ALPHA,
            BlendFunc::ConstantColor => crate::consts::GL_CONSTANT_COLOR,
            BlendFunc::OneMinusConstantColor => crate::consts::GL_ONE_MINUS_CONSTANT_COLOR,
            BlendFunc::ConstantAlpha => crate::consts::GL_CONSTANT_ALPHA,
            BlendFunc::OneMinusConstantAlpha => crate::consts::GL_ONE_MINUS_CONSTANT_ALPHA,
        }
    }
}

/// Which faces the fixed-function culling stage discards.
#[derive(Default, Debug, PartialEq, Eq, PartialOrd, Ord, Copy, Clone, Structural)]
pub enum CullMode {
    #[default]
    Front,
    Back,
    FrontAndBack,
}

impl CullMode {
    pub open spec fn enum_spec(self) -> u32 {
        match self {
            CullMode::Front => crate::consts::GL_FRONT,
            CullMode::Back => crate::consts::GL_BACK,
            CullMode::FrontAndBack => crate::consts::GL_FRONT_AND_BACK,
        }
    }

    pub fn to_enum(&self) -> (r: u32)
        ensures
            r == self.enum_spec(),
    {
        match self {
            CullMode::Front => crate::consts::GL_FRONT,
            CullMode::Back => crate::consts::GL_BACK,
            CullMode::FrontAndBack => crate::consts::GL_FRONT_AND_BACK,
        }
    }
}

/// Which winding order counts as front-facing.
#[derive(Default, Debug, PartialEq, Eq, PartialOrd, Ord, Copy, Clone, Structural)]
pub enum FrontFace {
    #[default]
    CCW,
    CW,
}

impl FrontFace {
    pub open spec fn enum_spec(self) -> u32 {
        match self {
            FrontFace::CCW => crate::consts::GL_CCW,
            FrontFace::CW => crate::consts::GL_CW,
        }
    }

    pub fn to_enum(&self) -> (r: u32)
        ensures
            r == self.enum_spec(),
    {
        match self {
            FrontFace::CCW => crate::consts::GL_CCW,
            FrontFace::CW => crate::consts::GL_CW,
        }
    }
}

/// The comparison functions of the depth and stencil tests.
#[derive(Debug, PartialEq, Eq, PartialOrd, Ord, Copy, Clone, Structural)]
pub enum GlFunc {
    Never,
    Less,
    Equal,
    LEqual,
    Greater,
    NotEqual,
    GEqual,
    Always,
}

impl GlFunc {
    pub open spec fn enum_spec(self) -> u32 {
        match self {
            GlFunc::Never => crate::consts::GL_NEVER,
            GlFunc::Less => crate::consts::GL_LESS,
            GlFunc::Equal => crate::consts::GL_EQUAL,
            GlFunc::LEqual => crate::consts::GL_LEQUAL,
            GlFunc::Greater => crate::consts::GL_GREATER,
            GlFunc::NotEqual => crate::consts::GL_NOTEQUAL,
            GlFunc::GEqual => crate::consts::GL_GEQUAL,
            GlFunc::Always => crate::consts::GL_ALWAYS,
        }
    }

    pub fn to_enum(&self) -> (r: u32)
        ensures
            r == self.enum_spec(),
    {
        match self {
            GlFunc::Never => crate::consts::GL_NEVER,
            GlFunc::Less => crate::consts::GL_LESS,
            GlFunc::Equal => crate::consts::GL_EQUAL,
            GlFunc::LEqual => crate::consts::GL_LEQUAL,
            GlFunc::Greater => crate::consts::GL_GREATER,
            GlFunc::NotEqual => crate::consts::GL_NOTEQUAL,
            GlFunc::GEqual => crate::consts::GL_GEQUAL,
            GlFunc::Always => crate::consts::GL_ALWAYS,
        }
    }
}

/// The element type tags that buffers and vertex attributes carry.
#[derive(Debug, Clone, Copy, PartialEq, Eq, Structural)]
pub enum GlType {
    Byte,
    UByte,
    Short,
    UShort,
    Int,
    UInt,
    Float,
    Double,
}

impl GlType {
    /// The driver's numeric tag for this element type.
    pub open spec fn enum_spec(self) -> u32 {
        match self {
            GlType::Byte => GL_BYTE,
            GlType::UByte => GL_UNSIGNED_BYTE,
            GlType::Short => GL_SHORT,
            GlType::UShort => GL_UNSIGNED_SHORT,
            GlType::Int => GL_INT,
            GlType::UInt => GL_UNSIGNED_INT,
            GlType::Float => GL_FLOAT,
            GlType::Double => GL_DOUBLE,
        }
    }

    pub fn to_enum(&self) -> (r: u32)
        ensures
            r == self.enum_spec(),
    {
        match self {
            GlType::Byte => GL_BYTE,
            GlType::UByte => GL_UNSIGNED_BYTE,
            GlType::Short => GL_SHORT,
            GlType::UShort => GL_UNSIGNED_SHORT,
            GlType::Int => GL_INT,
            GlType::UInt => GL_UNSIGNED_INT,
            GlType::Float => GL_FLOAT,
            GlType::Double => GL_DOUBLE,
        }
    }

    /// The byte footprint of one scalar of this element type.
    pub open spec fn byte_size_spec(self) -> u32 {
        match self {
            GlType::Byte => 1,
            GlType::UByte => 1,
            GlType::Short => 2,
            GlType::UShort => 2,
            GlType::Int => 4,
            GlType::UInt => 4,
            GlType::Float => 4,
            GlType::Double => 8,
        }
    }

    pub fn byte_size(&self) -> (r: u32)
        ensures
            r == self.byte_size_spec(),
    {
        match self {
            GlType::Byte => 1,
            GlType::UByte => 1,
            GlType::Short => 2,
            GlType::UShort => 2,
            GlType::Int => 4,
            GlType::UInt => 4,
            GlType::Float => 4,
            GlType::Double => 8,
        }
    }
}

} // verus!
