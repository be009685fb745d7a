//! Texture objects: owning handles per target, bound through the context's
//! texture slots, with image upload and sampling-parameter calls that act on
//! the bound occupant of their target.
use vstd::prelude::*;

pub mod gl3;
pub mod gles2;

pub use crate::texture::gl3::{PixelFormat, TexFilter, TexParam, TexTarget, TexWrap, Texture};

verus! {

use crate::call::{Call, DriverCall};
use crate::consts::{
    GL_BYTE, GL_UNSIGNED_BYTE, GL_SHORT, GL_UNSIGNED_SHORT, GL_INT, GL_UNSIGNED_INT, GL_FLOAT,
    GL_NONE, GL_TEXTURE_MIN_FILTER, GL_TEXTURE_MAG_FILTER, GL_TEXTURE_WRAP_S, GL_TEXTURE_WRAP_T,
    GL_TEXTURE_WRAP_R, GL_TEXTURE_CUBE_MAP_POSITIVE_X, GL_TEXTURE_CUBE_MAP_NEGATIVE_X,
    GL_TEXTURE_CUBE_MAP_POSITIVE_Y, GL_TEXTURE_CUBE_MAP_NEGATIVE_Y,
    GL_TEXTURE_CUBE_MAP_POSITIVE_Z, GL_TEXTURE_CUBE_MAP_NEGATIVE_Z,
};
use crate::context::{alloc_call, dealloc_call, GlContext, ResourceCategory, SlotKind};
use crate::{GlBind, GlObject, GlTarget, GlslType};
use vstd::string::StringExecFns;

/// How the bytes of one uploaded pixel rectangle are typed. The packed
/// multi-component layouts carry no constant here and map to `GL_NONE`.
#[derive(Default, Debug, Copy, Clone, PartialEq, Eq, Structural)]
pub enum PixelDataType {
    Byte,
    #[default]
    UByte,
    Short,
    UShort,
    Int,
    UInt,
    Float,
    UByte3_3_2,
    UByte2_3_3Rev,
    UShort5_6_5,
    UShort5_6_5Rev,
    UShort4_4_4_4,
    UShort5_5_5_1,
    UShort1_5_5_5Rev,
    UInt8_8_8_8,
    UInt8_8_8_8Rev,
    UInt10_10_10_2,
    UInt2_10_10_10Rev,
}

impl PixelDataType {
    pub open spec fn enum_spec(self) -> u32 {
        match self {
            PixelDataType::Byte => GL_BYTE,
            PixelDataType::UByte => GL_UNSIGNED_BYTE,
            PixelDataType::Short => GL_SHORT,
            PixelDataType::UShort => GL_UNSIGNED_SHORT,
            PixelDataType::Int => GL_INT,
            PixelDataType::UInt => GL_UNSIGNED_INT,
            PixelDataType::Float => GL_FLOAT,
            _ => GL_NONE,
        }
    }

    pub fn to_enum(&self) -> (r: u32)
        ensures
            r == self.enum_spec(),
    {
        match self {
            PixelDataType::Byte => GL_BYTE,
            PixelDataType::UByte => GL_UNSIGNED_BYTE,
            PixelDataType::Short => GL_SHORT,
            PixelDataType::UShort => GL_UNSIGNED_SHORT,
            PixelDataType::Int => GL_INT,
            PixelDataType::UInt => GL_UNSIGNED_INT,
            PixelDataType::Float => GL_FLOAT,
            _ => GL_NONE,
        }
    }
}

/// The operations every texture category shares: sampling parameters, set on
/// the texture currently bound to the category's slot.
pub trait GlTexture: GlBind + GlObject + GlTarget {
    /// Set the minification filter of the bound texture.
    fn set_min_filter(&self, filter: TexFilter, ctx: &mut GlContext)
        requires
            old(ctx).slots.spec_get(Self::slot()) == self.id_spec(),
        ensures
            final(ctx).log() == old(ctx).log().push(
                Call::TexParameter {
                    target: Self::slot().target_spec(),
                    pname: GL_TEXTURE_MIN_FILTER,
                    param: filter.enum_spec(),
                },
            ),
            final(ctx).slots == old(ctx).slots,
            final(ctx).next_id == old(ctx).next_id,
    {
        ctx.record(
            DriverCall::TexParameter {
                target: Self::target(),
                pname: GL_TEXTURE_MIN_FILTER,
                param: filter.to_enum(),
            },
        );
    }

    /// Set the magnification filter of the bound texture.
    fn set_mag_filter(&self, filter: TexFilter, ctx: &mut GlContext)
        requires
            old(ctx).slots.spec_get(Self::slot()) == self.id_spec(),
        ensures
            final(ctx).log() == old(ctx).log().push(
                Call::TexParameter {
                    target: Self::slot().target_spec(),
                    pname: GL_TEXTURE_MAG_FILTER,
                    param: filter.enum_spec(),
                },
            ),
            final(ctx).slots == old(ctx).slots,
            final(ctx).next_id == old(ctx).next_id,
    {
        ctx.record(
            DriverCall::TexParameter {
                target: Self::target(),
                pname: GL_TEXTURE_MAG_FILTER,
                param: filter.to_enum(),
            },
        );
    }

    /// Set the wrap mode of the first texture coordinate.
    fn set_wrap_s(&self, wrap: TexWrap, ctx: &mut GlContext)
        requires
            old(ctx).slots.spec_get(Self::slot()) == self.id_spec(),
        ensures
            final(ctx).log() == old(ctx).log().push(
                Call::TexParameter {
                    target: Self::slot().target_spec(),
                    pname: GL_TEXTURE_WRAP_S,
                    param: wrap.enum_spec(),
                },
            ),
            final(ctx).slots == old(ctx).slots,
            final(ctx).next_id == old(ctx).next_id,
    {
        ctx.record(
            DriverCall::TexParameter {
                target: Self::target(),
                pname: GL_TEXTURE_WRAP_S,
                param: wrap.to_enum(),
            },
        );
    }

    /// Set the wrap mode of the second texture coordinate.
    fn set_wrap_t(&self, wrap: TexWrap, ctx: &mut GlContext)
        requires
            old(ctx).slots.spec_get(Self::slot()) == self.id_spec(),
        ensures
            final(ctx).log() == old(ctx).log().push(
                Call::TexParameter {
                    target: Self::slot().target_spec(),
                    pname: GL_TEXTURE_WRAP_T,
                    param: wrap.enum_spec(),
                },
            ),
            final(ctx).slots == old(ctx).slots,
            final(ctx).next_id == old(ctx).next_id,
    {
        ctx.record(
            DriverCall::TexParameter {
                target: Self::target(),
                pname: GL_TEXTURE_WRAP_T,
                param: wrap.to_enum(),
            },
        );
    }

    /// Set the wrap mode of the third texture coordinate.
    fn set_wrap_r(&self, wrap: TexWrap, ctx: &mut GlContext)
        requires
            old(ctx).slots.spec_get(Self::slot()) == self.id_spec(),
        ensures
            final(ctx).log() == old(ctx).log().push(
                Call::TexParameter {
                    target: Self::slot().target_spec(),
                    pname: GL_TEXTURE_WRAP_R,
                    param: wrap.enum_spec(),
                },
            ),
            final(ctx).slots == old(ctx).slots,
            final(ctx).next_id == old(ctx).next_id,
    {
        ctx.record(
            DriverCall::TexParameter {
                target: Self::target(),
                pname: GL_TEXTURE_WRAP_R,
                param: wrap.to_enum(),
            },
        );
    }
}

/// The image-upload call for one full two-dimensional rectangle.
fn tex_image_2d(
    target: u32,
    level: i32,
    internal: PixelFormat,
    size: (i32, i32),
    format: PixelFormat,
    data_type: PixelDataType,
    data: Vec<u8>,
    ctx: &mut GlContext,
)
    ensures
        final(ctx).log() == old(ctx).log().push(
            Call::TexImage2D {
                target,
                level,
                internal_format: internal.enum_spec(),
                width: size.0,
                height: size.1,
                border: 0,
                format: format.enum_spec(),
                data_type: data_type.enum_spec(),
                data_len: data@.len() as usize,
            },
        ),
        final(ctx).slots == old(ctx).slots,
        final(ctx).next_id == old(ctx).next_id,
{
    ctx.record(
        DriverCall::TexImage2D {
            target,
            level,
            internal_format: internal.to_enum(),
            width: size.0,
            height: size.1,
            border: 0,
            format: format.to_enum(),
            data_type: data_type.to_enum(),
            data_len: data.len(),
        },
    );
}

/// The image-upload call for one sub-rectangle of an existing image.
fn tex_subimage_2d(
    target: u32,
    level: i32,
    offset: (i32, i32),
    size: (i32, i32),
    format: PixelFormat,
    data_type: PixelDataType,
    data: Vec<u8>,
    ctx: &mut GlContext,
)
    ensures
        final(ctx).log() == old(ctx).log().push(
            Call::TexSubImage2D {
                target,
                level,
                x_offset: offset.0,
                y_offset: offset.1,
                width: size.0,
                height: size.1,
                format: format.enum_spec(),
                data_type: data_type.enum_spec(),
                data_len: data@.len() as usize,
            },
        ),
        final(ctx).slots == old(ctx).slots,
        final(ctx).next_id == old(ctx).next_id,
{
    ctx.record(
        DriverCall::TexSubImage2D {
            target,
            level,
            x_offset: offset.0,
            y_offset: offset.1,
            width: size.0,
            height: size.1,
            format: format.to_enum(),
            data_type: data_type.to_enum(),
            data_len: data.len(),
        },
    );
}

/// An owning handle to one driver-side one-dimensional texture.
#[derive(Debug, PartialEq, Eq)]
pub struct Texture1D {
    id: u32,
}

/// An owning handle to one driver-side two-dimensional texture.
#[derive(Debug, PartialEq, Eq)]
pub struct Texture2D {
    id: u32,
}

/// An owning handle to one driver-side three-dimensional texture.
#[derive(Debug, PartialEq, Eq)]
pub struct Texture3D {
    id: u32,
}

/// An owning handle to one driver-side cube map texture.
#[derive(Debug, PartialEq, Eq)]
pub struct TextureCubeMap {
    id: u32,
}

impl Texture1D {
    /// Allocate one driver-side texture and own it; the driver reports no
    /// failure for this call, so the result is always the handle.
    pub fn new(ctx: &mut GlContext) -> (r: Result<Texture1D, String>)
        requires
            old(ctx).wf(),
            old(ctx).next_id < u32::MAX,
        ensures
            r is Ok,
            r matches Ok(t) ==> t.id_spec() == old(ctx).next_id && t.id_spec() >= 1,
            final(ctx).log() == old(ctx).log().push(
                alloc_call(ResourceCategory::Texture, old(ctx).next_id),
            ),
            final(ctx).slots == old(ctx).slots,
            final(ctx).next_id == old(ctx).next_id + 1,
            final(ctx).wf(),
    {
        let id = ctx.allocate(ResourceCategory::Texture);
        Ok(Texture1D { id })
    }

    /// Issue the one deallocation call of this handle's lifetime.
    pub fn delete(self, ctx: &mut GlContext)
        ensures
            final(ctx).log() == old(ctx).log().push(
                dealloc_call(ResourceCategory::Texture, self.id_spec()),
            ),
            final(ctx).slots == old(ctx).slots,
            final(ctx).next_id == old(ctx).next_id,
    {
        ctx.deallocate(ResourceCategory::Texture, self.id);
    }
}

impl Texture2D {
    /// Allocate one driver-side texture and own it; the driver reports no
    /// failure for this call, so the result is always the handle.
    pub fn new(ctx: &mut GlContext) -> (r: Result<Texture2D, String>)
        requires
            old(ctx).wf(),
            old(ctx).next_id < u32::MAX,
        ensures
            r is Ok,
            r matches Ok(t) ==> t.id_spec() == old(ctx).next_id && t.id_spec() >= 1,
            final(ctx).log() == old(ctx).log().push(
                alloc_call(ResourceCategory::Texture, old(ctx).next_id),
            ),
            final(ctx).slots == old(ctx).slots,
            final(ctx).next_id == old(ctx).next_id + 1,
            final(ctx).wf(),
    {
        let id = ctx.allocate(ResourceCategory::Texture);
        Ok(Texture2D { id })
    }

    /// Issue the one deallocation call of this handle's lifetime.
    pub fn delete(self, ctx: &mut GlContext)
        ensures
            final(ctx).log() == old(ctx).log().push(
                dealloc_call(ResourceCategory::Texture, self.id_spec()),
            ),
            final(ctx).slots == old(ctx).slots,
            final(ctx).next_id == old(ctx).next_id,
    {
        ctx.deallocate(ResourceCategory::Texture, self.id);
    }

    /// Upload one full image rectangle to this texture, which must occupy
    /// its binding slot.
    pub fn data(
        &self,
        level: i32,
        format: PixelFormat,
        size: (i32, i32),
        data_type: PixelDataType,
        data: Vec<u8>,
        ctx: &mut GlContext,
    )
        requires
            old(ctx).slots.spec_get(SlotKind::Texture2D) == self.id_spec(),
        ensures
            final(ctx).log() == old(ctx).log().push(
                Call::TexImage2D {
                    target: SlotKind::Texture2D.target_spec(),
                    level,
                    internal_format: format.enum_spec(),
                    width: size.0,
                    height: size.1,
                    border: 0,
                    format: format.enum_spec(),
                    data_type: data_type.enum_spec(),
                    data_len: data@.len() as usize,
                },
            ),
            final(ctx).slots == old(ctx).slots,
            final(ctx).next_id == old(ctx).next_id,
    {
        tex_image_2d(Self::target(), level, format, size, format, data_type, data, ctx);
    }

    /// Overwrite one sub-rectangle of this texture's image; the texture
    /// must occupy its binding slot.
    pub fn subdata(
        &self,
        level: i32,
        offset: (i32, i32),
        size: (i32, i32),
        format: PixelFormat,
        data_type: PixelDataType,
        data: Vec<u8>,
        ctx: &mut GlContext,
    )
        requires
            old(ctx).slots.spec_get(SlotKind::Texture2D) == self.id_spec(),
        ensures
            final(ctx).log() == old(ctx).log().push(
                Call::TexSubImage2D {
                    target: SlotKind::Texture2D.target_spec(),
                    level,
                    x_offset: offset.0,
                    y_offset: offset.1,
                    width: size.0,
                    height: size.1,
                    format: format.enum_spec(),
                    data_type: data_type.enum_spec(),
                    data_len: data@.len() as usize,
                },
            ),
            final(ctx).slots == old(ctx).slots,
            final(ctx).next_id == old(ctx).next_id,
    {
        tex_subimage_2d(Self::target(), level, offset, size, format, data_type, data, ctx);
    }
}

impl Texture3D {
    /// Allocate one driver-side texture and own it; the driver reports no
    /// failure for this call, so the result is always the handle.
    pub fn new(ctx: &mut GlContext) -> (r: Result<Texture3D, String>)
        requires
            old(ctx).wf(),
            old(ctx).next_id < u32::MAX,
        ensures
            r is Ok,
            r matches Ok(t) ==> t.id_spec() == old(ctx).next_id && t.id_spec() >= 1,
            final(ctx).log() == old(ctx).log().push(
                alloc_call(ResourceCategory::Texture, old(ctx).next_id),
            ),
            final(ctx).slots == old(ctx).slots,
            final(ctx).next_id == old(ctx).next_id + 1,
            final(ctx).wf(),
    {
        let id = ctx.allocate(ResourceCategory::Texture);
        Ok(Texture3D { id })
    }

    /// Issue the one deallocation call of this handle's lifetime.
    pub fn delete(self, ctx: &mut GlContext)
        ensures
            final(ctx).log() == old(ctx).log().push(
                dealloc_call(ResourceCategory::Texture, self.id_spec()),
            ),
            final(ctx).slots == old(ctx).slots,
            final(ctx).next_id == old(ctx).next_id,
    {
        ctx.deallocate(ResourceCategory::Texture, self.id);
    }
}

/// The six faces of a cube map, each its own upload target.
#[derive(Default, Debug, Copy, Clone, PartialEq, Eq, Structural)]
pub enum CubeMapSide {
    #[default]
    PositiveX,
    NegativeX,
    PositiveY,
    NegativeY,
    PositiveZ,
    NegativeZ,
}

impl CubeMapSide {
    pub open spec fn enum_spec(self) -> u32 {
        match self {
            CubeMapSide::PositiveX => GL_TEXTURE_CUBE_MAP_POSITIVE_X,
            CubeMapSide::NegativeX => GL_TEXTURE_CUBE_MAP_NEGATIVE_X,
            CubeMapSide::PositiveY => GL_TEXTURE_CUBE_MAP_POSITIVE_Y,
            CubeMapSide::NegativeY => GL_TEXTURE_CUBE_MAP_NEGATIVE_Y,
            CubeMapSide::PositiveZ => GL_TEXTURE_CUBE_MAP_POSITIVE_Z,
            CubeMapSide::NegativeZ => GL_TEXTURE_CUBE_MAP_NEGATIVE_Z,
        }
    }

    pub fn to_enum(&self) -> (r: u32)
        ensures
            r == self.enum_spec(),
    {
        match self {
            CubeMapSide::PositiveX => GL_TEXTURE_CUBE_MAP_POSITIVE_X,
            CubeMapSide::NegativeX => GL_TEXTURE_CUBE_MAP_NEGATIVE_X,
            CubeMapSide::PositiveY => GL_TEXTURE_CUBE_MAP_POSITIVE_Y,
            CubeMapSide::NegativeY => GL_TEXTURE_CUBE_MAP_NEGATIVE_Y,
            CubeMapSide::PositiveZ => GL_TEXTURE_CUBE_MAP_POSITIVE_Z,
            CubeMapSide::NegativeZ => GL_TEXTURE_CUBE_MAP_NEGATIVE_Z,
        }
    }
}

impl TextureCubeMap {
    /// Allocate one driver-side texture and own it; the driver reports no
    /// failure for this call, so the result is always the handle.
    pub fn new(ctx: &mut GlContext) -> (r: Result<TextureCubeMap, String>)
        requires
            old(ctx).wf(),
            old(ctx).next_id < u32::MAX,
        ensures
            r is Ok,
            r matches Ok(t) ==> t.id_spec() == old(ctx).next_id && t.id_spec() >= 1,
            final(ctx).log() == old(ctx).log().push(
                alloc_call(ResourceCategory::Texture, old(ctx).next_id),
            ),
            final(ctx).slots == old(ctx).slots,
            final(ctx).next_id == old(ctx).next_id + 1,
            final(ctx).wf(),
    {
        let id = ctx.allocate(ResourceCategory::Texture);
        Ok(TextureCubeMap { id })
    }

    /// Issue the one deallocation call of this handle's lifetime.
    pub fn delete(self, ctx: &mut GlContext)
        ensures
            final(ctx).log() == old(ctx).log().push(
                dealloc_call(ResourceCategory::Texture, self.id_spec()),
            ),
            final(ctx).slots == old(ctx).slots,
            final(ctx).next_id == old(ctx).next_id,
    {
        ctx.deallocate(ResourceCategory::Texture, self.id);
    }

    /// Upload one full image rectangle to face `side` of this cube map,
    /// which must occupy its binding slot.
    pub fn data(
        &self,
        side: CubeMapSide,
        level: i32,
        format: PixelFormat,
        size: (i32, i32),
        data_type: PixelDataType,
        data: Vec<u8>,
        ctx: &mut GlContext,
    )
        requires
            old(ctx).slots.spec_get(SlotKind::TextureCubeMap) == self.id_spec(),
        ensures
            final(ctx).log() == old(ctx).log().push(
                Call::TexImage2D {
                    target: side.enum_spec(),
                    level,
                    internal_format: format.enum_spec(),
                    width: size.0,
                    height: size.1,
                    border: 0,
                    format: format.enum_spec(),
                    data_type: data_type.enum_spec(),
                    data_len: data@.len() as usize,
                },
            ),
            final(ctx).slots == old(ctx).slots,
            final(ctx).next_id == old(ctx).next_id,
    {
        tex_image_2d(side.to_enum(), level, format, size, format, data_type, data, ctx);
    }

    /// Overwrite one sub-rectangle of face `side`; the cube map must occupy
    /// its binding slot.
    pub fn subdata(
        &self,
        side: CubeMapSide,
        level: i32,
        offset: (i32, i32),
        size: (i32, i32),
        format: PixelFormat,
        data_type: PixelDataType,
        data: Vec<u8>,
        ctx: &mut GlContext,
    )
        requires
            old(ctx).slots.spec_get(SlotKind::TextureCubeMap) == self.id_spec(),
        ensures
            final(ctx).log() == old(ctx).log().push(
                Call::TexSubImage2D {
                    target: side.enum_spec(),
                    level,
                    x_offset: offset.0,
                    y_offset: offset.1,
                    width: size.0,
                    height: size.1,
                    format: format.enum_spec(),
                    data_type: data_type.enum_spec(),
                    data_len: data@.len() as usize,
                },
            ),
            final(ctx).slots == old(ctx).slots,
            final(ctx).next_id == old(ctx).next_id,
    {
        tex_subimage_2d(side.to_enum(), level, offset, size, format, data_type, data, ctx);
    }
}

impl GlObject for Texture1D {
    closed spec fn id_spec(&self) -> u32 {
        self.id
    }

    fn get_id(&self) -> u32 {
        self.id
    }
}

impl GlTarget for Texture1D {
    open spec fn slot() -> SlotKind {
        SlotKind::Texture1D
    }

    fn slot_kind() -> SlotKind {
        SlotKind::Texture1D
    }
}

impl GlBind for Texture1D {
}

impl GlTexture for Texture1D {
}

impl GlObject for Texture2D {
    closed spec fn id_spec(&self) -> u32 {
        self.id
    }

    fn get_id(&self) -> u32 {
        self.id
    }
}

impl GlTarget for Texture2D {
    open spec fn slot() -> SlotKind {
        SlotKind::Texture2D
    }

    fn slot_kind() -> SlotKind {
        SlotKind::Texture2D
    }
}

impl GlBind for Texture2D {
}

impl GlTexture for Texture2D {
}

impl GlObject for Texture3D {
    closed spec fn id_spec(&self) -> u32 {
        self.id
    }

    fn get_id(&self) -> u32 {
        self.id
    }
}

impl GlTarget for Texture3D {
    open spec fn slot() -> SlotKind {
        SlotKind::Texture3D
    }

    fn slot_kind() -> SlotKind {
        SlotKind::Texture3D
    }
}

impl GlBind for Texture3D {
}

impl GlTexture for Texture3D {
}

impl GlObject for TextureCubeMap {
    closed spec fn id_spec(&self) -> u32 {
        self.id
    }

    fn get_id(&self) -> u32 {
        self.id
    }
}

impl GlTarget for TextureCubeMap {
    open spec fn slot() -> SlotKind {
        SlotKind::TextureCubeMap
    }

    fn slot_kind() -> SlotKind {
        SlotKind::TextureCubeMap
    }
}

impl GlBind for TextureCubeMap {
}

impl GlTexture for TextureCubeMap {
}

/// The marker for the shading language's two-dimensional sampler type.
#[derive(Debug, Clone, Copy, PartialEq, Eq, Structural)]
pub struct Sampler2D;

impl GlslType for Sampler2D {
    open spec fn glsl_name() -> Seq<char> {
        "sampler2D"@
    }

    fn to_glsl() -> (r: String) {
        String::from_str("sampler2D")
    }
}

} // verus!
