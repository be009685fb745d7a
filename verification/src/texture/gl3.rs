//! Texture-related constants of the desktop profile: pixel formats, texture
//! targets, filters, wraps and parameter names.
use vstd::prelude::*;

verus! {

use crate::consts::{
    GL_RED, GL_RG, GL_RGB, GL_RGBA, GL_DEPTH_COMPONENT, GL_DEPTH_COMPONENT16,
    GL_DEPTH_COMPONENT24, GL_DEPTH_COMPONENT32, GL_DEPTH_COMPONENT32F, GL_DEPTH24_STENCIL8,
    GL_DEPTH32F_STENCIL8, GL_TEXTURE_1D, GL_TEXTURE_2D, GL_TEXTURE_3D,
    GL_TEXTURE_CUBE_MAP_POSITIVE_X, GL_TEXTURE_CUBE_MAP_NEGATIVE_X,
    GL_TEXTURE_CUBE_MAP_POSITIVE_Y, GL_TEXTURE_CUBE_MAP_NEGATIVE_Y,
    GL_TEXTURE_CUBE_MAP_POSITIVE_Z, GL_TEXTURE_CUBE_MAP_NEGATIVE_Z, GL_PROXY_TEXTURE_2D,
    GL_PROXY_TEXTURE_CUBE_MAP, GL_TEXTURE_1D_ARRAY, GL_TEXTURE_2D_ARRAY,
    GL_TEXTURE_2D_MULTISAMPLE, GL_TEXTURE_2D_MULTISAMPLE_ARRAY, GL_TEXTURE_BINDING_2D, GL_NONE,
    GL_NEAREST, GL_LINEAR, GL_NEAREST_MIPMAP_NEAREST, GL_LINEAR_MIPMAP_NEAREST,
    GL_NEAREST_MIPMAP_LINEAR, GL_LINEAR_MIPMAP_LINEAR, GL_REPEAT, GL_MIRRORED_REPEAT,
    GL_CLAMP_TO_EDGE, GL_CLAMP_TO_BORDER, GL_TEXTURE_MIN_FILTER, GL_TEXTURE_MAG_FILTER,
    GL_TEXTURE_WRAP_S, GL_TEXTURE_WRAP_T, GL_TEXTURE_WRAP_R,
};
use crate::{GlBind, GlObject};

/// The pixel formats a texture image can carry.
#[derive(Default, Debug, PartialEq, Eq, Copy, Clone, Structural)]
pub enum PixelFormat {
    Red,
    RG,
    RGB,
    #[default]
    RGBA,
    Depth,
    Depth16,
    Depth24,
    Depth32,
    Depth32F,
    Depth24Stencil8,
    Depth32FStencil8,
}

impl PixelFormat {
    pub open spec fn enum_spec(self) -> u32 {
        match self {
            PixelFormat::Red => GL_RED,
            PixelFormat::RG => GL_RG,
            PixelFormat::RGB => GL_RGB,
            PixelFormat::RGBA => GL_RGBA,
            PixelFormat::Depth => GL_DEPTH_COMPONENT,
            PixelFormat::Depth16 => GL_DEPTH_COMPONENT16,
            PixelFormat::Depth24 => GL_DEPTH_COMPONENT24,
            PixelFormat::Depth32 => GL_DEPTH_COMPONENT32,
            PixelFormat::Depth32F => GL_DEPTH_COMPONENT32F,
            PixelFormat::Depth24Stencil8 => GL_DEPTH24_STENCIL8,
            PixelFormat::Depth32FStencil8 => GL_DEPTH32F_STENCIL8,
        }
    }

    pub fn to_enum(&self) -> (r: u32)
        ensures
            r == self.enum_spec(),
    {
        match self {
            PixelFormat::Red => GL_RED,
            PixelFormat::RG => GL_RG,
            PixelFormat::RGB => GL_RGB,
            PixelFormat::RGBA => GL_RGBA,
            PixelFormat::Depth => GL_DEPTH_COMPONENT,
            PixelFormat::Depth16 => GL_DEPTH_COMPONENT16,
            PixelFormat::Depth24 => GL_DEPTH_COMPONENT24,
            PixelFormat::Depth32 => GL_DEPTH_COMPONENT32,
            PixelFormat::Depth32F => GL_DEPTH_COMPONENT32F,
            PixelFormat::Depth24Stencil8 => GL_DEPTH24_STENCIL8,
            PixelFormat::Depth32FStencil8 => GL_DEPTH32F_STENCIL8,
        }
    }
}

/// A bindable object that carries texture data.
pub trait Texture: GlBind + GlObject {
}

/// Every texture target the desktop profile can address.
#[derive(Default, Debug, PartialEq, Eq, Copy, Clone, Structural)]
pub enum TexTarget {
    Texture1D,
    #[default]
    Texture2D,
    CubeMapPositiveX,
    CubeMapNegativeX,
    CubeMapPositiveY,
    CubeMapNegativeY,
    CubeMapPositiveZ,
    CubeMapNegativeZ,
    ProxyTexture2D,
    ProxyCubeMap,
    Texture3D,
    Texture1DArray,
    Texture2DArray,
    Texture2DMultisample,
    Texture2DMultisampleArray,
}

impl TexTarget {
    pub open spec fn enum_spec(self) -> u32 {
        match self {
            TexTarget::Texture1D => GL_TEXTURE_1D,
            TexTarget::Texture2D => GL_TEXTURE_2D,
            TexTarget::CubeMapPositiveX => GL_TEXTURE_CUBE_MAP_POSITIVE_X,
            TexTarget::CubeMapNegativeX => GL_TEXTURE_CUBE_MAP_NEGATIVE_X,
            TexTarget::CubeMapPositiveY => GL_TEXTURE_CUBE_MAP_POSITIVE_Y,
            TexTarget::CubeMapNegativeY => GL_TEXTURE_CUBE_MAP_NEGATIVE_Y,
            TexTarget::CubeMapPositiveZ => GL_TEXTURE_CUBE_MAP_POSITIVE_Z,
            TexTarget::CubeMapNegativeZ => GL_TEXTURE_CUBE_MAP_NEGATIVE_Z,
            TexTarget::ProxyTexture2D => GL_PROXY_TEXTURE_2D,
            TexTarget::ProxyCubeMap => GL_PROXY_TEXTURE_CUBE_MAP,
            TexTarget::Texture3D => GL_TEXTURE_3D,
            TexTarget::Texture1DArray => GL_TEXTURE_1D_ARRAY,
            TexTarget::Texture2DArray => GL_TEXTURE_2D_ARRAY,
            TexTarget::Texture2DMultisample => GL_TEXTURE_2D_MULTISAMPLE,
            TexTarget::Texture2DMultisampleArray => GL_TEXTURE_2D_MULTISAMPLE_ARRAY,
        }
    }

    pub fn to_enum(&self) -> (r: u32)
        ensures
            r == self.enum_spec(),
    {
        match self {
            TexTarget::Texture1D => GL_TEXTURE_1D,
            TexTarget::Texture2D => GL_TEXTURE_2D,
            TexTarget::CubeMapPositiveX => GL_TEXTURE_CUBE_MAP_POSITIVE_X,
            TexTarget::CubeMapNegativeX => GL_TEXTURE_CUBE_MAP_NEGATIVE_X,
            TexTarget::CubeMapPositiveY => GL_TEXTURE_CUBE_MAP_POSITIVE_Y,
            TexTarget::CubeMapNegativeY => GL_TEXTURE_CUBE_MAP_NEGATIVE_Y,
            TexTarget::CubeMapPositiveZ => GL_TEXTURE_CUBE_MAP_POSITIVE_Z,
            TexTarget::CubeMapNegativeZ => GL_TEXTURE_CUBE_MAP_NEGATIVE_Z,
            TexTarget::ProxyTexture2D => GL_PROXY_TEXTURE_2D,
            TexTarget::ProxyCubeMap => GL_PROXY_TEXTURE_CUBE_MAP,
            TexTarget::Texture3D => GL_TEXTURE_3D,
            TexTarget::Texture1DArray => GL_TEXTURE_1D_ARRAY,
            TexTarget::Texture2DArray => GL_TEXTURE_2D_ARRAY,
            TexTarget::Texture2DMultisample => GL_TEXTURE_2D_MULTISAMPLE,
            TexTarget::Texture2DMultisampleArray => GL_TEXTURE_2D_MULTISAMPLE_ARRAY,
        }
    }

    /// The binding-query constant for targets that have one; the others
    /// report no query constant.
    pub open spec fn binding_spec(self) -> u32 {
        match self {
            TexTarget::Texture2D => GL_TEXTURE_BINDING_2D,
            _ => GL_NONE,
        }
    }

    pub fn get_binding(&self) -> (r: u32)
        ensures
            r == self.binding_spec(),
    {
        match self {
            TexTarget::Texture2D => GL_TEXTURE_BINDING_2D,
            _ => GL_NONE,
        }
    }
}

/// The sampling filters of texture minification and magnification; the
/// mipmap variants are meaningful for the minification filter only.
#[derive(Default, Debug, PartialEq, Eq, Copy, Clone, Structural)]
pub enum TexFilter {
    Nearest,
    #[default]
    Linear,
    NearestMipmapNearest,
    LinearMipmapNearest,
    NearestMipmapLinear,
    LinearMipmapLinear,
}

impl TexFilter {
    pub open spec fn enum_spec(self) -> u32 {
        match self {
            TexFilter::Nearest => GL_NEAREST,
            TexFilter::Linear => GL_LINEAR,
            TexFilter::NearestMipmapNearest => GL_NEAREST_MIPMAP_NEAREST,
            TexFilter::LinearMipmapNearest => GL_LINEAR_MIPMAP_NEAREST,
            TexFilter::NearestMipmapLinear => GL_NEAREST_MIPMAP_LINEAR,
            TexFilter::LinearMipmapLinear => GL_LINEAR_MIPMAP_LINEAR,
        }
    }

    pub fn to_enum(&self) -> (r: u32)
        ensures
            r == self.enum_spec(),
    {
        match self {
            TexFilter::Nearest => GL_NEAREST,
            TexFilter::Linear => GL_LINEAR,
            TexFilter::NearestMipmapNearest => GL_NEAREST_MIPMAP_NEAREST,
            TexFilter::LinearMipmapNearest => GL_LINEAR_MIPMAP_NEAREST,
            TexFilter::NearestMipmapLinear => GL_NEAREST_MIPMAP_LINEAR,
            TexFilter::LinearMipmapLinear => GL_LINEAR_MIPMAP_LINEAR,
        }
    }
}

/// How texture coordinates outside the unit range are wrapped.
#[derive(Default, Debug, PartialEq, Eq, Copy, Clone, Structural)]
pub enum TexWrap {
    #[default]
    Repeat,
    MirroredRepeat,
    ClampToEdge,
    ClampToBorder,
}

impl TexWrap {
    pub open spec fn enum_spec(self) -> u32 {
        match self {
            TexWrap::Repeat => GL_REPEAT,
            TexWrap::MirroredRepeat => GL_MIRRORED_REPEAT,
            TexWrap::ClampToEdge => GL_CLAMP_TO_EDGE,
            TexWrap::ClampToBorder => GL_CLAMP_TO_BORDER,
        }
    }

    pub fn to_enum(&self) -> (r: u32)
        ensures
            r == self.enum_spec(),
    {
        match self {
            TexWrap::Repeat => GL_REPEAT,
            TexWrap::MirroredRepeat => GL_MIRRORED_REPEAT,
            TexWrap::ClampToEdge => GL_CLAMP_TO_EDGE,
            TexWrap::ClampToBorder => GL_CLAMP_TO_BORDER,
        }
    }
}

/// One texture parameter: which sampling knob is set, with the value set.
#[derive(Debug, PartialEq, Eq, Copy, Clone, Structural)]
pub enum TexParam {
    MinFilter(TexFilter),
    MagFilter(TexFilter),
    WrapS(TexWrap),
    WrapT(TexWrap),
    WrapR(TexWrap),
}

impl Default for TexParam {
    fn default() -> (r: Self)
        ensures
            r == TexParam::MinFilter(TexFilter::Linear),
    {
        TexParam::MinFilter(TexFilter::Linear)
    }
}

impl TexParam {
    /// The parameter-name constant, without the value set.
    pub open spec fn enum_spec(self) -> u32 {
        match self {
            TexParam::MinFilter(_) => GL_TEXTURE_MIN_FILTER,
            TexParam::MagFilter(_) => GL_TEXTURE_MAG_FILTER,
            TexParam::WrapS(_) => GL_TEXTURE_WRAP_S,
            TexParam::WrapT(_) => GL_TEXTURE_WRAP_T,
            TexParam::WrapR(_) => GL_TEXTURE_WRAP_R,
        }
    }

    pub fn to_enum(&self) -> (r: u32)
        ensures
            r == self.enum_spec(),
    {
        match self {
            TexParam::MinFilter(_) => GL_TEXTURE_MIN_FILTER,
            TexParam::MagFilter(_) => GL_TEXTURE_MAG_FILTER,
            TexParam::WrapS(_) => GL_TEXTURE_WRAP_S,
            TexParam::WrapT(_) => GL_TEXTURE_WRAP_T,
            TexParam::WrapR(_) => GL_TEXTURE_WRAP_R,
        }
    }
}

} // verus!
