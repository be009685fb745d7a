//! Texture-related constants of the embedded profile: a narrower set of
//! pixel formats, targets, filters and wraps than the desktop profile.
use vstd::prelude::*;

verus! {

use crate::consts::{
    GL_ALPHA, GL_LUMINANCE, GL_LUMINANCE_ALPHA, GL_RGB, GL_RGBA, GL_TEXTURE_2D,
    GL_TEXTURE_CUBE_MAP_POSITIVE_X, GL_TEXTURE_CUBE_MAP_NEGATIVE_X,
    GL_TEXTURE_CUBE_MAP_POSITIVE_Y, GL_TEXTURE_CUBE_MAP_NEGATIVE_Y,
    GL_TEXTURE_CUBE_MAP_POSITIVE_Z, GL_TEXTURE_CUBE_MAP_NEGATIVE_Z, GL_TEXTURE_BINDING_2D,
    GL_NONE, GL_NEAREST, GL_LINEAR, GL_NEAREST_MIPMAP_NEAREST, GL_LINEAR_MIPMAP_NEAREST,
    GL_NEAREST_MIPMAP_LINEAR, GL_LINEAR_MIPMAP_LINEAR, GL_REPEAT, GL_MIRRORED_REPEAT,
    GL_CLAMP_TO_EDGE, GL_TEXTURE_MIN_FILTER, GL_TEXTURE_MAG_FILTER, GL_TEXTURE_WRAP_S,
    GL_TEXTURE_WRAP_T,
};

/// The pixel formats the embedded profile accepts.
#[derive(Default, Debug, PartialEq, Eq, Copy, Clone, Structural)]
pub enum PixelFormat {
    Alpha,
    Luminance,
    LuminanceAlpha,
    RGB,
    #[default]
    RGBA,
}

impl PixelFormat {
    pub open spec fn enum_spec(self) -> u32 {
        match self {
            PixelFormat::Alpha => GL_ALPHA,
            PixelFormat::Luminance => GL_LUMINANCE,
            PixelFormat::LuminanceAlpha => GL_LUMINANCE_ALPHA,
            PixelFormat::RGB => GL_RGB,
            PixelFormat::RGBA => GL_RGBA,
        }
    }

    pub fn to_enum(&self) -> (r: u32)
        ensures
            r == self.enum_spec(),
    {
        match self {
            PixelFormat::Alpha => GL_ALPHA,
            PixelFormat::Luminance => GL_LUMINANCE,
            PixelFormat::LuminanceAlpha => GL_LUMINANCE_ALPHA,
            PixelFormat::RGB => GL_RGB,
            PixelFormat::RGBA => GL_RGBA,
        }
    }
}

/// The texture targets the embedded profile can address; the final variant
/// counts them and names no target.
#[derive(Default, Debug, PartialEq, Eq, Copy, Clone, Structural)]
pub enum TexTarget {
    #[default]
    Texture2D,
    CubeMapPositiveX,
    CubeMapNegativeX,
    CubeMapPositiveY,
    CubeMapNegativeY,
    CubeMapPositiveZ,
    CubeMapNegativeZ,
    Count,
}

impl TexTarget {
    pub open spec fn enum_spec(self) -> u32 {
        match self {
            TexTarget::Texture2D => GL_TEXTURE_2D,
            TexTarget::CubeMapPositiveX => GL_TEXTURE_CUBE_MAP_POSITIVE_X,
            TexTarget::CubeMapNegativeX => GL_TEXTURE_CUBE_MAP_NEGATIVE_X,
            TexTarget::CubeMapPositiveY => GL_TEXTURE_CUBE_MAP_POSITIVE_Y,
            TexTarget::CubeMapNegativeY => GL_TEXTURE_CUBE_MAP_NEGATIVE_Y,
            TexTarget::CubeMapPositiveZ => GL_TEXTURE_CUBE_MAP_POSITIVE_Z,
            TexTarget::CubeMapNegativeZ => GL_TEXTURE_CUBE_MAP_NEGATIVE_Z,
            TexTarget::Count => GL_NONE,
        }
    }

    pub fn to_enum(&self) -> (r: u32)
        ensures
            r == self.enum_spec(),
    {
        match self {
            TexTarget::Texture2D => GL_TEXTURE_2D,
            TexTarget::CubeMapPositiveX => GL_TEXTURE_CUBE_MAP_POSITIVE_X,
            TexTarget::CubeMapNegativeX => GL_TEXTURE_CUBE_MAP_NEGATIVE_X,
            TexTarget::CubeMapPositiveY => GL_TEXTURE_CUBE_MAP_POSITIVE_Y,
            TexTarget::CubeMapNegativeY => GL_TEXTURE_CUBE_MAP_NEGATIVE_Y,
            TexTarget::CubeMapPositiveZ => GL_TEXTURE_CUBE_MAP_POSITIVE_Z,
            TexTarget::CubeMapNegativeZ => GL_TEXTURE_CUBE_MAP_NEGATIVE_Z,
            TexTarget::Count => GL_NONE,
        }
    }

    /// The binding-query constant for targets that have one; the others
    /// report no query constant.
    pub open spec fn binding_spec(self) -> u32 {
        match self {
            TexTarget::Texture2D => GL_TEXTURE_BINDING_2D,
            _ => GL_NONE,
        }
    }

    pub fn get_binding(&self) -> (r: u32)
        ensures
            r == self.binding_spec(),
    {
        match self {
            TexTarget::Texture2D => GL_TEXTURE_BINDING_2D,
            _ => GL_NONE,
        }
    }
}

/// The sampling filters of the embedded profile; the mipmap variants are
/// meaningful for the minification filter only.
#[derive(Default, Debug, PartialEq, Eq, Copy, Clone, Structural)]
pub enum TexFilter {
    #[default]
    Nearest,
    Linear,
    NearestMipmapNearest,
    LinearMipmapNearest,
    NearestMipmapLinear,
    LinearMipmapLinear,
}

impl TexFilter {
    pub open spec fn enum_spec(self) -> u32 {
        match self {
            TexFilter::Nearest => GL_NEAREST,
            TexFilter::Linear => GL_LINEAR,
            TexFilter::NearestMipmapNearest => GL_NEAREST_MIPMAP_NEAREST,
            TexFilter::LinearMipmapNearest => GL_LINEAR_MIPMAP_NEAREST,
            TexFilter::NearestMipmapLinear => GL_NEAREST_MIPMAP_LINEAR,
            TexFilter::LinearMipmapLinear => GL_LINEAR_MIPMAP_LINEAR,
        }
    }

    pub fn to_enum(&self) -> (r: u32)
        ensures
            r == self.enum_spec(),
    {
        match self {
            TexFilter::Nearest => GL_NEAREST,
            TexFilter::Linear => GL_LINEAR,
            TexFilter::NearestMipmapNearest => GL_NEAREST_MIPMAP_NEAREST,
            TexFilter::LinearMipmapNearest => GL_LINEAR_MIPMAP_NEAREST,
            TexFilter::NearestMipmapLinear => GL_NEAREST_MIPMAP_LINEAR,
            TexFilter::LinearMipmapLinear => GL_LINEAR_MIPMAP_LINEAR,
        }
    }
}

/// How texture coordinates outside the unit range are wrapped.
#[derive(Default, Debug, PartialEq, Eq, Copy, Clone, Structural)]
pub enum TexWrap {
    #[default]
    Repeat,
    MirroredRepeat,
    ClampToEdge,
}

impl TexWrap {
    pub open spec fn enum_spec(self) -> u32 {
        match self {
            TexWrap::Repeat => GL_REPEAT,
            TexWrap::MirroredRepeat => GL_MIRRORED_REPEAT,
            TexWrap::ClampToEdge => GL_CLAMP_TO_EDGE,
        }
    }

    pub fn to_enum(&self) -> (r: u32)
        ensures
            r == self.enum_spec(),
    {
        match self {
            TexWrap::Repeat => GL_REPEAT,
            TexWrap::MirroredRepeat => GL_MIRRORED_REPEAT,
            TexWrap::ClampToEdge => GL_CLAMP_TO_EDGE,
        }
    }
}

/// One texture parameter of the embedded profile.
#[derive(Debug, PartialEq, Eq, Copy, Clone, Structural)]
pub enum TexParam {
    MinFilter(TexFilter),
    MagFilter(TexFilter),
    WrapS(TexWrap),
    WrapT(TexWrap),
}

impl Default for TexParam {
    fn default() -> (r: Self)
        ensures
            r == TexParam::MinFilter(TexFilter::Nearest),
    {
        TexParam::MinFilter(TexFilter::Nearest)
    }
}

impl TexParam {
    /// The parameter-name constant, without the value set.
    pub open spec fn enum_spec(self) -> u32 {
        match self {
            TexParam::MinFilter(_) => GL_TEXTURE_MIN_FILTER,
            TexParam::MagFilter(_) => GL_TEXTURE_MAG_FILTER,
            TexParam::WrapS(_) => GL_TEXTURE_WRAP_S,
            TexParam::WrapT(_) => GL_TEXTURE_WRAP_T,
        }
    }

    pub fn to_enum(&self) -> (r: u32)
        ensures
            r == self.enum_spec(),
    {
        match self {
            TexParam::MinFilter(_) => GL_TEXTURE_MIN_FILTER,
            TexParam::MagFilter(_) => GL_TEXTURE_MAG_FILTER,
            TexParam::WrapS(_) => GL_TEXTURE_WRAP_S,
            TexParam::WrapT(_) => GL_TEXTURE_WRAP_T,
        }
    }
}

} // verus!
