//! Wiring a compiled layout into a bound vertex array, and image uploads on
//! bound textures.
use glbind::call::DriverCall;
use glbind::context::GlContext;
use glbind::texture::{CubeMapSide, GlTexture, PixelDataType, PixelFormat, TexFilter, Texture2D,
    TextureCubeMap};
use glbind::target::{Framebuffer, FramebufferAttachment};
use glbind::vertex::{AttribType, VertexArray, VertexFormatBuilder};
use glbind::{GlBind, GlType};

#[test]
fn setup_for_enables_and_describes_every_attribute() {
    let mut ctx = GlContext::new();
    let va = VertexArray::new(&mut ctx);
    va.bind(&mut ctx);
    let mut b = VertexFormatBuilder::new();
    b.push(AttribType { type_: GlType::Float, components: 3 }, false);
    b.push(AttribType { type_: GlType::Float, components: 2 }, false);
    let format = b.build();
    let before = ctx.call_count();
    va.setup_for(&format, &mut ctx);
    assert_eq!(ctx.call_count(), before + 4);
    assert_eq!(
        *ctx.call_at(before),
        DriverCall::EnableVertexAttribArray { location: 0 }
    );
    assert_eq!(
        *ctx.call_at(before + 1),
        DriverCall::VertexAttribPointer {
            location: 0,
            size: 3,
            type_: gl::FLOAT,
            normalized: false,
            stride: 20,
            offset: 0,
        }
    );
    assert_eq!(
        *ctx.call_at(before + 2),
        DriverCall::EnableVertexAttribArray { location: 1 }
    );
    assert_eq!(
        *ctx.call_at(before + 3),
        DriverCall::VertexAttribPointer {
            location: 1,
            size: 2,
            type_: gl::FLOAT,
            normalized: false,
            stride: 20,
            offset: 12,
        }
    );
}

#[test]
fn direct_attribute_wiring_records_enable_and_descriptor() {
    let mut ctx = GlContext::new();
    let va = VertexArray::new(&mut ctx);
    va.bind(&mut ctx);
    va.enable_attrib(5, &mut ctx);
    assert_eq!(
        *ctx.call_at(ctx.call_count() - 1),
        DriverCall::EnableVertexAttribArray { location: 5 }
    );
    va.attrib_pointer(
        AttribType { type_: GlType::Short, components: 2 },
        5,
        8,
        4,
        &mut ctx,
    );
    assert_eq!(
        *ctx.call_at(ctx.call_count() - 1),
        DriverCall::VertexAttribPointer {
            location: 5,
            size: 2,
            type_: gl::SHORT,
            normalized: false,
            stride: 8,
            offset: 4,
        }
    );
}

#[test]
fn texture_upload_records_shape_and_byte_count() {
    let mut ctx = GlContext::new();
    let t = Texture2D::new(&mut ctx).unwrap();
    t.bind(&mut ctx);
    let pixels = vec![0u8; 2 * 2 * 4];
    t.data(0, PixelFormat::RGBA, (2, 2), PixelDataType::UByte, pixels, &mut ctx);
    assert_eq!(
        *ctx.call_at(ctx.call_count() - 1),
        DriverCall::TexImage2D {
            target: gl::TEXTURE_2D,
            level: 0,
            internal_format: gl::RGBA,
            width: 2,
            height: 2,
            border: 0,
            format: gl::RGBA,
            data_type: gl::UNSIGNED_BYTE,
            data_len: 16,
        }
    );
    t.subdata(0, (1, 1), (1, 1), PixelFormat::RGBA, PixelDataType::UByte, vec![0u8; 4], &mut ctx);
    assert_eq!(
        *ctx.call_at(ctx.call_count() - 1),
        DriverCall::TexSubImage2D {
            target: gl::TEXTURE_2D,
            level: 0,
            x_offset: 1,
            y_offset: 1,
            width: 1,
            height: 1,
            format: gl::RGBA,
            data_type: gl::UNSIGNED_BYTE,
            data_len: 4,
        }
    );
}

#[test]
fn cube_map_uploads_address_one_face() {
    let mut ctx = GlContext::new();
    let t = TextureCubeMap::new(&mut ctx).unwrap();
    t.bind(&mut ctx);
    t.data(
        CubeMapSide::NegativeY,
        0,
        PixelFormat::RGB,
        (1, 1),
        PixelDataType::UByte,
        vec![0u8; 3],
        &mut ctx,
    );
    assert_eq!(
        *ctx.call_at(ctx.call_count() - 1),
        DriverCall::TexImage2D {
            target: gl::TEXTURE_CUBE_MAP_NEGATIVE_Y,
            level: 0,
            internal_format: gl::RGB,
            width: 1,
            height: 1,
            border: 0,
            format: gl::RGB,
            data_type: gl::UNSIGNED_BYTE,
            data_len: 3,
        }
    );
}

#[test]
fn sampling_parameters_go_to_the_bound_target() {
    let mut ctx = GlContext::new();
    let t = Texture2D::new(&mut ctx).unwrap();
    t.bind(&mut ctx);
    t.set_min_filter(TexFilter::NearestMipmapLinear, &mut ctx);
    assert_eq!(
        *ctx.call_at(ctx.call_count() - 1),
        DriverCall::TexParameter {
            target: gl::TEXTURE_2D,
            pname: gl::TEXTURE_MIN_FILTER,
            param: gl::NEAREST_MIPMAP_LINEAR,
        }
    );
}

#[test]
fn framebuffer_texture_attachment_names_point_and_target() {
    let mut ctx = GlContext::new();
    let f = Framebuffer::new(&mut ctx).unwrap();
    let t = Texture2D::new(&mut ctx).unwrap();
    f.bind(&mut ctx);
    f.attach_texture(FramebufferAttachment::ColorAttachment(0), &t, &mut ctx);
    assert_eq!(
        *ctx.call_at(ctx.call_count() - 1),
        DriverCall::FramebufferTexture2D {
            target: gl::FRAMEBUFFER,
            attachment: gl::COLOR_ATTACHMENT0,
            tex_target: gl::TEXTURE_2D,
            id: 2,
            level: 0,
        }
    );
}
