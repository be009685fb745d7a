//! The numeric constants of the model against the binding crate's values.
use glbind::consts;

#[test]
fn element_type_constants_match_driver() {
    assert_eq!(consts::GL_BYTE, gl::BYTE);
    assert_eq!(consts::GL_UNSIGNED_BYTE, gl::UNSIGNED_BYTE);
    assert_eq!(consts::GL_SHORT, gl::SHORT);
    assert_eq!(consts::GL_UNSIGNED_SHORT, gl::UNSIGNED_SHORT);
    assert_eq!(consts::GL_INT, gl::INT);
    assert_eq!(consts::GL_UNSIGNED_INT, gl::UNSIGNED_INT);
    assert_eq!(consts::GL_FLOAT, gl::FLOAT);
    assert_eq!(consts::GL_DOUBLE, gl::DOUBLE);
    assert_eq!(consts::GL_BOOL, gl::BOOL);
    assert_eq!(consts::GL_NONE, gl::NONE);
    assert_eq!(consts::GL_FALSE, gl::FALSE as u32);
    assert_eq!(consts::GL_TRUE, gl::TRUE as u32);
}

#[test]
fn buffer_constants_match_driver() {
    assert_eq!(consts::GL_ARRAY_BUFFER, gl::ARRAY_BUFFER);
    assert_eq!(consts::GL_ELEMENT_ARRAY_BUFFER, gl::ELEMENT_ARRAY_BUFFER);
    assert_eq!(consts::GL_UNIFORM_BUFFER, gl::UNIFORM_BUFFER);
    assert_eq!(consts::GL_TEXTURE_BUFFER, gl::TEXTURE_BUFFER);
    assert_eq!(consts::GL_ARRAY_BUFFER_BINDING, gl::ARRAY_BUFFER_BINDING);
    assert_eq!(
        consts::GL_ELEMENT_ARRAY_BUFFER_BINDING,
        gl::ELEMENT_ARRAY_BUFFER_BINDING
    );
    assert_eq!(consts::GL_UNIFORM_BUFFER_BINDING, gl::UNIFORM_BUFFER_BINDING);
    assert_eq!(consts::GL_TEXTURE_BUFFER_BINDING, gl::TEXTURE_BUFFER_BINDING);
    assert_eq!(consts::GL_COPY_READ_BUFFER, gl::COPY_READ_BUFFER);
    assert_eq!(consts::GL_COPY_WRITE_BUFFER, gl::COPY_WRITE_BUFFER);
    assert_eq!(consts::GL_STATIC_READ, gl::STATIC_READ);
    assert_eq!(consts::GL_STATIC_COPY, gl::STATIC_COPY);
    assert_eq!(consts::GL_STATIC_DRAW, gl::STATIC_DRAW);
    assert_eq!(consts::GL_STREAM_READ, gl::STREAM_READ);
    assert_eq!(consts::GL_STREAM_COPY, gl::STREAM_COPY);
    assert_eq!(consts::GL_STREAM_DRAW, gl::STREAM_DRAW);
    assert_eq!(consts::GL_DYNAMIC_READ, gl::DYNAMIC_READ);
    assert_eq!(consts::GL_DYNAMIC_COPY, gl::DYNAMIC_COPY);
    assert_eq!(consts::GL_DYNAMIC_DRAW, gl::DYNAMIC_DRAW);
}

#[test]
fn shader_and_framebuffer_constants_match_driver() {
    assert_eq!(consts::GL_VERTEX_SHADER, gl::VERTEX_SHADER);
    assert_eq!(consts::GL_FRAGMENT_SHADER, gl::FRAGMENT_SHADER);
    assert_eq!(consts::GL_GEOMETRY_SHADER, gl::GEOMETRY_SHADER);
    assert_eq!(consts::GL_COMPUTE_SHADER, gl::COMPUTE_SHADER);
    assert_eq!(consts::GL_FRAMEBUFFER, gl::FRAMEBUFFER);
    assert_eq!(consts::GL_FRAMEBUFFER_BINDING, gl::FRAMEBUFFER_BINDING);
    assert_eq!(consts::GL_READ_FRAMEBUFFER, gl::READ_FRAMEBUFFER);
    assert_eq!(consts::GL_DRAW_FRAMEBUFFER, gl::DRAW_FRAMEBUFFER);
    assert_eq!(consts::GL_COLOR_ATTACHMENT0, gl::COLOR_ATTACHMENT0);
    assert_eq!(consts::GL_DEPTH_ATTACHMENT, gl::DEPTH_ATTACHMENT);
    assert_eq!(consts::GL_STENCIL_ATTACHMENT, gl::STENCIL_ATTACHMENT);
    assert_eq!(consts::GL_VERTEX_ARRAY_BINDING, gl::VERTEX_ARRAY_BINDING);
}

#[test]
fn state_constants_match_driver() {
    assert_eq!(consts::GL_COLOR_BUFFER_BIT, gl::COLOR_BUFFER_BIT);
    assert_eq!(consts::GL_DEPTH_BUFFER_BIT, gl::DEPTH_BUFFER_BIT);
    assert_eq!(consts::GL_STENCIL_BUFFER_BIT, gl::STENCIL_BUFFER_BIT);
    assert_eq!(consts::GL_BLEND, gl::BLEND);
    assert_eq!(consts::GL_CULL_FACE, gl::CULL_FACE);
    assert_eq!(consts::GL_DEPTH_TEST, gl::DEPTH_TEST);
    assert_eq!(consts::GL_DITHER, gl::DITHER);
    assert_eq!(consts::GL_SCISSOR_TEST, gl::SCISSOR_TEST);
    assert_eq!(consts::GL_POINTS, gl::POINTS);
    assert_eq!(consts::GL_LINES, gl::LINES);
    assert_eq!(consts::GL_TRIANGLES, gl::TRIANGLES);
    assert_eq!(consts::GL_ZERO, gl::ZERO);
    assert_eq!(consts::GL_ONE, gl::ONE);
    assert_eq!(consts::GL_SRC_COLOR, gl::SRC_COLOR);
    assert_eq!(consts::GL_ONE_MINUS_SRC_COLOR, gl::ONE_MINUS_SRC_COLOR);
    assert_eq!(consts::GL_DST_COLOR, gl::DST_COLOR);
    assert_eq!(consts::GL_ONE_MINUS_DST_COLOR, gl::ONE_MINUS_DST_COLOR);
    assert_eq!(consts::GL_SRC_ALPHA, gl::SRC_ALPHA);
    assert_eq!(consts::GL_ONE_MINUS_SRC_ALPHA, gl::ONE_MINUS_SRC_ALPHA);
    assert_eq!(consts::GL_DST_ALPHA, gl::DST_ALPHA);
    assert_eq!(consts::GL_ONE_MINUS_DST_ALPHA, gl::ONE_MINUS_DST_ALPHA);
    assert_eq!(consts::GL_CONSTANT_COLOR, gl::CONSTANT_COLOR);
    assert_eq!(
        consts::GL_ONE_MINUS_CONSTANT_COLOR,
        gl::ONE_MINUS_CONSTANT_COLOR
    );
    assert_eq!(consts::GL_CONSTANT_ALPHA, gl::CONSTANT_ALPHA);
    assert_eq!(
        consts::GL_ONE_MINUS_CONSTANT_ALPHA,
        gl::ONE_MINUS_CONSTANT_ALPHA
    );
    assert_eq!(consts::GL_FRONT, gl::FRONT);
    assert_eq!(consts::GL_BACK, gl::BACK);
    assert_eq!(consts::GL_FRONT_AND_BACK, gl::FRONT_AND_BACK);
    assert_eq!(consts::GL_CCW, gl::CCW);
    assert_eq!(consts::GL_CW, gl::CW);
    assert_eq!(consts::GL_NEVER, gl::NEVER);
    assert_eq!(consts::GL_LESS, gl::LESS);
    assert_eq!(consts::GL_EQUAL, gl::EQUAL);
    assert_eq!(consts::GL_LEQUAL, gl::LEQUAL);
    assert_eq!(consts::GL_GREATER, gl::GREATER);
    assert_eq!(consts::GL_NOTEQUAL, gl::NOTEQUAL);
    assert_eq!(consts::GL_GEQUAL, gl::GEQUAL);
    assert_eq!(consts::GL_ALWAYS, gl::ALWAYS);
}

#[test]
fn texture_constants_match_driver() {
    assert_eq!(consts::GL_TEXTURE_1D, gl::TEXTURE_1D);
    assert_eq!(consts::GL_TEXTURE_2D, gl::TEXTURE_2D);
    assert_eq!(consts::GL_TEXTURE_3D, gl::TEXTURE_3D);
    assert_eq!(consts::GL_TEXTURE_CUBE_MAP, gl::TEXTURE_CUBE_MAP);
    assert_eq!(consts::GL_TEXTURE_BINDING_1D, gl::TEXTURE_BINDING_1D);
    assert_eq!(consts::GL_TEXTURE_BINDING_2D, gl::TEXTURE_BINDING_2D);
    assert_eq!(consts::GL_TEXTURE_BINDING_3D, gl::TEXTURE_BINDING_3D);
    assert_eq!(
        consts::GL_TEXTURE_BINDING_CUBE_MAP,
        gl::TEXTURE_BINDING_CUBE_MAP
    );
    assert_eq!(
        consts::GL_TEXTURE_CUBE_MAP_POSITIVE_X,
        gl::TEXTURE_CUBE_MAP_POSITIVE_X
    );
    assert_eq!(
        consts::GL_TEXTURE_CUBE_MAP_NEGATIVE_X,
        gl::TEXTURE_CUBE_MAP_NEGATIVE_X
    );
    assert_eq!(
        consts::GL_TEXTURE_CUBE_MAP_POSITIVE_Y,
        gl::TEXTURE_CUBE_MAP_POSITIVE_Y
    );
    assert_eq!(
        consts::GL_TEXTURE_CUBE_MAP_NEGATIVE_Y,
        gl::TEXTURE_CUBE_MAP_NEGATIVE_Y
    );
    assert_eq!(
        consts::GL_TEXTURE_CUBE_MAP_POSITIVE_Z,
        gl::TEXTURE_CUBE_MAP_POSITIVE_Z
    );
    assert_eq!(
        consts::GL_TEXTURE_CUBE_MAP_NEGATIVE_Z,
        gl::TEXTURE_CUBE_MAP_NEGATIVE_Z
    );
    assert_eq!(consts::GL_PROXY_TEXTURE_2D, gl::PROXY_TEXTURE_2D);
    assert_eq!(consts::GL_PROXY_TEXTURE_CUBE_MAP, gl::PROXY_TEXTURE_CUBE_MAP);
    assert_eq!(consts::GL_TEXTURE_1D_ARRAY, gl::TEXTURE_1D_ARRAY);
    assert_eq!(consts::GL_TEXTURE_2D_ARRAY, gl::TEXTURE_2D_ARRAY);
    assert_eq!(consts::GL_TEXTURE_2D_MULTISAMPLE, gl::TEXTURE_2D_MULTISAMPLE);
    assert_eq!(
        consts::GL_TEXTURE_2D_MULTISAMPLE_ARRAY,
        gl::TEXTURE_2D_MULTISAMPLE_ARRAY
    );
    assert_eq!(consts::GL_RED, gl::RED);
    assert_eq!(consts::GL_RG, gl::RG);
    assert_eq!(consts::GL_RGB, gl::RGB);
    assert_eq!(consts::GL_RGBA, gl::RGBA);
    assert_eq!(consts::GL_DEPTH_COMPONENT, gl::DEPTH_COMPONENT);
    assert_eq!(consts::GL_DEPTH_COMPONENT16, gl::DEPTH_COMPONENT16);
    assert_eq!(consts::GL_DEPTH_COMPONENT24, gl::DEPTH_COMPONENT24);
    assert_eq!(consts::GL_DEPTH_COMPONENT32, gl::DEPTH_COMPONENT32);
    assert_eq!(consts::GL_DEPTH_COMPONENT32F, gl::DEPTH_COMPONENT32F);
    assert_eq!(consts::GL_DEPTH24_STENCIL8, gl::DEPTH24_STENCIL8);
    assert_eq!(consts::GL_DEPTH32F_STENCIL8, gl::DEPTH32F_STENCIL8);
    assert_eq!(consts::GL_ALPHA, gl::ALPHA);
    // The embedded profile's luminance formats have no constant in the
    // desktop binding; their registry values are fixed.
    assert_eq!(consts::GL_LUMINANCE, 0x1909);
    assert_eq!(consts::GL_LUMINANCE_ALPHA, 0x190A);
    assert_eq!(consts::GL_NEAREST, gl::NEAREST);
    assert_eq!(consts::GL_LINEAR, gl::LINEAR);
    assert_eq!(consts::GL_NEAREST_MIPMAP_NEAREST, gl::NEAREST_MIPMAP_NEAREST);
    assert_eq!(consts::GL_LINEAR_MIPMAP_NEAREST, gl::LINEAR_MIPMAP_NEAREST);
    assert_eq!(consts::GL_NEAREST_MIPMAP_LINEAR, gl::NEAREST_MIPMAP_LINEAR);
    assert_eq!(consts::GL_LINEAR_MIPMAP_LINEAR, gl::LINEAR_MIPMAP_LINEAR);
    assert_eq!(consts::GL_REPEAT, gl::REPEAT);
    assert_eq!(consts::GL_MIRRORED_REPEAT, gl::MIRRORED_REPEAT);
    assert_eq!(consts::GL_CLAMP_TO_EDGE, gl::CLAMP_TO_EDGE);
    assert_eq!(consts::GL_CLAMP_TO_BORDER, gl::CLAMP_TO_BORDER);
    assert_eq!(consts::GL_TEXTURE_MIN_FILTER, gl::TEXTURE_MIN_FILTER);
    assert_eq!(consts::GL_TEXTURE_MAG_FILTER, gl::TEXTURE_MAG_FILTER);
    assert_eq!(consts::GL_TEXTURE_WRAP_S, gl::TEXTURE_WRAP_S);
    assert_eq!(consts::GL_TEXTURE_WRAP_T, gl::TEXTURE_WRAP_T);
    assert_eq!(consts::GL_TEXTURE_WRAP_R, gl::TEXTURE_WRAP_R);
}

#[test]
fn enum_maps_give_driver_constants() {
    assert_eq!(glbind::GlType::Byte.to_enum(), gl::BYTE);
    assert_eq!(glbind::GlType::Double.to_enum(), gl::DOUBLE);
    assert_eq!(glbind::GlType::Byte.byte_size(), 1);
    assert_eq!(glbind::GlType::Double.byte_size(), 8);
    assert_eq!(
        glbind::buffer::BufferUsage::DynamicDraw.to_enum(),
        gl::DYNAMIC_DRAW
    );
    assert_eq!(
        glbind::buffer::BufferUsage::StaticRead.to_enum(),
        gl::STATIC_READ
    );
    assert_eq!(
        glbind::glsl::ShaderType::VertexShader.to_enum(),
        gl::VERTEX_SHADER
    );
    assert_eq!(
        glbind::glsl::ShaderType::ComputeShader.to_enum(),
        gl::COMPUTE_SHADER
    );
    assert_eq!(glbind::ClearFlags::DepthBufferBit.to_enum(), gl::DEPTH_BUFFER_BIT);
    assert_eq!(glbind::EnableFlags::ScissorTest.to_enum(), gl::SCISSOR_TEST);
    assert_eq!(glbind::DrawMode::Triangles.to_enum(), gl::TRIANGLES);
    assert_eq!(glbind::BlendFunc::OneMinusSrcAlpha.to_enum(), gl::ONE_MINUS_SRC_ALPHA);
    assert_eq!(glbind::CullMode::Back.to_enum(), gl::BACK);
    assert_eq!(glbind::FrontFace::CW.to_enum(), gl::CW);
    assert_eq!(glbind::GlFunc::LEqual.to_enum(), gl::LEQUAL);
    assert_eq!(
        glbind::texture::PixelDataType::Float.to_enum(),
        gl::FLOAT
    );
    assert_eq!(
        glbind::texture::PixelDataType::UInt10_10_10_2.to_enum(),
        gl::NONE
    );
    assert_eq!(
        glbind::texture::CubeMapSide::NegativeY.to_enum(),
        gl::TEXTURE_CUBE_MAP_NEGATIVE_Y
    );
    assert_eq!(glbind::texture::PixelFormat::RGBA.to_enum(), gl::RGBA);
    assert_eq!(
        glbind::texture::TexTarget::Texture2D.get_binding(),
        gl::TEXTURE_BINDING_2D
    );
    assert_eq!(
        glbind::texture::TexTarget::Texture1D.get_binding(),
        gl::NONE
    );
    assert_eq!(
        glbind::texture::TexFilter::LinearMipmapLinear.to_enum(),
        gl::LINEAR_MIPMAP_LINEAR
    );
    assert_eq!(glbind::texture::TexWrap::ClampToBorder.to_enum(), gl::CLAMP_TO_BORDER);
    assert_eq!(
        glbind::texture::TexParam::WrapR(glbind::texture::TexWrap::Repeat).to_enum(),
        gl::TEXTURE_WRAP_R
    );
    assert_eq!(
        glbind::texture::gles2::PixelFormat::Luminance.to_enum(),
        0x1909
    );
    assert_eq!(
        glbind::texture::gles2::TexTarget::CubeMapNegativeZ.to_enum(),
        gl::TEXTURE_CUBE_MAP_NEGATIVE_Z
    );
    assert_eq!(
        glbind::texture::gles2::TexFilter::Nearest.to_enum(),
        gl::NEAREST
    );
    assert_eq!(
        glbind::texture::gles2::TexWrap::MirroredRepeat.to_enum(),
        gl::MIRRORED_REPEAT
    );
    assert_eq!(
        glbind::texture::gles2::TexParam::WrapT(glbind::texture::gles2::TexWrap::Repeat)
            .to_enum(),
        gl::TEXTURE_WRAP_T
    );
    assert_eq!(
        glbind::target::FramebufferAttachment::ColorAttachment(3).to_enum(),
        gl::COLOR_ATTACHMENT3
    );
    assert_eq!(
        glbind::target::FramebufferAttachment::DepthAttachment.to_enum(),
        gl::DEPTH_ATTACHMENT
    );
    assert_eq!(
        glbind::target::FramebufferAttachment::StencilAttachment.to_enum(),
        gl::STENCIL_ATTACHMENT
    );
}

#[test]
fn clear_mask_folds_flags() {
    let no_flags: Vec<glbind::ClearFlags> = Vec::new();
    assert_eq!(glbind::clear_mask(&no_flags), 0);
    let mut flags = Vec::new();
    flags.push(glbind::ClearFlags::ColorBufferBit);
    flags.push(glbind::ClearFlags::DepthBufferBit);
    assert_eq!(
        glbind::clear_mask(&flags),
        gl::COLOR_BUFFER_BIT | gl::DEPTH_BUFFER_BIT
    );
    flags.push(glbind::ClearFlags::StencilBufferBit);
    assert_eq!(
        glbind::clear_mask(&flags),
        gl::COLOR_BUFFER_BIT | gl::DEPTH_BUFFER_BIT | gl::STENCIL_BUFFER_BIT
    );
}
