//! Resource handle lifecycle: one allocation call, one deallocation call,
//! and nothing else for a handle that is never used.
use glbind::buffer::ArrayBuffer;
use glbind::call::DriverCall;
use glbind::context::GlContext;
use glbind::glsl::{Program, Shader, ShaderType};
use glbind::target::Framebuffer;
use glbind::texture::Texture2D;
use glbind::vertex::VertexArray;

#[test]
fn buffer_created_and_dropped_allocates_and_deallocates_once() {
    let mut ctx = GlContext::new();
    let b = ArrayBuffer::new(&mut ctx);
    b.delete(&mut ctx);
    assert_eq!(ctx.call_count(), 2);
    assert_eq!(*ctx.call_at(0), DriverCall::GenBuffer { id: 1 });
    assert_eq!(*ctx.call_at(1), DriverCall::DeleteBuffer { id: 1 });
}

#[test]
fn vertex_array_created_and_dropped_allocates_and_deallocates_once() {
    let mut ctx = GlContext::new();
    let va = VertexArray::new(&mut ctx);
    va.delete(&mut ctx);
    assert_eq!(ctx.call_count(), 2);
    assert_eq!(*ctx.call_at(0), DriverCall::GenVertexArray { id: 1 });
    assert_eq!(*ctx.call_at(1), DriverCall::DeleteVertexArray { id: 1 });
}

#[test]
fn texture_created_and_dropped_allocates_and_deallocates_once() {
    let mut ctx = GlContext::new();
    let t = Texture2D::new(&mut ctx).unwrap();
    t.delete(&mut ctx);
    assert_eq!(ctx.call_count(), 2);
    assert_eq!(*ctx.call_at(0), DriverCall::GenTexture { id: 1 });
    assert_eq!(*ctx.call_at(1), DriverCall::DeleteTexture { id: 1 });
}

#[test]
fn framebuffer_created_and_dropped_allocates_and_deallocates_once() {
    let mut ctx = GlContext::new();
    let f = Framebuffer::new(&mut ctx).unwrap();
    f.delete(&mut ctx);
    assert_eq!(ctx.call_count(), 2);
    assert_eq!(*ctx.call_at(0), DriverCall::GenFramebuffer { id: 1 });
    assert_eq!(*ctx.call_at(1), DriverCall::DeleteFramebuffer { id: 1 });
}

#[test]
fn shader_and_program_lifecycles_record_their_calls() {
    let mut ctx = GlContext::new();
    let s = Shader::new(ShaderType::FragmentShader, &mut ctx);
    let p = Program::new(&mut ctx);
    s.delete(&mut ctx);
    p.delete(&mut ctx);
    assert_eq!(ctx.call_count(), 4);
    assert_eq!(
        *ctx.call_at(0),
        DriverCall::CreateShader { kind: gl::FRAGMENT_SHADER, id: 1 }
    );
    assert_eq!(*ctx.call_at(1), DriverCall::CreateProgram { id: 2 });
    assert_eq!(*ctx.call_at(2), DriverCall::DeleteShader { id: 1 });
    assert_eq!(*ctx.call_at(3), DriverCall::DeleteProgram { id: 2 });
}

#[test]
fn model_driver_issues_fresh_distinct_ids() {
    let mut ctx = GlContext::new();
    let a = ArrayBuffer::new(&mut ctx);
    let b = ArrayBuffer::new(&mut ctx);
    let va = VertexArray::new(&mut ctx);
    let mut ids = vec![];
    ids.push(*match ctx.call_at(0) {
        DriverCall::GenBuffer { id } => id,
        _ => panic!("expected a buffer allocation"),
    });
    ids.push(*match ctx.call_at(1) {
        DriverCall::GenBuffer { id } => id,
        _ => panic!("expected a buffer allocation"),
    });
    ids.push(*match ctx.call_at(2) {
        DriverCall::GenVertexArray { id } => id,
        _ => panic!("expected a vertex array allocation"),
    });
    assert_eq!(ids, vec![1, 2, 3]);
    a.delete(&mut ctx);
    b.delete(&mut ctx);
    va.delete(&mut ctx);
}
