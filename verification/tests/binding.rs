//! The binding-slot state machine: occupancy, eviction, and the
//! independence of the copy sub-slots from the general slots.
use glbind::buffer::{copy_from, ArrayBuffer, BufferUsage, ElementArrayBuffer, GlBuffer};
use glbind::call::DriverCall;
use glbind::context::{GlContext, SlotKind};
use glbind::target::Framebuffer;
use glbind::vertex::VertexArray;
use glbind::{GlBind, GlObject, GlTarget};

#[test]
fn bind_then_query_reports_bound() {
    let mut ctx = GlContext::new();
    let a = ArrayBuffer::new(&mut ctx);
    a.bind(&mut ctx);
    assert!(a.is_binded(&ctx));
    assert_eq!(ArrayBuffer::current_bind(&ctx), a.get_id());
}

#[test]
fn binding_a_different_handle_evicts_the_first() {
    let mut ctx = GlContext::new();
    let a = ArrayBuffer::new(&mut ctx);
    let b = ArrayBuffer::new(&mut ctx);
    a.bind(&mut ctx);
    assert!(a.is_binded(&ctx));
    b.bind(&mut ctx);
    assert!(!a.is_binded(&ctx));
    assert!(b.is_binded(&ctx));
}

#[test]
fn unbind_leaves_the_slot_empty() {
    let mut ctx = GlContext::new();
    let a = ArrayBuffer::new(&mut ctx);
    a.bind(&mut ctx);
    a.unbind(&mut ctx);
    assert!(!a.is_binded(&ctx));
    assert_eq!(ctx.current(SlotKind::ArrayBuffer), 0);
    assert_eq!(
        *ctx.call_at(ctx.call_count() - 1),
        DriverCall::BindBuffer { target: gl::ARRAY_BUFFER, id: 0 }
    );
}

#[test]
fn read_copy_sub_slot_leaves_general_slot_untouched() {
    let mut ctx = GlContext::new();
    let a = ArrayBuffer::new(&mut ctx);
    let b = ArrayBuffer::new(&mut ctx);
    a.bind(&mut ctx);
    b.bind_read(&mut ctx);
    // The general slot still reports the first buffer as bound.
    assert!(a.is_binded(&ctx));
    assert_eq!(ctx.current(SlotKind::CopyReadBuffer), b.get_id());
    assert_eq!(ctx.current(SlotKind::ArrayBuffer), a.get_id());
}

#[test]
fn buffer_categories_occupy_separate_slots() {
    let mut ctx = GlContext::new();
    let a = ArrayBuffer::new(&mut ctx);
    let e = ElementArrayBuffer::new(&mut ctx);
    a.bind(&mut ctx);
    e.bind(&mut ctx);
    assert!(a.is_binded(&ctx));
    assert!(e.is_binded(&ctx));
}

#[test]
fn copy_from_sets_both_sub_slots_and_issues_one_copy() {
    let mut ctx = GlContext::new();
    let dst = ArrayBuffer::new(&mut ctx);
    let src = ArrayBuffer::new(&mut ctx);
    let before = ctx.call_count();
    copy_from(&dst, &src, 0, 16, 64, &mut ctx);
    assert_eq!(ctx.call_count(), before + 3);
    assert_eq!(
        *ctx.call_at(before),
        DriverCall::BindBuffer { target: gl::COPY_WRITE_BUFFER, id: dst.get_id() }
    );
    assert_eq!(
        *ctx.call_at(before + 1),
        DriverCall::BindBuffer { target: gl::COPY_READ_BUFFER, id: src.get_id() }
    );
    assert_eq!(
        *ctx.call_at(before + 2),
        DriverCall::CopyBufferSubData { read_offset: 0, write_offset: 16, size: 64 }
    );
    assert_eq!(ctx.current(SlotKind::CopyWriteBuffer), dst.get_id());
    assert_eq!(ctx.current(SlotKind::CopyReadBuffer), src.get_id());
}

#[test]
fn buffer_data_records_size_and_usage() {
    let mut ctx = GlContext::new();
    let a = ArrayBuffer::new(&mut ctx);
    a.bind(&mut ctx);
    let payload = vec![1u8, 2, 3, 4, 5];
    a.data(&payload, BufferUsage::StaticDraw, &mut ctx);
    assert_eq!(
        *ctx.call_at(ctx.call_count() - 1),
        DriverCall::BufferData { target: gl::ARRAY_BUFFER, size: 5, usage: gl::STATIC_DRAW }
    );
    a.subdata(2, 3, &payload, &mut ctx);
    assert_eq!(
        *ctx.call_at(ctx.call_count() - 1),
        DriverCall::BufferSubData { target: gl::ARRAY_BUFFER, offset: 2, size: 3 }
    );
}

#[test]
fn framebuffer_blit_sub_slots_leave_general_slot_untouched() {
    let mut ctx = GlContext::new();
    let f = Framebuffer::new(&mut ctx).unwrap();
    let g = Framebuffer::new(&mut ctx).unwrap();
    f.bind(&mut ctx);
    g.bind_read(&mut ctx);
    f.bind_draw(&mut ctx);
    assert!(f.is_binded(&ctx));
    assert_eq!(ctx.current(SlotKind::ReadFramebuffer), g.get_id());
    assert_eq!(ctx.current(SlotKind::DrawFramebuffer), f.get_id());
    assert_eq!(ctx.current(SlotKind::Framebuffer), f.get_id());
}

#[test]
fn vertex_array_binding_is_tracked_as_shadow_state() {
    let mut ctx = GlContext::new();
    let va = VertexArray::new(&mut ctx);
    va.bind(&mut ctx);
    assert_eq!(VertexArray::current_bind(&ctx), va.get_id());
    // The precondition holds, so the check passes.
    va.check_bind(&ctx);
    va.unbind(&mut ctx);
    assert_eq!(VertexArray::current_bind(&ctx), 0);
}
