//! The uniform marshalling protocol: promotion, vector expansion, and the
//! matrix transpose round trip.
use glbind::call::DriverCall;
use glbind::context::GlContext;
use glbind::glsl::Program;
use glbind::vec::{Mat4, Vector2, Vector3, Vector4};
use glbind::{F32Bits, F64Bits, GlUse};

fn used_program(ctx: &mut GlContext) -> Program {
    let p = Program::new(ctx);
    p.set_used(ctx);
    p
}

fn last_call(ctx: &GlContext) -> DriverCall {
    ctx.call_at(ctx.call_count() - 1).clone()
}

#[test]
fn booleans_promote_to_the_signed_calls_of_one_and_zero() {
    let mut ctx = GlContext::new();
    let p = used_program(&mut ctx);
    p.send_uniform(4, true, &mut ctx);
    let call_true = last_call(&ctx);
    p.send_uniform(4, 1i32, &mut ctx);
    let call_one = last_call(&ctx);
    assert_eq!(call_true, call_one);
    assert_eq!(call_true, DriverCall::Uniform1i { location: 4, v: 1 });

    p.send_uniform(4, false, &mut ctx);
    let call_false = last_call(&ctx);
    p.send_uniform(4, 0i32, &mut ctx);
    let call_zero = last_call(&ctx);
    assert_eq!(call_false, call_zero);
    assert_eq!(call_false, DriverCall::Uniform1i { location: 4, v: 0 });
}

#[test]
fn narrow_integers_widen_to_their_32_bit_families() {
    let mut ctx = GlContext::new();
    let p = used_program(&mut ctx);
    p.send_uniform(0, -5i8, &mut ctx);
    assert_eq!(last_call(&ctx), DriverCall::Uniform1i { location: 0, v: -5 });
    p.send_uniform(0, -300i16, &mut ctx);
    assert_eq!(last_call(&ctx), DriverCall::Uniform1i { location: 0, v: -300 });
    p.send_uniform(0, 200u8, &mut ctx);
    assert_eq!(last_call(&ctx), DriverCall::Uniform1ui { location: 0, v: 200 });
    p.send_uniform(0, 60000u16, &mut ctx);
    assert_eq!(last_call(&ctx), DriverCall::Uniform1ui { location: 0, v: 60000 });
    p.send_uniform(0, 7u32, &mut ctx);
    assert_eq!(last_call(&ctx), DriverCall::Uniform1ui { location: 0, v: 7 });
}

#[test]
fn float_bits_go_through_the_float_families_unchanged() {
    let mut ctx = GlContext::new();
    let p = used_program(&mut ctx);
    p.send_uniform(2, F32Bits { bits: 1.5f32.to_bits() }, &mut ctx);
    assert_eq!(
        last_call(&ctx),
        DriverCall::Uniform1f { location: 2, bits: 1.5f32.to_bits() }
    );
    p.send_uniform(2, F64Bits { bits: 2.25f64.to_bits() }, &mut ctx);
    assert_eq!(
        last_call(&ctx),
        DriverCall::Uniform1d { location: 2, bits: 2.25f64.to_bits() }
    );
}

#[test]
fn vectors_expand_into_one_multi_element_call() {
    let mut ctx = GlContext::new();
    let p = used_program(&mut ctx);
    p.send_uniform(1, Vector2::new(3i32, -4i32), &mut ctx);
    assert_eq!(
        last_call(&ctx),
        DriverCall::Uniform1iv { location: 1, vals: vec![3, -4] }
    );
    p.send_uniform(1, Vector3::new(1u32, 2u32, 3u32), &mut ctx);
    assert_eq!(
        last_call(&ctx),
        DriverCall::Uniform1uiv { location: 1, vals: vec![1, 2, 3] }
    );
    p.send_uniform(1, Vector4::new(true, false, true, true), &mut ctx);
    assert_eq!(
        last_call(&ctx),
        DriverCall::Uniform1iv { location: 1, vals: vec![1, 0, 1, 1] }
    );
    let v = Vector3::new(
        F32Bits { bits: 0.5f32.to_bits() },
        F32Bits { bits: 1.0f32.to_bits() },
        F32Bits { bits: 2.0f32.to_bits() },
    );
    p.send_uniform(1, v, &mut ctx);
    assert_eq!(
        last_call(&ctx),
        DriverCall::Uniform1fv {
            location: 1,
            bits: vec![0.5f32.to_bits(), 1.0f32.to_bits(), 2.0f32.to_bits()],
        }
    );
}

#[test]
fn double_vectors_expand_into_one_double_call() {
    let mut ctx = GlContext::new();
    let p = used_program(&mut ctx);
    let v = Vector2::new(
        F64Bits { bits: 0.25f64.to_bits() },
        F64Bits { bits: 8.0f64.to_bits() },
    );
    p.send_uniform(9, v, &mut ctx);
    assert_eq!(
        last_call(&ctx),
        DriverCall::Uniform1dv {
            location: 9,
            bits: vec![0.25f64.to_bits(), 8.0f64.to_bits()],
        }
    );
}

fn row_major_counting_matrix() -> Vec<u32> {
    let mut bits = Vec::new();
    for i in 0..16u32 {
        bits.push((i as f32).to_bits());
    }
    bits
}

#[test]
fn matrix_upload_sends_the_transposed_flattening() {
    let mut ctx = GlContext::new();
    let p = used_program(&mut ctx);
    let m = Mat4::from_bits(row_major_counting_matrix());
    p.send_uniform(6, m, &mut ctx);
    let expected: Vec<u32> = vec![0.0f32, 4.0, 8.0, 12.0, 1.0, 5.0, 9.0, 13.0, 2.0, 6.0, 10.0,
        14.0, 3.0, 7.0, 11.0, 15.0]
        .into_iter()
        .map(|x| x.to_bits())
        .collect();
    assert_eq!(
        last_call(&ctx),
        DriverCall::UniformMatrix4fv { location: 6, transpose: false, bits: expected }
    );
}

#[test]
fn matrix_transpose_is_self_inverse() {
    let m = Mat4::from_bits(row_major_counting_matrix());
    let round_tripped = m.transpose().transpose();
    assert_eq!(round_tripped, m);
    // Reading back the driver's transposed image and transposing it once
    // yields the uploaded matrix.
    let driver_image = m.transpose();
    assert_eq!(driver_image.transpose(), m);
}
