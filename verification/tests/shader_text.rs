//! Shader source assembly, the compile/link outcome decisions, and the
//! calls a shader build issues.
use glbind::call::DriverCall;
use glbind::context::GlContext;
use glbind::glsl::{GlslQualifier, GlslVariable, Program, Shader, ShaderBuilder, ShaderType};
use glbind::texture::Sampler2D;
use glbind::GlslType;

#[test]
fn glsl_type_names() {
    assert_eq!(bool::to_glsl(), "bool");
    assert_eq!(glbind::F32Bits::to_glsl(), "float");
    assert_eq!(glbind::F64Bits::to_glsl(), "double");
    assert_eq!(glbind::vec::FVec2::to_glsl(), "vec2");
    assert_eq!(glbind::vec::FVec3::to_glsl(), "vec3");
    assert_eq!(glbind::vec::FVec4::to_glsl(), "vec4");
    assert_eq!(i32::to_glsl(), "int");
    assert_eq!(u32::to_glsl(), "uint");
    assert_eq!(Sampler2D::to_glsl(), "sampler2D");
    assert_eq!(glbind::vec::IVec2::to_glsl(), "ivec2");
    assert_eq!(glbind::vec::BVec3::to_glsl(), "bvec3");
    assert_eq!(glbind::vec::UVec4::to_glsl(), "uvec4");
    assert_eq!(glbind::vec::Mat4::to_glsl(), "mat4");
}

#[test]
fn qualifier_keywords() {
    assert_eq!(GlslQualifier::Default.to_string(), "");
    assert_eq!(GlslQualifier::Const.to_string(), "const");
    assert_eq!(GlslQualifier::Input.to_string(), "in");
    assert_eq!(GlslQualifier::Output.to_string(), "out");
    assert_eq!(GlslQualifier::Uniform.to_string(), "uniform");
}

#[test]
fn variable_declaration_text() {
    let v = GlslVariable::new_uniform::<i32>("u_count");
    assert_eq!(v.to_string(), "uniform int u_count");
    let w = GlslVariable::new_input::<bool>("a_flag");
    assert_eq!(w.to_string(), "in bool a_flag");
    let c = GlslVariable::new_const::<u32>("k");
    assert_eq!(c.to_string(), "const uint k");
    let o = GlslVariable::new_output::<i32>("o_val");
    assert_eq!(o.to_string(), "out int o_val");
    let d = GlslVariable::new::<u32>(GlslQualifier::Default, "plain");
    assert_eq!(d.to_string(), " uint plain");
}

#[test]
fn builder_assembles_header_declarations_and_main() {
    let mut ctx = GlContext::new();
    let mut b = ShaderBuilder::new();
    b.add_input::<i32>("a_Index");
    b.add_uniform::<u32>("u_Mode");
    b.push_pre_main("int helper() { return 1; }");
    b.set_main("void main() {}");
    let _shader = b.build(ShaderType::VertexShader, &mut ctx);
    assert_eq!(ctx.call_count(), 3);
    assert_eq!(
        *ctx.call_at(0),
        DriverCall::CreateShader { kind: gl::VERTEX_SHADER, id: 1 }
    );
    match ctx.call_at(1) {
        DriverCall::ShaderSource { shader: id, lines } => {
            assert_eq!(*id, 1);
            assert_eq!(lines.len(), 6);
            assert_eq!(lines[0], "#version 140\n");
            assert_eq!(lines[1], "\n");
            assert_eq!(lines[2], "in int a_Index;");
            assert_eq!(lines[3], "uniform uint u_Mode;");
            assert_eq!(lines[4], "int helper() { return 1; }");
            assert_eq!(lines[5], "void main() {}");
        }
        other => panic!("expected a source call, got {:?}", other),
    }
    assert_eq!(*ctx.call_at(2), DriverCall::CompileShader { id: 1 });
}

#[test]
fn builder_well_known_inputs_take_their_positions() {
    let mut ctx = GlContext::new();
    let mut b = ShaderBuilder::new();
    b.glsl_version("#version 330");
    b.add_uniform::<u32>("u_First");
    b.position::<i32>();
    b.color::<i32>();
    b.set_main("void main() {}");
    let _ = b.build(ShaderType::VertexShader, &mut ctx);
    match ctx.call_at(1) {
        DriverCall::ShaderSource { lines, .. } => {
            assert_eq!(lines[0], "#version 330\n");
            assert_eq!(lines[2], "in int a_Position;");
            assert_eq!(lines[3], "in int a_Color;");
            assert_eq!(lines[4], "uniform uint u_First;");
        }
        other => panic!("expected a source call, got {:?}", other),
    }
}

#[test]
fn compile_and_link_outcomes_follow_the_status() {
    assert_eq!(Shader::compile_result(1, String::new()), Ok(()));
    assert_eq!(
        Shader::compile_result(0, String::from("syntax error at line 3")),
        Err(String::from("syntax error at line 3"))
    );
    assert_eq!(Program::link_result(1, String::new()), Ok(()));
    assert_eq!(
        Program::link_result(0, String::from("unresolved symbol")),
        Err(String::from("unresolved symbol"))
    );
}

#[test]
fn shader_from_source_issues_create_source_compile() {
    let mut ctx = GlContext::new();
    let _s = Shader::from_source(ShaderType::FragmentShader, "void main() {}", &mut ctx);
    assert_eq!(ctx.call_count(), 3);
    assert_eq!(
        *ctx.call_at(0),
        DriverCall::CreateShader { kind: gl::FRAGMENT_SHADER, id: 1 }
    );
    assert_eq!(
        *ctx.call_at(1),
        DriverCall::ShaderSource { shader: 1, lines: vec![String::from("void main() {}")] }
    );
    assert_eq!(*ctx.call_at(2), DriverCall::CompileShader { id: 1 });
}

#[test]
fn program_from_source_chains_both_stages_and_links() {
    let mut ctx = GlContext::new();
    let _p = Program::from_source("void main() {}", "void main() {}", &mut ctx);
    assert_eq!(ctx.call_count(), 10);
    assert_eq!(
        *ctx.call_at(0),
        DriverCall::CreateShader { kind: gl::VERTEX_SHADER, id: 1 }
    );
    assert_eq!(
        *ctx.call_at(3),
        DriverCall::CreateShader { kind: gl::FRAGMENT_SHADER, id: 2 }
    );
    assert_eq!(*ctx.call_at(6), DriverCall::CreateProgram { id: 3 });
    assert_eq!(*ctx.call_at(7), DriverCall::AttachShader { program: 3, shader: 1 });
    assert_eq!(*ctx.call_at(8), DriverCall::AttachShader { program: 3, shader: 2 });
    assert_eq!(*ctx.call_at(9), DriverCall::LinkProgram { id: 3 });
}

#[test]
fn variable_set_size_changes_the_element_count() {
    let mut v = GlslVariable::new_uniform::<i32>("u_lights");
    v.set_size(4);
    assert_eq!(v.size, 4);
}
