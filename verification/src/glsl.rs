//! Shaders, programs, and the assembly of shader source text.
//!
//! Shader and program handles follow the same lifecycle as every other
//! resource. Compilation and linking are driver work: this layer issues the
//! calls and, given the status and diagnostic the driver reports back,
//! decides the outcome with [`Shader::compile_result`] and
//! [`Program::link_result`] — a failed compile carries the driver's
//! diagnostic text and is never retried, since resubmitting the same source
//! cannot make it valid.
use vstd::prelude::*;

verus! {

use crate::call::{Call, DriverCall};
use crate::consts::{
    GL_VERTEX_SHADER, GL_FRAGMENT_SHADER, GL_GEOMETRY_SHADER, GL_COMPUTE_SHADER,
};
use crate::context::{alloc_call, dealloc_call, GlContext, ResourceCategory, SlotKind};
use crate::{GlObject, GlUniform, GlUse, GlslType};
use vstd::string::StringExecFns;

/// The shader stages a program is assembled from.
#[derive(Debug, PartialEq, PartialOrd, Eq, Clone, Copy, Structural)]
pub enum ShaderType {
    VertexShader,
    FragmentShader,
    GeometryShader,
    ComputeShader,
}

impl ShaderType {
    pub open spec fn enum_spec(self) -> u32 {
        match self {
            ShaderType::VertexShader => GL_VERTEX_SHADER,
            ShaderType::FragmentShader => GL_FRAGMENT_SHADER,
            ShaderType::GeometryShader => GL_GEOMETRY_SHADER,
            ShaderType::ComputeShader => GL_COMPUTE_SHADER,
        }
    }

    pub fn to_enum(&self) -> (r: u32)
        ensures
            r == self.enum_spec(),
    {
        match self {
            ShaderType::VertexShader => GL_VERTEX_SHADER,
            ShaderType::FragmentShader => GL_FRAGMENT_SHADER,
            ShaderType::GeometryShader => GL_GEOMETRY_SHADER,
            ShaderType::ComputeShader => GL_COMPUTE_SHADER,
        }
    }
}

/// The shading language versions a source header can name.
#[derive(Debug, PartialEq, Eq, Clone, Copy, Structural)]
pub enum GlslVersion {
    V1_00,
    V1_20,
    V1_30,
    V1_40,
    V3_00,
    V3_30,
}

/// The storage qualifier of one shading-language variable declaration.
#[derive(Default, Debug, PartialEq, PartialOrd, Eq, Clone, Copy, Structural)]
pub enum GlslQualifier {
    Default,
    #[default]
    Const,
    Input,
    Output,
    Uniform,
}

/// The keyword a qualifier contributes to a declaration; the default
/// qualifier contributes nothing.
pub open spec fn qualifier_word(q: GlslQualifier) -> Seq<char> {
    match q {
        GlslQualifier::Default => ""@,
        GlslQualifier::Const => "const"@,
        GlslQualifier::Input => "in"@,
        GlslQualifier::Output => "out"@,
        GlslQualifier::Uniform => "uniform"@,
    }
}

impl GlslQualifier {
    pub fn to_string(&self) -> (r: String)
        ensures
            r@ == qualifier_word(*self),
    {
        match self {
            GlslQualifier::Default => String::from_str(""),
            GlslQualifier::Const => String::from_str("const"),
            GlslQualifier::Input => String::from_str("in"),
            GlslQualifier::Output => String::from_str("out"),
            GlslQualifier::Uniform => String::from_str("uniform"),
        }
    }
}

/// The mathematical image of one variable declaration.
pub struct GlslVariableV {
    pub qualifier: GlslQualifier,
    pub type_: Seq<char>,
    pub size: u32,
    pub name: Seq<char>,
}

/// One shading-language variable declaration: qualifier, type name,
/// element count and variable name.
#[derive(Debug, PartialEq, Eq, Clone)]
pub struct GlslVariable {
    pub qualifier: GlslQualifier,
    pub type_: String,
    pub size: u32,
    pub name: String,
}

impl View for GlslVariable {
    type V = GlslVariableV;

    open spec fn view(&self) -> GlslVariableV {
        GlslVariableV {
            qualifier: self.qualifier,
            type_: self.type_@,
            size: self.size,
            name: self.name@,
        }
    }
}

/// The declaration text of one variable: qualifier keyword, type name and
/// variable name, space-separated, without the closing semicolon.
pub open spec fn decl_of(v: GlslVariableV) -> Seq<char> {
    qualifier_word(v.qualifier) + " "@ + v.type_ + " "@ + v.name
}

impl GlslVariable {
    /// A declaration of type `T` under `qualifier`, one element.
    pub fn new<T: GlslType>(qualifier: GlslQualifier, name: &str) -> (r: GlslVariable)
        ensures
            r@ == (GlslVariableV { qualifier, type_: T::glsl_name(), size: 1, name: name@ }),
    {
        GlslVariable { qualifier, type_: T::to_glsl(), size: 1, name: name.to_owned() }
    }

    /// A constant declaration of type `T`.
    pub fn new_const<T: GlslType>(name: &str) -> (r: GlslVariable)
        ensures
            r@ == (GlslVariableV {
                qualifier: GlslQualifier::Const,
                type_: T::glsl_name(),
                size: 1,
                name: name@,
            }),
    {
        GlslVariable::new::<T>(GlslQualifier::Const, name)
    }

    /// An input declaration of type `T`.
    pub fn new_input<T: GlslType>(name: &str) -> (r: GlslVariable)
        ensures
            r@ == (GlslVariableV {
                qualifier: GlslQualifier::Input,
                type_: T::glsl_name(),
                size: 1,
                name: name@,
            }),
    {
        GlslVariable::new::<T>(GlslQualifier::Input, name)
    }

    /// An output declaration of type `T`.
    pub fn new_output<T: GlslType>(name: &str) -> (r: GlslVariable)
        ensures
            r@ == (GlslVariableV {
                qualifier: GlslQualifier::Output,
                type_: T::glsl_name(),
                size: 1,
                name: name@,
            }),
    {
        GlslVariable::new::<T>(GlslQualifier::Output, name)
    }

    /// A uniform declaration of type `T`.
    pub fn new_uniform<T: GlslType>(name: &str) -> (r: GlslVariable)
        ensures
            r@ == (GlslVariableV {
                qualifier: GlslQualifier::Uniform,
                type_: T::glsl_name(),
                size: 1,
                name: name@,
            }),
    {
        GlslVariable::new::<T>(GlslQualifier::Uniform, name)
    }

    /// Declare `size` elements instead of one; zero elements is no
    /// declaration at all, so the input is ruled out.
    pub fn set_size(&mut self, size: u32)
        requires
            size != 0,
        ensures
            final(self)@ == (GlslVariableV { size, ..old(self)@ }),
    {
        self.size = size;
    }

    /// The declaration's text, without the closing semicolon.
    pub fn to_string(&self) -> (r: String)
        ensures
            r@ == decl_of(self@),
    {
        let mut s = self.qualifier.to_string();
        s.append(" ");
        s.append(self.type_.as_str());
        s.append(" ");
        s.append(self.name.as_str());
        proof {
            assert(s@ =~= decl_of(self@));
        }
        s
    }
}

/// An owning handle to one driver-side shader object.
#[derive(Debug, PartialEq, Eq)]
pub struct Shader {
    id: u32,
}

impl Shader {
    /// Create one driver-side shader object for stage `kind` and own it.
    pub fn new(kind: ShaderType, ctx: &mut GlContext) -> (r: Shader)
        requires
            old(ctx).wf(),
            old(ctx).next_id < u32::MAX,
        ensures
            r.id_spec() == old(ctx).next_id,
            r.id_spec() >= 1,
            final(ctx).log() == old(ctx).log().push(
                alloc_call(
                    ResourceCategory::Shader { kind: kind.enum_spec() },
                    r.id_spec(),
                ),
            ),
            final(ctx).slots == old(ctx).slots,
            final(ctx).next_id == old(ctx).next_id + 1,
            final(ctx).wf(),
    {
        let id = ctx.allocate(ResourceCategory::Shader { kind: kind.to_enum() });
        Shader { id }
    }

    /// Issue the one deallocation call of this handle's lifetime.
    pub fn delete(self, ctx: &mut GlContext)
        ensures
            final(ctx).log() == old(ctx).log().push(
                dealloc_call(ResourceCategory::Shader { kind: 0 }, self.id_spec()),
            ),
            final(ctx).slots == old(ctx).slots,
            final(ctx).next_id == old(ctx).next_id,
    {
        ctx.deallocate(ResourceCategory::Shader { kind: 0 }, self.id);
    }

    /// Hand the shader its source text, one string per line group.
    pub fn source(&self, source: Vec<String>, ctx: &mut GlContext)
        ensures
            final(ctx).log() == old(ctx).log().push(
                Call::ShaderSource {
                    shader: self.id_spec(),
                    lines: source@.map_values(|s: String| s@),
                },
            ),
            final(ctx).slots == old(ctx).slots,
            final(ctx).next_id == old(ctx).next_id,
    {
        ctx.record(DriverCall::ShaderSource { shader: self.id, lines: source });
    }

    /// Ask the driver to compile the source handed over before.
    pub fn compile(&self, ctx: &mut GlContext)
        ensures
            final(ctx).log() == old(ctx).log().push(Call::CompileShader { id: self.id_spec() }),
            final(ctx).slots == old(ctx).slots,
            final(ctx).next_id == old(ctx).next_id,
    {
        ctx.record(DriverCall::CompileShader { id: self.id });
    }

    /// Decide a compile outcome from what the driver reports: a zero status
    /// is failure and surfaces the driver's diagnostic text unchanged; any
    /// other status is success.
    pub fn compile_result(status: i32, diagnostic: String) -> (r: Result<(), String>)
        ensures
            r is Ok <==> status != 0,
            r is Err ==> r->Err_0 == diagnostic,
    {
        if status == 0 {
            Err(diagnostic)
        } else {
            Ok(())
        }
    }

    /// Create a shader for `kind`, hand it `source` as one block, and issue
    /// its compile call.
    pub fn from_source(kind: ShaderType, source: &str, ctx: &mut GlContext) -> (r: Shader)
        requires
            old(ctx).wf(),
            old(ctx).next_id < u32::MAX,
        ensures
            r.id_spec() == old(ctx).next_id,
            final(ctx).log() == old(ctx).log() + seq![
                alloc_call(ResourceCategory::Shader { kind: kind.enum_spec() }, r.id_spec()),
                Call::ShaderSource { shader: r.id_spec(), lines: seq![source@] },
                Call::CompileShader { id: r.id_spec() },
            ],
            final(ctx).slots == old(ctx).slots,
            final(ctx).next_id == old(ctx).next_id + 1,
            final(ctx).wf(),
    {
        let shader = Shader::new(kind, ctx);
        let mut lines: Vec<String> = Vec::new();
        lines.push(source.to_owned());
        proof {
            assert(lines@.map_values(|s: String| s@) =~= seq![source@]);
        }
        shader.source(lines, ctx);
        shader.compile(ctx);
        proof {
            assert(ctx.log() =~= old(ctx).log() + seq![
                alloc_call(
                    ResourceCategory::Shader { kind: kind.enum_spec() },
                    shader.id_spec(),
                ),
                Call::ShaderSource { shader: shader.id_spec(), lines: seq![source@] },
                Call::CompileShader { id: shader.id_spec() },
            ]);
        }
        shader
    }
}

impl GlObject for Shader {
    closed spec fn id_spec(&self) -> u32 {
        self.id
    }

    fn get_id(&self) -> u32 {
        self.id
    }
}

/// The attach calls that hand every shader of `shaders` to program `program`.
pub open spec fn attach_calls(program: u32, shaders: Seq<Shader>) -> Seq<Call>
    decreases shaders.len(),
{
    if shaders.len() == 0 {
        Seq::empty()
    } else {
        attach_calls(program, shaders.drop_last()).push(
            Call::AttachShader { program, shader: shaders.last().id_spec() },
        )
    }
}

/// An owning handle to one driver-side program object.
#[derive(Debug, PartialEq, Eq)]
pub struct Program {
    id: u32,
}

impl Program {
    /// Create one driver-side program object and own it.
    pub fn new(ctx: &mut GlContext) -> (r: Program)
        requires
            old(ctx).wf(),
            old(ctx).next_id < u32::MAX,
        ensures
            r.id_spec() == old(ctx).next_id,
            r.id_spec() >= 1,
            final(ctx).log() == old(ctx).log().push(
                alloc_call(ResourceCategory::Program, r.id_spec()),
            ),
            final(ctx).slots == old(ctx).slots,
            final(ctx).next_id == old(ctx).next_id + 1,
            final(ctx).wf(),
    {
        let id = ctx.allocate(ResourceCategory::Program);
        Program { id }
    }

    /// Issue the one deallocation call of this handle's lifetime.
    pub fn delete(self, ctx: &mut GlContext)
        ensures
            final(ctx).log() == old(ctx).log().push(
                dealloc_call(ResourceCategory::Program, self.id_spec()),
            ),
            final(ctx).slots == old(ctx).slots,
            final(ctx).next_id == old(ctx).next_id,
    {
        ctx.deallocate(ResourceCategory::Program, self.id);
    }

    /// Attach one compiled shader to this program.
    pub fn attach_shader(&self, shader: &Shader, ctx: &mut GlContext)
        ensures
            final(ctx).log() == old(ctx).log().push(
                Call::AttachShader { program: self.id_spec(), shader: shader.id_spec() },
            ),
            final(ctx).slots == old(ctx).slots,
            final(ctx).next_id == old(ctx).next_id,
    {
        ctx.record(DriverCall::AttachShader { program: self.id, shader: shader.get_id() });
    }

    /// Ask the driver to link the attached shaders into this program.
    pub fn link(&self, ctx: &mut GlContext)
        ensures
            final(ctx).log() == old(ctx).log().push(Call::LinkProgram { id: self.id_spec() }),
            final(ctx).slots == old(ctx).slots,
            final(ctx).next_id == old(ctx).next_id,
    {
        ctx.record(DriverCall::LinkProgram { id: self.id });
    }

    /// Decide a link outcome from what the driver reports: a zero status is
    /// failure and surfaces the driver's diagnostic text unchanged; any
    /// other status is success.
    pub fn link_result(status: i32, diagnostic: String) -> (r: Result<(), String>)
        ensures
            r is Ok <==> status != 0,
            r is Err ==> r->Err_0 == diagnostic,
    {
        if status == 0 {
            Err(diagnostic)
        } else {
            Ok(())
        }
    }

    /// Create a program, attach every shader of `shaders` in order, and
    /// issue its link call.
    pub fn from_shaders(shaders: &Vec<Shader>, ctx: &mut GlContext) -> (r: Program)
        requires
            old(ctx).wf(),
            old(ctx).next_id < u32::MAX,
        ensures
            r.id_spec() == old(ctx).next_id,
            final(ctx).log() == old(ctx).log().push(
                alloc_call(ResourceCategory::Program, r.id_spec()),
            ) + attach_calls(r.id_spec(), shaders@) + seq![
                Call::LinkProgram { id: r.id_spec() },
            ],
            final(ctx).slots == old(ctx).slots,
            final(ctx).next_id == old(ctx).next_id + 1,
            final(ctx).wf(),
    {
        let program = Program::new(ctx);
        let ghost mid = ctx.log();
        let mut i: usize = 0;
        while i < shaders.len()
            invariant
                ctx.log() == mid + attach_calls(
                    program.id_spec(),
                    shaders@.subrange(0, i as int),
                ),
                i <= shaders@.len(),
                ctx.slots == old(ctx).slots,
                ctx.next_id == old(ctx).next_id + 1,
                ctx.wf(),
            decreases shaders@.len() - i,
        {
            program.attach_shader(&shaders[i], ctx);
            proof {
                let pre = shaders@.subrange(0, i as int + 1);
                assert(pre.drop_last() =~= shaders@.subrange(0, i as int));
                assert(ctx.log() =~= mid + attach_calls(program.id_spec(), pre));
            }
            i = i + 1;
        }
        proof {
            assert(shaders@.subrange(0, shaders@.len() as int) =~= shaders@);
        }
        program.link(ctx);
        proof {
            assert(ctx.log() =~= old(ctx).log().push(
                alloc_call(ResourceCategory::Program, program.id_spec()),
            ) + attach_calls(program.id_spec(), shaders@) + seq![
                Call::LinkProgram { id: program.id_spec() },
            ]);
        }
        program
    }

    /// Create and compile a vertex and a fragment shader from their source
    /// texts, attach both to a fresh program, and issue its link call.
    pub fn from_source(vert_src: &str, frag_src: &str, ctx: &mut GlContext) -> (r: Program)
        requires
            old(ctx).wf(),
            old(ctx).next_id < u32::MAX - 2,
        ensures
            r.id_spec() == old(ctx).next_id + 2,
            final(ctx).log() == old(ctx).log() + seq![
                alloc_call(
                    ResourceCategory::Shader { kind: GL_VERTEX_SHADER },
                    old(ctx).next_id,
                ),
                Call::ShaderSource { shader: old(ctx).next_id, lines: seq![vert_src@] },
                Call::CompileShader { id: old(ctx).next_id },
                alloc_call(
                    ResourceCategory::Shader { kind: GL_FRAGMENT_SHADER },
                    (old(ctx).next_id + 1) as u32,
                ),
                Call::ShaderSource {
                    shader: (old(ctx).next_id + 1) as u32,
                    lines: seq![frag_src@],
                },
                Call::CompileShader { id: (old(ctx).next_id + 1) as u32 },
                alloc_call(ResourceCategory::Program, (old(ctx).next_id + 2) as u32),
                Call::AttachShader {
                    program: (old(ctx).next_id + 2) as u32,
                    shader: old(ctx).next_id,
                },
                Call::AttachShader {
                    program: (old(ctx).next_id + 2) as u32,
                    shader: (old(ctx).next_id + 1) as u32,
                },
                Call::LinkProgram { id: (old(ctx).next_id + 2) as u32 },
            ],
            final(ctx).slots == old(ctx).slots,
            final(ctx).next_id == old(ctx).next_id + 3,
            final(ctx).wf(),
    {
        let vert_shd = Shader::from_source(ShaderType::VertexShader, vert_src, ctx);
        let frag_shd = Shader::from_source(ShaderType::FragmentShader, frag_src, ctx);
        let program = Program::new(ctx);
        program.attach_shader(&vert_shd, ctx);
        program.attach_shader(&frag_shd, ctx);
        program.link(ctx);
        proof {
            assert(ctx.log() =~= old(ctx).log() + seq![
                alloc_call(
                    ResourceCategory::Shader { kind: GL_VERTEX_SHADER },
                    old(ctx).next_id,
                ),
                Call::ShaderSource { shader: old(ctx).next_id, lines: seq![vert_src@] },
                Call::CompileShader { id: old(ctx).next_id },
                alloc_call(
                    ResourceCategory::Shader { kind: GL_FRAGMENT_SHADER },
                    (old(ctx).next_id + 1) as u32,
                ),
                Call::ShaderSource {
                    shader: (old(ctx).next_id + 1) as u32,
                    lines: seq![frag_src@],
                },
                Call::CompileShader { id: (old(ctx).next_id + 1) as u32 },
                alloc_call(ResourceCategory::Program, (old(ctx).next_id + 2) as u32),
                Call::AttachShader {
                    program: (old(ctx).next_id + 2) as u32,
                    shader: old(ctx).next_id,
                },
                Call::AttachShader {
                    program: (old(ctx).next_id + 2) as u32,
                    shader: (old(ctx).next_id + 1) as u32,
                },
                Call::LinkProgram { id: (old(ctx).next_id + 2) as u32 },
            ]);
        }
        program
    }

    /// Send one marshallable value to uniform location `location` of this
    /// program, which must be the one currently in use.
    pub fn send_uniform<T: GlUniform>(&self, location: i32, data: T, ctx: &mut GlContext)
        requires
            data.uniform_req(),
            old(ctx).slots.spec_get(SlotKind::Program) == self.id_spec(),
        ensures
            final(ctx).log() == old(ctx).log().push(data.uniform_call(location)),
            final(ctx).slots == old(ctx).slots,
            final(ctx).next_id == old(ctx).next_id,
    {
        data.send_uniform(location, ctx);
    }
}

impl GlObject for Program {
    closed spec fn id_spec(&self) -> u32 {
        self.id
    }

    fn get_id(&self) -> u32 {
        self.id
    }
}

impl GlUse for Program {
}

/// Assembles the source text of one shader stage: a version header, a
/// precision line, the variable declarations in order, free-form text before
/// the main body, and the main body itself.
#[derive(Debug, PartialEq, Eq)]
pub struct ShaderBuilder {
    pub version: String,
    pub precision: String,
    pub variables: Vec<GlslVariable>,
    pub pre_main: Vec<String>,
    pub main: String,
}

impl ShaderBuilder {
    /// The declarations collected so far, as mathematical values.
    pub open spec fn vars(self) -> Seq<GlslVariableV> {
        self.variables@.map_values(|v: GlslVariable| v@)
    }

    /// The pre-main snippets collected so far, as character sequences.
    pub open spec fn pre_main_views(self) -> Seq<Seq<char>> {
        self.pre_main@.map_values(|s: String| s@)
    }

    /// The assembled source: the version header and the precision line,
    /// each newline-terminated; one semicolon-terminated declaration per
    /// variable; the pre-main snippets; and the main body.
    pub open spec fn assembled(self) -> Seq<Seq<char>> {
        seq![self.version@ + "\n"@, self.precision@ + "\n"@] + self.vars().map_values(
            |v: GlslVariableV| decl_of(v) + ";"@,
        ) + self.pre_main_views() + seq![self.main@]
    }

    /// An empty builder, headed by the default version line.
    pub fn new() -> (r: ShaderBuilder)
        ensures
            r.version@ == "#version 140"@,
            r.precision@ == Seq::<char>::empty(),
            r.vars() == Seq::<GlslVariableV>::empty(),
            r.pre_main_views() == Seq::<Seq<char>>::empty(),
            r.main@ == Seq::<char>::empty(),
    {
        let r = ShaderBuilder {
            version: String::from_str("#version 140"),
            precision: String::new(),
            variables: Vec::new(),
            pre_main: Vec::new(),
            main: String::new(),
        };
        proof {
            assert(r.vars() =~= Seq::<GlslVariableV>::empty());
            assert(r.pre_main_views() =~= Seq::<Seq<char>>::empty());
        }
        r
    }

    /// Replace the version header line.
    pub fn glsl_version(&mut self, version: &str)
        ensures
            final(self).version@ == version@,
            final(self).precision == old(self).precision,
            final(self).vars() == old(self).vars(),
            final(self).pre_main_views() == old(self).pre_main_views(),
            final(self).main == old(self).main,
    {
        self.version = version.to_owned();
    }

    /// Declare the position input, first among the declarations.
    pub fn position<T: GlslType>(&mut self)
        ensures
            final(self).vars() == old(self).vars().insert(
                0,
                GlslVariableV {
                    qualifier: GlslQualifier::Input,
                    type_: T::glsl_name(),
                    size: 1,
                    name: "a_Position"@,
                },
            ),
            final(self).version == old(self).version,
            final(self).precision == old(self).precision,
            final(self).pre_main_views() == old(self).pre_main_views(),
            final(self).main == old(self).main,
    {
        let v = GlslVariable::new_input::<T>("a_Position");
        let ghost vv = v@;
        self.variables.insert(0, v);
        proof {
            assert(self.vars() =~= old(self).vars().insert(0, vv));
        }
    }

    /// Declare the color input, second among the declarations.
    pub fn color<T: GlslType>(&mut self)
        requires
            old(self).vars().len() >= 1,
        ensures
            final(self).vars() == old(self).vars().insert(
                1,
                GlslVariableV {
                    qualifier: GlslQualifier::Input,
                    type_: T::glsl_name(),
                    size: 1,
                    name: "a_Color"@,
                },
            ),
            final(self).version == old(self).version,
            final(self).precision == old(self).precision,
            final(self).pre_main_views() == old(self).pre_main_views(),
            final(self).main == old(self).main,
    {
        let v = GlslVariable::new_input::<T>("a_Color");
        let ghost vv = v@;
        self.variables.insert(1, v);
        proof {
            assert(self.vars() =~= old(self).vars().insert(1, vv));
        }
    }

    /// Declare the texture coordinate input, third among the declarations.
    pub fn texcoord<T: GlslType>(&mut self)
        requires
            old(self).vars().len() >= 2,
        ensures
            final(self).vars() == old(self).vars().insert(
                2,
                GlslVariableV {
                    qualifier: GlslQualifier::Input,
                    type_: T::glsl_name(),
                    size: 1,
                    name: "a_Texcoord"@,
                },
            ),
            final(self).version == old(self).version,
            final(self).precision == old(self).precision,
            final(self).pre_main_views() == old(self).pre_main_views(),
            final(self).main == old(self).main,
    {
        let v = GlslVariable::new_input::<T>("a_Texcoord");
        let ghost vv = v@;
        self.variables.insert(2, v);
        proof {
            assert(self.vars() =~= old(self).vars().insert(2, vv));
        }
    }

    /// Declare the normal input, fourth among the declarations.
    pub fn normal<T: GlslType>(&mut self)
        requires
            old(self).vars().len() >= 3,
        ensures
            final(self).vars() == old(self).vars().insert(
                3,
                GlslVariableV {
                    qualifier: GlslQualifier::Input,
                    type_: T::glsl_name(),
                    size: 1,
                    name: "a_Normal"@,
                },
            ),
            final(self).version == old(self).version,
            final(self).precision == old(self).precision,
            final(self).pre_main_views() == old(self).pre_main_views(),
            final(self).main == old(self).main,
    {
        let v = GlslVariable::new_input::<T>("a_Normal");
        let ghost vv = v@;
        self.variables.insert(3, v);
        proof {
            assert(self.vars() =~= old(self).vars().insert(3, vv));
        }
    }

    /// Append an input declaration.
    pub fn add_input<T: GlslType>(&mut self, name: &str)
        ensures
            final(self).vars() == old(self).vars().push(
                GlslVariableV {
                    qualifier: GlslQualifier::Input,
                    type_: T::glsl_name(),
                    size: 1,
                    name: name@,
                },
            ),
            final(self).version == old(self).version,
            final(self).precision == old(self).precision,
            final(self).pre_main_views() == old(self).pre_main_views(),
            final(self).main == old(self).main,
    {
        let v = GlslVariable::new_input::<T>(name);
        let ghost vv = v@;
        self.variables.push(v);
        proof {
            assert(self.vars() =~= old(self).vars().push(vv));
        }
    }

    /// Append an output declaration.
    pub fn add_output<T: GlslType>(&mut self, name: &str)
        ensures
            final(self).vars() == old(self).vars().push(
                GlslVariableV {
                    qualifier: GlslQualifier::Output,
                    type_: T::glsl_name(),
                    size: 1,
                    name: name@,
                },
            ),
            final(self).version == old(self).version,
            final(self).precision == old(self).precision,
            final(self).pre_main_views() == old(self).pre_main_views(),
            final(self).main == old(self).main,
    {
        let v = GlslVariable::new_output::<T>(name);
        let ghost vv = v@;
        self.variables.push(v);
        proof {
            assert(self.vars() =~= old(self).vars().push(vv));
        }
    }

    /// Append a uniform declaration.
    pub fn add_uniform<T: GlslType>(&mut self, name: &str)
        ensures
            final(self).vars() == old(self).vars().push(
                GlslVariableV {
                    qualifier: GlslQualifier::Uniform,
                    type_: T::glsl_name(),
                    size: 1,
                    name: name@,
                },
            ),
            final(self).version == old(self).version,
            final(self).precision == old(self).precision,
            final(self).pre_main_views() == old(self).pre_main_views(),
            final(self).main == old(self).main,
    {
        let v = GlslVariable::new_uniform::<T>(name);
        let ghost vv = v@;
        self.variables.push(v);
        proof {
            assert(self.vars() =~= old(self).vars().push(vv));
        }
    }

    /// Append one free-form snippet ahead of the main body.
    pub fn push_pre_main(&mut self, src: &str)
        ensures
            final(self).pre_main_views() == old(self).pre_main_views().push(src@),
            final(self).version == old(self).version,
            final(self).precision == old(self).precision,
            final(self).vars() == old(self).vars(),
            final(self).main == old(self).main,
    {
        self.pre_main.push(src.to_owned());
        proof {
            assert(self.pre_main_views() =~= old(self).pre_main_views().push(src@));
        }
    }

    /// Replace the main body.
    pub fn set_main(&mut self, main: &str)
        ensures
            final(self).main@ == main@,
            final(self).version == old(self).version,
            final(self).precision == old(self).precision,
            final(self).vars() == old(self).vars(),
            final(self).pre_main_views() == old(self).pre_main_views(),
    {
        self.main = main.to_owned();
    }

    /// Assemble the collected pieces into source text, create a shader for
    /// stage `kind`, hand it the text, and issue its compile call. The
    /// driver's verdict on the compile is read back and decided separately,
    /// through [`Shader::compile_result`].
    pub fn build(&self, kind: ShaderType, ctx: &mut GlContext) -> (r: Shader)
        requires
            old(ctx).wf(),
            old(ctx).next_id < u32::MAX,
        ensures
            r.id_spec() == old(ctx).next_id,
            final(ctx).log() == old(ctx).log() + seq![
                alloc_call(ResourceCategory::Shader { kind: kind.enum_spec() }, r.id_spec()),
                Call::ShaderSource { shader: r.id_spec(), lines: self.assembled() },
                Call::CompileShader { id: r.id_spec() },
            ],
            final(ctx).slots == old(ctx).slots,
            final(ctx).next_id == old(ctx).next_id + 1,
            final(ctx).wf(),
    {
        let mut source: Vec<String> = Vec::new();

        let mut header = self.version.clone();
        header.append("\n");
        source.push(header);

        let mut precision = self.precision.clone();
        precision.append("\n");
        source.push(precision);

        proof {
            assert(source@.map_values(|s: String| s@) =~= seq![
                self.version@ + "\n"@,
                self.precision@ + "\n"@,
            ]);
        }

        let mut i: usize = 0;
        while i < self.variables.len()
            invariant
                i <= self.variables@.len(),
                source@.map_values(|s: String| s@) =~= seq![
                    self.version@ + "\n"@,
                    self.precision@ + "\n"@,
                ] + self.vars().subrange(0, i as int).map_values(
                    |v: GlslVariableV| decl_of(v) + ";"@,
                ),
            decreases self.variables@.len() - i,
        {
            let mut line = self.variables[i].to_string();
            line.append(";");
            let ghost before = source@;
            let ghost lv = line@;
            source.push(line);
            proof {
                let pre = self.vars().subrange(0, i as int + 1);
                assert(pre.drop_last() =~= self.vars().subrange(0, i as int));
                assert(pre.last() == self.vars()[i as int]);
                assert(lv == (|v: GlslVariableV| decl_of(v) + ";"@)(self.vars()[i as int]));
                assert(source@.map_values(|s: String| s@) =~= before.map_values(
                    |s: String| s@,
                ).push(lv));
                assert(pre.map_values(|v: GlslVariableV| decl_of(v) + ";"@) =~= pre.drop_last(
                ).map_values(|v: GlslVariableV| decl_of(v) + ";"@).push(
                    (|v: GlslVariableV| decl_of(v) + ";"@)(pre.last()),
                ));
                assert(seq![self.version@ + "\n"@, self.precision@ + "\n"@] + pre.map_values(
                    |v: GlslVariableV| decl_of(v) + ";"@,
                ) =~= (seq![self.version@ + "\n"@, self.precision@ + "\n"@]
                    + pre.drop_last().map_values(|v: GlslVariableV| decl_of(v) + ";"@)).push(
                    (|v: GlslVariableV| decl_of(v) + ";"@)(pre.last()),
                ));
                assert(source@.map_values(|s: String| s@) =~= seq![
                    self.version@ + "\n"@,
                    self.precision@ + "\n"@,
                ] + pre.map_values(|v: GlslVariableV| decl_of(v) + ";"@));
            }
            i = i + 1;
        }
        proof {
            assert(self.vars().subrange(0, self.vars().len() as int) =~= self.vars());
        }

        let mut j: usize = 0;
        while j < self.pre_main.len()
            invariant
                j <= self.pre_main@.len(),
                source@.map_values(|s: String| s@) =~= seq![
                    self.version@ + "\n"@,
                    self.precision@ + "\n"@,
                ] + self.vars().map_values(|v: GlslVariableV| decl_of(v) + ";"@)
                    + self.pre_main_views().subrange(0, j as int),
            decreases self.pre_main@.len() - j,
        {
            let snippet = self.pre_main[j].clone();
            let ghost before = source@;
            let ghost sv = snippet@;
            source.push(snippet);
            proof {
                let pv = self.pre_main_views();
                let decls = self.vars().map_values(|v: GlslVariableV| decl_of(v) + ";"@);
                assert(sv == pv[j as int]);
                assert(source@.map_values(|s: String| s@) =~= before.map_values(
                    |s: String| s@,
                ).push(sv));
                assert(pv.subrange(0, j as int + 1).drop_last() =~= pv.subrange(0, j as int));
                assert(pv.subrange(0, j as int + 1) =~= pv.subrange(0, j as int).push(
                    pv[j as int],
                ));
                assert(seq![self.version@ + "\n"@, self.precision@ + "\n"@] + decls
                    + pv.subrange(0, j as int + 1) =~= (seq![
                    self.version@ + "\n"@,
                    self.precision@ + "\n"@,
                ] + decls + pv.subrange(0, j as int)).push(pv[j as int]));
                assert(source@.map_values(|s: String| s@) =~= seq![
                    self.version@ + "\n"@,
                    self.precision@ + "\n"@,
                ] + decls + pv.subrange(0, j as int + 1));
            }
            j = j + 1;
        }
        proof {
            assert(self.pre_main_views().subrange(0, self.pre_main_views().len() as int)
                =~= self.pre_main_views());
        }

        source.push(self.main.clone());
        proof {
            assert(source@.map_values(|s: String| s@) =~= self.assembled());
        }

        let shader = Shader::new(kind, ctx);
        shader.source(source, ctx);
        shader.compile(ctx);
        proof {
            assert(ctx.log() =~= old(ctx).log() + seq![
                alloc_call(
                    ResourceCategory::Shader { kind: kind.enum_spec() },
                    shader.id_spec(),
                ),
                Call::ShaderSource { shader: shader.id_spec(), lines: self.assembled() },
                Call::CompileShader { id: shader.id_spec() },
            ]);
        }
        shader
    }
}

} // verus!
