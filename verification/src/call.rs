//! The flat numeric call forms of the driver interface.
//!
//! Every operation of this layer is recorded as a [`DriverCall`] value; the
//! unverified executable layer replays such values against the real driver.
//! [`Call`] is the mathematical image of a recorded call: payload vectors
//! become sequences, so that contracts and laws can speak of call streams.
use vstd::prelude::*;

verus! {

/// One driver call, as issued: the call's name and its flat numeric arguments.
///
/// Data payloads (uniform vectors, shader source lines) are carried by value;
/// bulk byte uploads carry their byte count, the bytes themselves being opaque
/// to the binding-state model. Floating-point payloads are carried as their
/// IEEE 754 bit patterns, which this layer forwards without interpreting.
#[derive(Debug, Clone, PartialEq)]
pub enum DriverCall {
    GenBuffer { id: u32 },
    DeleteBuffer { id: u32 },
    GenTexture { id: u32 },
    DeleteTexture { id: u32 },
    GenVertexArray { id: u32 },
    DeleteVertexArray { id: u32 },
    GenFramebuffer { id: u32 },
    DeleteFramebuffer { id: u32 },
    CreateShader { kind: u32, id: u32 },
    DeleteShader { id: u32 },
    CreateProgram { id: u32 },
    DeleteProgram { id: u32 },
    BindBuffer { target: u32, id: u32 },
    BindTexture { target: u32, id: u32 },
    BindVertexArray { id: u32 },
    BindFramebuffer { target: u32, id: u32 },
    UseProgram { id: u32 },
    BufferData { target: u32, size: usize, usage: u32 },
    BufferSubData { target: u32, offset: usize, size: usize },
    CopyBufferSubData { read_offset: usize, write_offset: usize, size: usize },
    TexParameter { target: u32, pname: u32, param: u32 },
    TexImage2D {
        target: u32,
        level: i32,
        internal_format: u32,
        width: i32,
        height: i32,
        border: i32,
        format: u32,
        data_type: u32,
        data_len: usize,
    },
    TexSubImage2D {
        target: u32,
        level: i32,
        x_offset: i32,
        y_offset: i32,
        width: i32,
        height: i32,
        format: u32,
        data_type: u32,
        data_len: usize,
    },
    FramebufferTexture2D { target: u32, attachment: u32, tex_target: u32, id: u32, level: i32 },
    ShaderSource { shader: u32, lines: Vec<String> },
    CompileShader { id: u32 },
    AttachShader { program: u32, shader: u32 },
    LinkProgram { id: u32 },
    EnableVertexAttribArray { location: u32 },
    VertexAttribPointer {
        location: u32,
        size: u32,
        type_: u32,
        normalized: bool,
        stride: u32,
        offset: u32,
    },
    Uniform1i { location: i32, v: i32 },
    Uniform1ui { location: i32, v: u32 },
    Uniform1f { location: i32, bits: u32 },
    Uniform1d { location: i32, bits: u64 },
    Uniform1iv { location: i32, vals: Vec<i32> },
    Uniform1uiv { location: i32, vals: Vec<u32> },
    Uniform1fv { location: i32, bits: Vec<u32> },
    Uniform1dv { location: i32, bits: Vec<u64> },
    UniformMatrix4fv { location: i32, transpose: bool, bits: Vec<u32> },
}

/// The mathematical image of one driver call: payloads as sequences.
pub enum Call {
    GenBuffer { id: u32 },
    DeleteBuffer { id: u32 },
    GenTexture { id: u32 },
    DeleteTexture { id: u32 },
    GenVertexArray { id: u32 },
    DeleteVertexArray { id: u32 },
    GenFramebuffer { id: u32 },
    DeleteFramebuffer { id: u32 },
    CreateShader { kind: u32, id: u32 },
    DeleteShader { id: u32 },
    CreateProgram { id: u32 },
    DeleteProgram { id: u32 },
    BindBuffer { target: u32, id: u32 },
    BindTexture { target: u32, id: u32 },
    BindVertexArray { id: u32 },
    BindFramebuffer { target: u32, id: u32 },
    UseProgram { id: u32 },
    BufferData { target: u32, size: usize, usage: u32 },
    BufferSubData { target: u32, offset: usize, size: usize },
    CopyBufferSubData { read_offset: usize, write_offset: usize, size: usize },
    TexParameter { target: u32, pname: u32, param: u32 },
    TexImage2D {
        target: u32,
        level: i32,
        internal_format: u32,
        width: i32,
        height: i32,
        border: i32,
        format: u32,
        data_type: u32,
        data_len: usize,
    },
    TexSubImage2D {
        target: u32,
        level: i32,
        x_offset: i32,
        y_offset: i32,
        width: i32,
        height: i32,
        format: u32,
        data_type: u32,
        data_len: usize,
    },
    FramebufferTexture2D { target: u32, attachment: u32, tex_target: u32, id: u32, level: i32 },
    ShaderSource { shader: u32, lines: Seq<Seq<char>> },
    CompileShader { id: u32 },
    AttachShader { program: u32, shader: u32 },
    LinkProgram { id: u32 },
    EnableVertexAttribArray { location: u32 },
    VertexAttribPointer {
        location: u32,
        size: u32,
        type_: u32,
        normalized: bool,
        stride: u32,
        offset: u32,
    },
    Uniform1i { location: i32, v: i32 },
    Uniform1ui { location: i32, v: u32 },
    Uniform1f { location: i32, bits: u32 },
    Uniform1d { location: i32, bits: u64 },
    Uniform1iv { location: i32, vals: Seq<i32> },
    Uniform1uiv { location: i32, vals: Seq<u32> },
    Uniform1fv { location: i32, bits: Seq<u32> },
    Uniform1dv { location: i32, bits: Seq<u64> },
    UniformMatrix4fv { location: i32, transpose: bool, bits: Seq<u32> },
}

impl View for DriverCall {
    type V = Call;

    open spec fn view(&self) -> Call {
        match self {
            DriverCall::GenBuffer { id } => Call::GenBuffer { id: *id },
            DriverCall::DeleteBuffer { id } => Call::DeleteBuffer { id: *id },
            DriverCall::GenTexture { id } => Call::GenTexture { id: *id },
            DriverCall::DeleteTexture { id } => Call::DeleteTexture { id: *id },
            DriverCall::GenVertexArray { id } => Call::GenVertexArray { id: *id },
            DriverCall::DeleteVertexArray { id } => Call::DeleteVertexArray { id: *id },
            DriverCall::GenFramebuffer { id } => Call::GenFramebuffer { id: *id },
            DriverCall::DeleteFramebuffer { id } => Call::DeleteFramebuffer { id: *id },
            DriverCall::CreateShader { kind, id } => Call::CreateShader { kind: *kind, id: *id },
            DriverCall::DeleteShader { id } => Call::DeleteShader { id: *id },
            DriverCall::CreateProgram { id } => Call::CreateProgram { id: *id },
            DriverCall::DeleteProgram { id } => Call::DeleteProgram { id: *id },
            DriverCall::BindBuffer { target, id } => Call::BindBuffer {
                target: *target,
                id: *id,
            },
            DriverCall::BindTexture { target, id } => Call::BindTexture {
                target: *target,
                id: *id,
            },
            DriverCall::BindVertexArray { id } => Call::BindVertexArray { id: *id },
            DriverCall::BindFramebuffer { target, id } => Call::BindFramebuffer {
                target: *target,
                id: *id,
            },
            DriverCall::UseProgram { id } => Call::UseProgram { id: *id },
            DriverCall::BufferData { target, size, usage } => Call::BufferData {
                target: *target,
                size: *size,
                usage: *usage,
            },
            DriverCall::BufferSubData { target, offset, size } => Call::BufferSubData {
                target: *target,
                offset: *offset,
                size: *size,
            },
            DriverCall::CopyBufferSubData { read_offset, write_offset, size } => {
                Call::CopyBufferSubData {
                    read_offset: *read_offset,
                    write_offset: *write_offset,
                    size: *size,
                }
            },
            DriverCall::TexParameter { target, pname, param } => Call::TexParameter {
                target: *target,
                pname: *pname,
                param: *param,
            },
            DriverCall::TexImage2D {
                target,
                level,
                internal_format,
                width,
                height,
                border,
                format,
                data_type,
                data_len,
            } => Call::TexImage2D {
                target: *target,
                level: *level,
                internal_format: *internal_format,
                width: *width,
                height: *height,
                border: *border,
                format: *format,
                data_type: *data_type,
                data_len: *data_len,
            },
            DriverCall::TexSubImage2D {
                target,
                level,
                x_offset,
                y_offset,
                width,
                height,
                format,
                data_type,
                data_len,
            } => Call::TexSubImage2D {
                target: *target,
                level: *level,
                x_offset: *x_offset,
                y_offset: *y_offset,
                width: *width,
                height: *height,
                format: *format,
                data_type: *data_type,
                data_len: *data_len,
            },
            DriverCall::FramebufferTexture2D { target, attachment, tex_target, id, level } => {
                Call::FramebufferTexture2D {
                    target: *target,
                    attachment: *attachment,
                    tex_target: *tex_target,
                    id: *id,
                    level: *level,
                }
            },
            DriverCall::ShaderSource { shader, lines } => Call::ShaderSource {
                shader: *shader,
                lines: lines@.map_values(|s: String| s@),
            },
            DriverCall::CompileShader { id } => Call::CompileShader { id: *id },
            DriverCall::AttachShader { program, shader } => Call::AttachShader {
                program: *program,
                shader: *shader,
            },
            DriverCall::LinkProgram { id } => Call::LinkProgram { id: *id },
            DriverCall::EnableVertexAttribArray { location } => Call::EnableVertexAttribArray {
                location: *location,
            },
            DriverCall::VertexAttribPointer { location, size, type_, normalized, stride, offset } => {
                Call::VertexAttribPointer {
                    location: *location,
                    size: *size,
                    type_: *type_,
                    normalized: *normalized,
                    stride: *stride,
                    offset: *offset,
                }
            },
            DriverCall::Uniform1i { location, v } => Call::Uniform1i {
                location: *location,
                v: *v,
            },
            DriverCall::Uniform1ui { location, v } => Call::Uniform1ui {
                location: *location,
                v: *v,
            },
            DriverCall::Uniform1f { location, bits } => Call::Uniform1f {
                location: *location,
                bits: *bits,
            },
            DriverCall::Uniform1d { location, bits } => Call::Uniform1d {
                location: *location,
                bits: *bits,
            },
            DriverCall::Uniform1iv { location, vals } => Call::Uniform1iv {
                location: *location,
                vals: vals@,
            },
            DriverCall::Uniform1uiv { location, vals } => Call::Uniform1uiv {
                location: *location,
                vals: vals@,
            },
            DriverCall::Uniform1fv { location, bits } => Call::Uniform1fv {
                location: *location,
                bits: bits@,
            },
            DriverCall::Uniform1dv { location, bits } => Call::Uniform1dv {
                location: *location,
                bits: bits@,
            },
            DriverCall::UniformMatrix4fv { location, transpose, bits } => Call::UniformMatrix4fv {
                location: *location,
                transpose: *transpose,
                bits: bits@,
            },
        }
    }
}

} // verus!
