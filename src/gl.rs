//! The OpenGL calls the triangle needs, as plain values, and what the driver
//! answers to them.
//!
//! `P`, `S` and `V` are the host's handle types for a program, a shader object
//! and a vertex array object; `A` is the type of the scalar uniform value.
use vstd::prelude::*;
use crate::shader::{ShaderStage, Target};

verus! {

/// How the vertices of a draw call are assembled.
#[derive(Clone, Copy, Debug, PartialEq, Eq, Structural)]
pub enum DrawMode {
    /// Every three vertices form one triangle.
    Triangles,
}

/// Names the source text of one shader: the text itself is
/// `shader::shader_source(target, stage)`.
#[derive(Clone, Copy, Debug, PartialEq, Eq, Structural)]
pub struct ShaderText {
    pub target: Target,
    pub stage: ShaderStage,
}

/// One call into the GL context.
#[derive(Clone, Copy, Debug, PartialEq, Eq)]
pub enum GlCall<P, S, V, A> {
    /// Answered by `GlReply::Program`.
    CreateProgram,
    /// Answered by `GlReply::Shader`.
    CreateShader(ShaderStage),
    ShaderSource(S, ShaderText),
    CompileShader(S),
    /// Answered by `GlReply::Status`.
    GetShaderCompileStatus(S),
    /// Answered by `GlReply::InfoLog`.
    GetShaderInfoLog(S),
    AttachShader(P, S),
    LinkProgram(P),
    /// Answered by `GlReply::Status`.
    GetProgramLinkStatus(P),
    /// Answered by `GlReply::InfoLog`.
    GetProgramInfoLog(P),
    DetachShader(P, S),
    DeleteShader(S),
    /// Answered by `GlReply::VertexArray`.
    CreateVertexArray,
    UseProgram(P),
    /// Looks up the uniform called `name` in `program` and sets it to `value`.
    SetUniform1 { program: P, name: &'static str, value: A },
    BindVertexArray(V),
    DrawArrays { mode: DrawMode, first: i32, count: i32 },
    DeleteProgram(P),
    DeleteVertexArray(V),
}

/// What the context answered to the last call.
#[derive(Debug, PartialEq, Eq)]
pub enum GlReply<P, S, V> {
    /// The call returns nothing.
    Done,
    Program(Result<P, String>),
    Shader(Result<S, String>),
    VertexArray(Result<V, String>),
    /// A compile or link status.
    Status(bool),
    /// A shader or program info log.
    InfoLog(String),
}

} // verus!
