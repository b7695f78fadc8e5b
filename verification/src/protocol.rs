//! The wire between the verified surface logic and a real graphics context.
//!
//! The library speaks to the context only through [`Command`] values; the
//! shell that owns the context performs each command and, where the command
//! queries something, hands the answer back as a [`Reply`]. Handles are
//! carried as plain `u32` names: the shell maps them to and from the
//! context's own handle types.

use vstd::prelude::*;

verus! {

/// Which programmable stage a shader object belongs to.
#[derive(Clone, Copy, Debug, PartialEq, Eq)]
pub enum ShaderStage {
    Vertex,
    Fragment,
}

/// How the triangle's vertex positions reach the vertex shader: pulled from
/// an explicit vertex buffer, or synthesized by the shader from the built-in
/// vertex index (no buffer at all).
#[derive(Clone, Copy, Debug, PartialEq, Eq)]
pub enum GeometryMode {
    Buffered,
    Synthesized,
}

/// One call to make against the graphics context.
///
/// Commands that allocate or query something (`CreateProgram`,
/// `CreateShader`, `GetCompileStatus`, `GetShaderLog`, `GetLinkStatus`,
/// `GetProgramLog`, `CreateBuffer`, `CreateVertexArray`) produce a [`Reply`];
/// every other command only has an effect on the context. Fixed payloads
/// live with the shell that performs the command: `ShaderSource` names the
/// stage whose built-in source text to hand over, `UploadTriangleData`
/// stands for uploading the fixed three-vertex position array with a
/// static-usage hint, and `SetClearColor` stands for setting the fixed
/// clear color.
#[derive(Clone, Copy, Debug, PartialEq, Eq)]
pub enum Command {
    CreateProgram,
    CreateShader { stage: ShaderStage },
    ShaderSource { shader: u32, stage: ShaderStage },
    CompileShader { shader: u32 },
    GetCompileStatus { shader: u32 },
    GetShaderLog { shader: u32 },
    AttachShader { program: u32, shader: u32 },
    LinkProgram { program: u32 },
    GetLinkStatus { program: u32 },
    GetProgramLog { program: u32 },
    DetachShader { program: u32, shader: u32 },
    DeleteShader { shader: u32 },
    UseProgram { program: u32 },
    CreateBuffer,
    BindBuffer { buffer: u32 },
    UploadTriangleData,
    CreateVertexArray,
    BindVertexArray { vertex_array: u32 },
    EnableAttribArray { index: u32 },
    SetAttribPointer { index: u32, components: u32, stride: u32, offset: u32 },
    SetClearColor,
    Clear,
    DrawTriangles { first: u32, count: u32 },
    DeleteProgram { program: u32 },
    DeleteVertexArray { vertex_array: u32 },
    DeleteBuffer { buffer: u32 },
}

/// The context's answer to the one querying command at the end of a batch:
/// a fresh handle for a `Create*` command, a success flag for a status
/// query, the diagnostic text for an info-log query.
#[derive(Clone, Debug, PartialEq, Eq)]
pub enum Reply {
    Handle(u32),
    Status(bool),
    Log(String),
}

/// Why constructing a surface was abandoned. Both conditions are fatal:
/// there is no retry and no fallback shader.
#[derive(Clone, Debug, PartialEq, Eq)]
pub enum SurfaceError {
    /// A shader stage failed to compile; carries the compiler's diagnostic.
    ShaderCompile { stage: ShaderStage, diagnostic: String },
    /// The compiled stages failed to link; carries the linker's diagnostic.
    ProgramLink { diagnostic: String },
}

} // verus!
