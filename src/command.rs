use vstd::prelude::*;

use crate::program::Program;
use crate::shader::ShaderType;

verus! {

/// One request to the graphics context. The comment on each variant names
/// the reply the context gives once it has carried the request out.
#[derive(Clone, Debug, PartialEq, Eq)]
pub enum GlCommand {
    /// Create an empty shader object of the given stage constant. Reply: `Handle`.
    CreateShader { kind: ShaderType, stage: u32 },
    /// Read the whole file at `path` as text. Reply: `Source` or `SourceFailed`.
    ReadSource { path: String },
    /// Hand `source` to `shader`, compile it and query its compile status. Reply: `Status`.
    CompileShader { shader: u32, source: Vec<u8> },
    /// Fetch at most `capacity` bytes of the shader's diagnostic log. Reply: `Log`.
    FetchShaderLog { shader: u32, capacity: usize },
    /// Write one message to the diagnostic stream. Reply: `Done`.
    Report { message: String },
    /// Create an empty program object. Reply: `Handle`.
    CreateProgram,
    /// Attach a shader object to a program object. Reply: `Done`.
    AttachShader { program: u32, shader: u32 },
    /// Link the program and query its link status. Reply: `Status`.
    LinkProgram { program: u32 },
    /// Fetch at most `capacity` bytes of the program's diagnostic log. Reply: `Log`.
    FetchProgramLog { program: u32, capacity: usize },
    /// Release a shader object. Reply: `Done`.
    DeleteShader { shader: u32 },
    /// Release a program object. Reply: `Done`.
    DeleteProgram { program: u32 },
    /// Make the program current. Reply: `Done`.
    UseProgram { program: u32 },
    /// Bind a vertex-array object. Reply: `Done`.
    BindVertexArray { vao: u32 },
    /// Bind a buffer object as the vertex buffer. Reply: `Done`.
    BindArrayBuffer { buffer: u32 },
    /// Upload the vertex data, `floats` values in all, with static-draw usage. Reply: `Done`.
    UploadVertices { floats: usize },
    /// Declare a float attribute of the bound vertex array. Reply: `Done`.
    VertexAttribute { location: u32, components: u32, stride: u32, offset: u32 },
    /// Enable an attribute location. Reply: `Done`.
    EnableAttribute { location: u32 },
    /// Draw a triangle list of `count` vertices from index `first`. Reply: `Done`.
    DrawTriangles { first: u32, count: u32 },
}

/// Why a source file could not be had.
#[derive(Clone, Copy, Debug, PartialEq, Eq)]
pub enum SourceFault {
    NotFound,
    Unreadable,
}

/// What the graphics context (or the file system) answered to a command.
#[derive(Clone, Debug, PartialEq, Eq)]
pub enum Reply {
    /// The object created; zero when creation failed.
    Handle(u32),
    /// The full contents of a source file.
    Source(Vec<u8>),
    /// The source file could not be opened or read.
    SourceFailed(SourceFault),
    /// A compile or link status.
    Status(bool),
    /// A diagnostic log buffer, NUL padding included.
    Log(Vec<u8>),
    /// The command was carried out.
    Done,
}

/// A construction that cannot go on.
#[derive(Clone, Debug, PartialEq, Eq)]
pub enum BuildError {
    SourceNotFound { path: String },
    SourceUnreadable { path: String },
    EmbeddedNul { path: String },
    /// The context handed back the null object for a creation request.
    CreationFailed,
    /// A reply that does not answer the outstanding command.
    UnexpectedReply,
}

/// What a program construction asks for next.
#[derive(Clone, Debug, PartialEq, Eq)]
pub enum Step {
    Run(GlCommand),
    Built(Program),
    Abort(BuildError),
}

} // verus!
