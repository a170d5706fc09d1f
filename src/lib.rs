//! Lifecycle of GPU shader programs and vertex data, written as verified
//! decisions over an explicit graphics context.
//!
//! The library never touches the graphics API itself. Each operation is a
//! step from a state and the context's last reply to the next command for
//! the context, so the host performs the calls and feeds their results back.

mod command;
mod program;
mod scene;
mod shader;

pub use command::{BuildError, GlCommand, Reply, SourceFault, Step};
pub use program::{Phase, Program, ProgramBuilder};
pub use scene::{Scene, VertexAttribute, FLOATS_PER_VERTEX, FLOAT_BYTES, STRIDE_BYTES, VERTEX_COUNT};
pub use shader::{compile_report, contains_nul, decode_log, link_report, Shader, ShaderType, LOG_CAPACITY};
