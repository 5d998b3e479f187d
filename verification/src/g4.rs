//! The graphics layer: vertex layouts, buffers, shaders, pipelines and the
//! render pass.

pub mod buffer;
pub mod pass;
pub mod pipeline;
pub mod shader;
pub mod state;
pub mod vertex;

pub use crate::g4::state::{
    Blending, BlendingFactor, BlendingOperation, ColorAttachment, CompareMode, CullMode,
    IndexBufferFormat, RenderTargetFormat, ShaderType, Stencil, StencilAction, Usage,
};
pub use crate::g4::vertex::{
    VertexData, VertexElement, VertexStructure, VertexStructureBuilder, VertexStructureError,
};
pub use crate::g4::shader::{RenderTarget, Shader, Texture};
pub use crate::g4::pipeline::{
    FixedState, Pipeline, PipelineBuilder, PipelineError, RawPipeline,
};
pub use crate::g4::buffer::{
    BufferError, IndexBuffer, IndexLockResult, LockError, ValidIndexFormat, VertexBuffer,
    VertexBufferDesc, VertexLockResult, WriteError,
};
pub use crate::g4::pass::{
    swap_buffers, ClearMode, Command, Graphics4, RenderPass, SwapBufferError,
};
