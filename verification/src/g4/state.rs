//! Fixed-function state: the closed enumerations that buffers, shaders and
//! pipelines are configured with, and the native constants they stand for.

use vstd::prelude::*;
use crate::sys::{
    KINC_G4_USAGE_STATIC,
    KINC_G4_USAGE_DYNAMIC,
    KINC_G4_USAGE_READABLE,
    KINC_G4_INDEX_BUFFER_FORMAT_16BIT,
    KINC_G4_INDEX_BUFFER_FORMAT_32BIT,
    KINC_G4_SHADER_TYPE_VERTEX,
    KINC_G4_SHADER_TYPE_FRAGMENT,
    KINC_G4_SHADER_TYPE_GEOMETRY,
    KINC_G4_SHADER_TYPE_TESSELLATION_CONTROL,
    KINC_G4_SHADER_TYPE_TESSELLATION_EVALUATION,
    KINC_G4_RENDER_TARGET_FORMAT_32BIT,
    KINC_G4_RENDER_TARGET_FORMAT_64BIT_FLOAT,
    KINC_G4_RENDER_TARGET_FORMAT_32BIT_RED_FLOAT,
    KINC_G4_RENDER_TARGET_FORMAT_128BIT_FLOAT,
    KINC_G4_RENDER_TARGET_FORMAT_16BIT_DEPTH,
    KINC_G4_RENDER_TARGET_FORMAT_8BIT_RED,
    KINC_G4_RENDER_TARGET_FORMAT_16BIT_RED_FLOAT,
    KINC_G4_BLEND_ONE,
    KINC_G4_BLEND_ZERO,
    KINC_G4_BLEND_SOURCE_ALPHA,
    KINC_G4_BLEND_DEST_ALPHA,
    KINC_G4_BLEND_INV_SOURCE_ALPHA,
    KINC_G4_BLEND_INV_DEST_ALPHA,
    KINC_G4_BLEND_SOURCE_COLOR,
    KINC_G4_BLEND_DEST_COLOR,
    KINC_G4_BLEND_INV_SOURCE_COLOR,
    KINC_G4_BLEND_INV_DEST_COLOR,
    KINC_G4_BLENDOP_ADD,
    KINC_G4_BLENDOP_SUBTRACT,
    KINC_G4_BLENDOP_REVERSE_SUBTRACT,
    KINC_G4_BLENDOP_MIN,
    KINC_G4_BLENDOP_MAX,
    KINC_G4_COMPARE_ALWAYS,
    KINC_G4_COMPARE_NEVER,
    KINC_G4_COMPARE_EQUAL,
    KINC_G4_COMPARE_NOT_EQUAL,
    KINC_G4_COMPARE_LESS,
    KINC_G4_COMPARE_LESS_EQUAL,
    KINC_G4_COMPARE_GREATER,
    KINC_G4_COMPARE_GREATER_EQUAL,
    KINC_G4_CULL_CLOCKWISE,
    KINC_G4_CULL_COUNTER_CLOCKWISE,
    KINC_G4_CULL_NOTHING,
    KINC_G4_STENCIL_KEEP,
    KINC_G4_STENCIL_ZERO,
    KINC_G4_STENCIL_REPLACE,
    KINC_G4_STENCIL_INCREMENT,
    KINC_G4_STENCIL_INCREMENT_WRAP,
    KINC_G4_STENCIL_DECREMENT,
    KINC_G4_STENCIL_DECREMENT_WRAP,
    KINC_G4_STENCIL_INVERT,
};

verus! {

/// How the engine should expect a buffer to be used.
#[derive(Copy, Clone, Debug, PartialEq, Eq, Structural)]
pub enum Usage {
    Static,
    Dynamic,
    Readable,
}

impl Usage {
    /// The native constant that stands for this usage hint.
    pub open spec fn code(self) -> u32 {
        match self {
            Usage::Static => KINC_G4_USAGE_STATIC,
            Usage::Dynamic => KINC_G4_USAGE_DYNAMIC,
            Usage::Readable => KINC_G4_USAGE_READABLE,
        }
    }

    /// No two usage hints share a native constant.
    pub proof fn lemma_code_injective(a: Self, b: Self)
        requires
            a.code() == b.code(),
        ensures
            a == b,
    {
    }

    /// Gives the native constant.
    pub fn into(self) -> (raw: u32)
        ensures
            raw == self.code(),
    {
        match self {
            Usage::Static => KINC_G4_USAGE_STATIC,
            Usage::Dynamic => KINC_G4_USAGE_DYNAMIC,
            Usage::Readable => KINC_G4_USAGE_READABLE,
        }
    }
}

/// The width of one index.
#[derive(Copy, Clone, Debug, PartialEq, Eq, Structural)]
pub enum IndexBufferFormat {
    U16,
    U32,
}

impl IndexBufferFormat {
    /// The native constant that stands for this index format.
    pub open spec fn code(self) -> u32 {
        match self {
            IndexBufferFormat::U16 => KINC_G4_INDEX_BUFFER_FORMAT_16BIT,
            IndexBufferFormat::U32 => KINC_G4_INDEX_BUFFER_FORMAT_32BIT,
        }
    }

    /// No two index formats share a native constant.
    pub proof fn lemma_code_injective(a: Self, b: Self)
        requires
            a.code() == b.code(),
        ensures
            a == b,
    {
    }

    /// Gives the native constant.
    pub fn into(self) -> (raw: u32)
        ensures
            raw == self.code(),
    {
        match self {
            IndexBufferFormat::U16 => KINC_G4_INDEX_BUFFER_FORMAT_16BIT,
            IndexBufferFormat::U32 => KINC_G4_INDEX_BUFFER_FORMAT_32BIT,
        }
    }
}

/// The stage a shader runs in.
#[derive(Copy, Clone, Debug, PartialEq, Eq, Structural)]
pub enum ShaderType {
    Vertex,
    Fragment,
    Geometry,
    TessellationControl,
    TessellationEvaluation,
}

impl ShaderType {
    /// The native constant that stands for this stage.
    pub open spec fn code(self) -> u32 {
        match self {
            ShaderType::Vertex => KINC_G4_SHADER_TYPE_VERTEX,
            ShaderType::Fragment => KINC_G4_SHADER_TYPE_FRAGMENT,
            ShaderType::Geometry => KINC_G4_SHADER_TYPE_GEOMETRY,
            ShaderType::TessellationControl => KINC_G4_SHADER_TYPE_TESSELLATION_CONTROL,
            ShaderType::TessellationEvaluation => KINC_G4_SHADER_TYPE_TESSELLATION_EVALUATION,
        }
    }

    /// No two stages share a native constant.
    pub proof fn lemma_code_injective(a: Self, b: Self)
        requires
            a.code() == b.code(),
        ensures
            a == b,
    {
    }

    /// Gives the native constant.
    pub fn into(self) -> (raw: u32)
        ensures
            raw == self.code(),
    {
        match self {
            ShaderType::Vertex => KINC_G4_SHADER_TYPE_VERTEX,
            ShaderType::Fragment => KINC_G4_SHADER_TYPE_FRAGMENT,
            ShaderType::Geometry => KINC_G4_SHADER_TYPE_GEOMETRY,
            ShaderType::TessellationControl => KINC_G4_SHADER_TYPE_TESSELLATION_CONTROL,
            ShaderType::TessellationEvaluation => KINC_G4_SHADER_TYPE_TESSELLATION_EVALUATION,
        }
    }
}

/// The pixel format of a colour attachment.
#[derive(Copy, Clone, Debug, PartialEq, Eq, Structural)]
pub enum RenderTargetFormat {
    I32,
    F64,
    I32Red,
    F128,
    I16Depth,
    I8Red,
    F16Red,
}

impl RenderTargetFormat {
    /// The native constant that stands for this pixel format.
    pub open spec fn code(self) -> u32 {
        match self {
            RenderTargetFormat::I32 => KINC_G4_RENDER_TARGET_FORMAT_32BIT,
            RenderTargetFormat::F64 => KINC_G4_RENDER_TARGET_FORMAT_64BIT_FLOAT,
            RenderTargetFormat::I32Red => KINC_G4_RENDER_TARGET_FORMAT_32BIT_RED_FLOAT,
            RenderTargetFormat::F128 => KINC_G4_RENDER_TARGET_FORMAT_128BIT_FLOAT,
            RenderTargetFormat::I16Depth => KINC_G4_RENDER_TARGET_FORMAT_16BIT_DEPTH,
            RenderTargetFormat::I8Red => KINC_G4_RENDER_TARGET_FORMAT_8BIT_RED,
            RenderTargetFormat::F16Red => KINC_G4_RENDER_TARGET_FORMAT_16BIT_RED_FLOAT,
        }
    }

    /// No two pixel formats share a native constant.
    pub proof fn lemma_code_injective(a: Self, b: Self)
        requires
            a.code() == b.code(),
        ensures
            a == b,
    {
    }

    /// Gives the native constant.
    pub fn into(self) -> (raw: u32)
        ensures
            raw == self.code(),
    {
        match self {
            RenderTargetFormat::I32 => KINC_G4_RENDER_TARGET_FORMAT_32BIT,
            RenderTargetFormat::F64 => KINC_G4_RENDER_TARGET_FORMAT_64BIT_FLOAT,
            RenderTargetFormat::I32Red => KINC_G4_RENDER_TARGET_FORMAT_32BIT_RED_FLOAT,
            RenderTargetFormat::F128 => KINC_G4_RENDER_TARGET_FORMAT_128BIT_FLOAT,
            RenderTargetFormat::I16Depth => KINC_G4_RENDER_TARGET_FORMAT_16BIT_DEPTH,
            RenderTargetFormat::I8Red => KINC_G4_RENDER_TARGET_FORMAT_8BIT_RED,
            RenderTargetFormat::F16Red => KINC_G4_RENDER_TARGET_FORMAT_16BIT_RED_FLOAT,
        }
    }
}

/// The weight of one side of a blend equation.
#[derive(Copy, Clone, Debug, PartialEq, Eq, Structural)]
pub enum BlendingFactor {
    One,
    Zero,
    SourceAlpha,
    DestAlpha,
    InvSourceAlpha,
    InvDestAlpha,
    SourceColor,
    DestColor,
    InvSourceColor,
    InvDestColor,
}

impl BlendingFactor {
    /// The native constant that stands for this blend factor.
    pub open spec fn code(self) -> u32 {
        match self {
            BlendingFactor::One => KINC_G4_BLEND_ONE,
            BlendingFactor::Zero => KINC_G4_BLEND_ZERO,
            BlendingFactor::SourceAlpha => KINC_G4_BLEND_SOURCE_ALPHA,
            BlendingFactor::DestAlpha => KINC_G4_BLEND_DEST_ALPHA,
            BlendingFactor::InvSourceAlpha => KINC_G4_BLEND_INV_SOURCE_ALPHA,
            BlendingFactor::InvDestAlpha => KINC_G4_BLEND_INV_DEST_ALPHA,
            BlendingFactor::SourceColor => KINC_G4_BLEND_SOURCE_COLOR,
            BlendingFactor::DestColor => KINC_G4_BLEND_DEST_COLOR,
            BlendingFactor::InvSourceColor => KINC_G4_BLEND_INV_SOURCE_COLOR,
            BlendingFactor::InvDestColor => KINC_G4_BLEND_INV_DEST_COLOR,
        }
    }

    /// No two blend factors share a native constant.
    pub proof fn lemma_code_injective(a: Self, b: Self)
        requires
            a.code() == b.code(),
        ensures
            a == b,
    {
    }

    /// Gives the native constant.
    pub fn into(self) -> (raw: u32)
        ensures
            raw == self.code(),
    {
        match self {
            BlendingFactor::One => KINC_G4_BLEND_ONE,
            BlendingFactor::Zero => KINC_G4_BLEND_ZERO,
            BlendingFactor::SourceAlpha => KINC_G4_BLEND_SOURCE_ALPHA,
            BlendingFactor::DestAlpha => KINC_G4_BLEND_DEST_ALPHA,
            BlendingFactor::InvSourceAlpha => KINC_G4_BLEND_INV_SOURCE_ALPHA,
            BlendingFactor::InvDestAlpha => KINC_G4_BLEND_INV_DEST_ALPHA,
            BlendingFactor::SourceColor => KINC_G4_BLEND_SOURCE_COLOR,
            BlendingFactor::DestColor => KINC_G4_BLEND_DEST_COLOR,
            BlendingFactor::InvSourceColor => KINC_G4_BLEND_INV_SOURCE_COLOR,
            BlendingFactor::InvDestColor => KINC_G4_BLEND_INV_DEST_COLOR,
        }
    }
}

/// How the two weighted sides of a blend equation are combined.
#[derive(Copy, Clone, Debug, PartialEq, Eq, Structural)]
pub enum BlendingOperation {
    Add,
    Subtract,
    ReverseSubtract,
    Min,
    Max,
}

impl BlendingOperation {
    /// The native constant that stands for this blend operation.
    pub open spec fn code(self) -> u32 {
        match self {
            BlendingOperation::Add => KINC_G4_BLENDOP_ADD,
            BlendingOperation::Subtract => KINC_G4_BLENDOP_SUBTRACT,
            BlendingOperation::ReverseSubtract => KINC_G4_BLENDOP_REVERSE_SUBTRACT,
            BlendingOperation::Min => KINC_G4_BLENDOP_MIN,
            BlendingOperation::Max => KINC_G4_BLENDOP_MAX,
        }
    }

    /// No two blend operations share a native constant.
    pub proof fn lemma_code_injective(a: Self, b: Self)
        requires
            a.code() == b.code(),
        ensures
            a == b,
    {
    }

    /// Gives the native constant.
    pub fn into(self) -> (raw: u32)
        ensures
            raw == self.code(),
    {
        match self {
            BlendingOperation::Add => KINC_G4_BLENDOP_ADD,
            BlendingOperation::Subtract => KINC_G4_BLENDOP_SUBTRACT,
            BlendingOperation::ReverseSubtract => KINC_G4_BLENDOP_REVERSE_SUBTRACT,
            BlendingOperation::Min => KINC_G4_BLENDOP_MIN,
            BlendingOperation::Max => KINC_G4_BLENDOP_MAX,
        }
    }
}

/// The comparison of a depth or stencil test.
#[derive(Copy, Clone, Debug, PartialEq, Eq, Structural)]
pub enum CompareMode {
    Always,
    Never,
    Equal,
    NotEqual,
    Less,
    LessEqual,
    Greater,
    GreaterEqual,
}

impl CompareMode {
    /// The native constant that stands for this comparison.
    pub open spec fn code(self) -> u32 {
        match self {
            CompareMode::Always => KINC_G4_COMPARE_ALWAYS,
            CompareMode::Never => KINC_G4_COMPARE_NEVER,
            CompareMode::Equal => KINC_G4_COMPARE_EQUAL,
            CompareMode::NotEqual => KINC_G4_COMPARE_NOT_EQUAL,
            CompareMode::Less => KINC_G4_COMPARE_LESS,
            CompareMode::LessEqual => KINC_G4_COMPARE_LESS_EQUAL,
            CompareMode::Greater => KINC_G4_COMPARE_GREATER,
            CompareMode::GreaterEqual => KINC_G4_COMPARE_GREATER_EQUAL,
        }
    }

    /// No two comparisons share a native constant.
    pub proof fn lemma_code_injective(a: Self, b: Self)
        requires
            a.code() == b.code(),
        ensures
            a == b,
    {
    }

    /// Gives the native constant.
    pub fn into(self) -> (raw: u32)
        ensures
            raw == self.code(),
    {
        match self {
            CompareMode::Always => KINC_G4_COMPARE_ALWAYS,
            CompareMode::Never => KINC_G4_COMPARE_NEVER,
            CompareMode::Equal => KINC_G4_COMPARE_EQUAL,
            CompareMode::NotEqual => KINC_G4_COMPARE_NOT_EQUAL,
            CompareMode::Less => KINC_G4_COMPARE_LESS,
            CompareMode::LessEqual => KINC_G4_COMPARE_LESS_EQUAL,
            CompareMode::Greater => KINC_G4_COMPARE_GREATER,
            CompareMode::GreaterEqual => KINC_G4_COMPARE_GREATER_EQUAL,
        }
    }
}

/// Which winding of a triangle is discarded.
#[derive(Copy, Clone, Debug, PartialEq, Eq, Structural)]
pub enum CullMode {
    Clockwise,
    CounterClockwise,
    Nothing,
}

impl CullMode {
    /// The native constant that stands for this cull mode.
    pub open spec fn code(self) -> u32 {
        match self {
            CullMode::Clockwise => KINC_G4_CULL_CLOCKWISE,
            CullMode::CounterClockwise => KINC_G4_CULL_COUNTER_CLOCKWISE,
            CullMode::Nothing => KINC_G4_CULL_NOTHING,
        }
    }

    /// No two cull modes share a native constant.
    pub proof fn lemma_code_injective(a: Self, b: Self)
        requires
            a.code() == b.code(),
        ensures
            a == b,
    {
    }

    /// Gives the native constant.
    pub fn into(self) -> (raw: u32)
        ensures
            raw == self.code(),
    {
        match self {
            CullMode::Clockwise => KINC_G4_CULL_CLOCKWISE,
            CullMode::CounterClockwise => KINC_G4_CULL_COUNTER_CLOCKWISE,
            CullMode::Nothing => KINC_G4_CULL_NOTHING,
        }
    }
}

/// What happens to a stencil value after a test.
#[derive(Copy, Clone, Debug, PartialEq, Eq, Structural)]
pub enum StencilAction {
    Keep,
    Zero,
    Replace,
    Increment,
    IncrementWrap,
    Decrement,
    DecrementWrap,
    Invert,
}

impl StencilAction {
    /// The native constant that stands for this stencil action.
    pub open spec fn code(self) -> u32 {
        match self {
            StencilAction::Keep => KINC_G4_STENCIL_KEEP,
            StencilAction::Zero => KINC_G4_STENCIL_ZERO,
            StencilAction::Replace => KINC_G4_STENCIL_REPLACE,
            StencilAction::Increment => KINC_G4_STENCIL_INCREMENT,
            StencilAction::IncrementWrap => KINC_G4_STENCIL_INCREMENT_WRAP,
            StencilAction::Decrement => KINC_G4_STENCIL_DECREMENT,
            StencilAction::DecrementWrap => KINC_G4_STENCIL_DECREMENT_WRAP,
            StencilAction::Invert => KINC_G4_STENCIL_INVERT,
        }
    }

    /// No two stencil actions share a native constant.
    pub proof fn lemma_code_injective(a: Self, b: Self)
        requires
            a.code() == b.code(),
        ensures
            a == b,
    {
    }

    /// Gives the native constant.
    pub fn into(self) -> (raw: u32)
        ensures
            raw == self.code(),
    {
        match self {
            StencilAction::Keep => KINC_G4_STENCIL_KEEP,
            StencilAction::Zero => KINC_G4_STENCIL_ZERO,
            StencilAction::Replace => KINC_G4_STENCIL_REPLACE,
            StencilAction::Increment => KINC_G4_STENCIL_INCREMENT,
            StencilAction::IncrementWrap => KINC_G4_STENCIL_INCREMENT_WRAP,
            StencilAction::Decrement => KINC_G4_STENCIL_DECREMENT,
            StencilAction::DecrementWrap => KINC_G4_STENCIL_DECREMENT_WRAP,
            StencilAction::Invert => KINC_G4_STENCIL_INVERT,
        }
    }
}

/// A stencil test: the comparison and what follows each of its outcomes.
#[derive(Debug, Copy, Clone, PartialEq, Eq, Structural)]
pub struct Stencil {
    pub mode: CompareMode,
    pub both_pass: StencilAction,
    pub depth_fail: StencilAction,
    pub fail: StencilAction,
}

impl Stencil {
    /// The test that always passes and changes nothing.
    pub open spec fn disabled() -> Stencil {
        Stencil {
            mode: CompareMode::Always,
            both_pass: StencilAction::Keep,
            depth_fail: StencilAction::Keep,
            fail: StencilAction::Keep,
        }
    }
}

/// One blend equation.
#[derive(Debug, Copy, Clone, PartialEq, Eq, Structural)]
pub struct Blending {
    pub source: BlendingFactor,
    pub destination: BlendingFactor,
    pub operation: BlendingOperation,
}

impl Blending {
    /// The equation that writes the source unchanged.
    pub open spec fn disabled() -> Blending {
        Blending {
            source: BlendingFactor::One,
            destination: BlendingFactor::Zero,
            operation: BlendingOperation::Add,
        }
    }
}

/// One colour attachment: which channels are written, and in which format.
#[derive(Debug, Copy, Clone, PartialEq, Eq, Structural)]
pub struct ColorAttachment {
    pub write_red: bool,
    pub write_green: bool,
    pub write_blue: bool,
    pub write_alpha: bool,
    pub format: RenderTargetFormat,
}

impl ColorAttachment {
    /// All four channels written, 32-bit format.
    pub open spec fn standard() -> ColorAttachment {
        ColorAttachment {
            write_red: true,
            write_green: true,
            write_blue: true,
            write_alpha: true,
            format: RenderTargetFormat::I32,
        }
    }

    /// All four channels written, 32-bit format.
    pub fn default() -> (attachment: Self)
        ensures
            attachment == Self::standard(),
    {
        ColorAttachment {
            write_red: true,
            write_green: true,
            write_blue: true,
            write_alpha: true,
            format: RenderTargetFormat::I32,
        }
    }
}

impl Default for ColorAttachment {
    fn default() -> (attachment: Self)
        ensures
            attachment == ColorAttachment::standard(),
    {
        ColorAttachment::default()
    }
}

} // verus!
