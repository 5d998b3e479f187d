use kinc::g4::{
    Blending, BlendingFactor, BlendingOperation, ColorAttachment, CompareMode, CullMode,
    IndexBufferFormat, RenderTargetFormat, ShaderType, Stencil, StencilAction, Usage,
};
use kinc::sys;

#[test]
fn usage_codes() {
    assert_eq!(Usage::Static.into(), 0);
    assert_eq!(Usage::Dynamic.into(), 1);
    assert_eq!(Usage::Readable.into(), 2);
    assert_eq!(Usage::Static.into(), sys::KINC_G4_USAGE_STATIC);
    assert_eq!(Usage::Dynamic.into(), sys::KINC_G4_USAGE_DYNAMIC);
    assert_eq!(Usage::Readable.into(), sys::KINC_G4_USAGE_READABLE);
}

#[test]
fn index_buffer_format_codes() {
    assert_eq!(IndexBufferFormat::U32.into(), 0);
    assert_eq!(IndexBufferFormat::U16.into(), 1);
    assert_eq!(IndexBufferFormat::U32.into(), sys::KINC_G4_INDEX_BUFFER_FORMAT_32BIT);
    assert_eq!(IndexBufferFormat::U16.into(), sys::KINC_G4_INDEX_BUFFER_FORMAT_16BIT);
}

#[test]
fn shader_type_codes() {
    assert_eq!(ShaderType::Fragment.into(), 0);
    assert_eq!(ShaderType::Vertex.into(), 1);
    assert_eq!(ShaderType::Geometry.into(), 2);
    assert_eq!(ShaderType::TessellationControl.into(), 3);
    assert_eq!(ShaderType::TessellationEvaluation.into(), 4);
    assert_eq!(ShaderType::Vertex.into(), sys::KINC_G4_SHADER_TYPE_VERTEX);
    assert_eq!(ShaderType::Fragment.into(), sys::KINC_G4_SHADER_TYPE_FRAGMENT);
}

#[test]
fn render_target_format_codes() {
    assert_eq!(RenderTargetFormat::I32.into(), 0);
    assert_eq!(RenderTargetFormat::F64.into(), 1);
    assert_eq!(RenderTargetFormat::I32Red.into(), 2);
    assert_eq!(RenderTargetFormat::F128.into(), 3);
    assert_eq!(RenderTargetFormat::I16Depth.into(), 4);
    assert_eq!(RenderTargetFormat::I8Red.into(), 5);
    assert_eq!(RenderTargetFormat::F16Red.into(), 6);
}

#[test]
fn blending_factor_codes() {
    assert_eq!(BlendingFactor::One.into(), 0);
    assert_eq!(BlendingFactor::Zero.into(), 1);
    assert_eq!(BlendingFactor::SourceAlpha.into(), 2);
    assert_eq!(BlendingFactor::DestAlpha.into(), 3);
    assert_eq!(BlendingFactor::InvSourceAlpha.into(), 4);
    assert_eq!(BlendingFactor::InvDestAlpha.into(), 5);
    assert_eq!(BlendingFactor::SourceColor.into(), 6);
    assert_eq!(BlendingFactor::DestColor.into(), 7);
    assert_eq!(BlendingFactor::InvSourceColor.into(), 8);
    assert_eq!(BlendingFactor::InvDestColor.into(), 9);
}

#[test]
fn blending_operation_codes() {
    assert_eq!(BlendingOperation::Add.into(), 0);
    assert_eq!(BlendingOperation::Subtract.into(), 1);
    assert_eq!(BlendingOperation::ReverseSubtract.into(), 2);
    assert_eq!(BlendingOperation::Min.into(), 3);
    assert_eq!(BlendingOperation::Max.into(), 4);
}

#[test]
fn compare_mode_codes() {
    assert_eq!(CompareMode::Always.into(), 0);
    assert_eq!(CompareMode::Never.into(), 1);
    assert_eq!(CompareMode::Equal.into(), 2);
    assert_eq!(CompareMode::NotEqual.into(), 3);
    assert_eq!(CompareMode::Less.into(), 4);
    assert_eq!(CompareMode::LessEqual.into(), 5);
    assert_eq!(CompareMode::Greater.into(), 6);
    assert_eq!(CompareMode::GreaterEqual.into(), 7);
}

#[test]
fn cull_mode_codes() {
    assert_eq!(CullMode::Clockwise.into(), 0);
    assert_eq!(CullMode::CounterClockwise.into(), 1);
    assert_eq!(CullMode::Nothing.into(), 2);
}

#[test]
fn stencil_action_codes() {
    assert_eq!(StencilAction::Keep.into(), 0);
    assert_eq!(StencilAction::Zero.into(), 1);
    assert_eq!(StencilAction::Replace.into(), 2);
    assert_eq!(StencilAction::Increment.into(), 3);
    assert_eq!(StencilAction::IncrementWrap.into(), 4);
    assert_eq!(StencilAction::Decrement.into(), 5);
    assert_eq!(StencilAction::DecrementWrap.into(), 6);
    assert_eq!(StencilAction::Invert.into(), 7);
}

#[test]
fn default_color_attachment_writes_every_channel_in_32_bit() {
    let expected = ColorAttachment {
        write_red: true,
        write_green: true,
        write_blue: true,
        write_alpha: true,
        format: RenderTargetFormat::I32,
    };
    assert_eq!(ColorAttachment::default(), expected);
    let through_trait: ColorAttachment = Default::default();
    assert_eq!(through_trait, expected);
}

#[test]
fn stencil_and_blending_are_plain_values() {
    let stencil = Stencil {
        mode: CompareMode::Less,
        both_pass: StencilAction::Replace,
        depth_fail: StencilAction::Keep,
        fail: StencilAction::Invert,
    };
    let copy = stencil;
    assert_eq!(copy, stencil);
    let blending = Blending {
        source: BlendingFactor::SourceAlpha,
        destination: BlendingFactor::InvSourceAlpha,
        operation: BlendingOperation::Add,
    };
    let copy = blending;
    assert_eq!(copy, blending);
}
