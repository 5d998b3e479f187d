//! Pipelines: shaders, vertex layouts and fixed-function state, checked
//! together once and frozen.

use vstd::prelude::*;
use vstd::slice::slice_to_vec;
use crate::g4::shader::Shader;
use crate::g4::state::{
    Blending, BlendingFactor, BlendingOperation, ColorAttachment, CompareMode, CullMode,
    RenderTargetFormat, ShaderType, Stencil, StencilAction,
};
use crate::g4::vertex::{VertexLayout, VertexStructure};
use crate::sys::{KINC_G4_MAX_COLOR_ATTACHMENTS, KINC_G4_MAX_INPUT_LAYOUTS};

verus! {

/// Why a pipeline could not be built.
#[derive(Debug, Copy, Clone, PartialEq, Eq, Structural)]
pub enum PipelineError {
    /// The shader given for stage `expected` was made for stage `found`.
    ShaderStage { expected: ShaderType, found: ShaderType },
    /// More colour attachments than a pipeline has room for.
    TooManyColorAttachments,
}

/// The fixed-function state of a pipeline with every option resolved: what
/// was left out stands here as the setting that switches the feature off.
#[derive(Debug, Copy, Clone, PartialEq, Eq, Structural)]
pub struct FixedState {
    pub geometry_shader: bool,
    pub tessellation_control_shader: bool,
    pub tessellation_evaluation_shader: bool,
    pub cull_mode: CullMode,
    pub depth_write: bool,
    pub depth_mode: CompareMode,
    pub front_stencil: Stencil,
    pub back_stencil: Stencil,
    pub stencil_reference_value: i32,
    pub stencil_read_mask: i32,
    pub stencil_write_mask: i32,
    pub blending: Blending,
    pub alpha_blending: Blending,
    pub depth_attachment_bits: i32,
    pub stencil_attachment_bits: i32,
    pub conservative_rasterization: bool,
}

/// A pipeline, as contracts see it.
pub struct PipelineView {
    pub input_layout: Seq<VertexLayout>,
    pub color_attachments: Seq<ColorAttachment>,
    pub fixed: FixedState,
}

/// The layouts of `layouts`, as contracts see them.
pub open spec fn layouts_of(layouts: Seq<VertexStructure>) -> Seq<VertexLayout> {
    Seq::new(layouts.len(), |i: int| layouts[i]@)
}

/// Collects what a pipeline is made of. Only the two required shaders, the
/// layouts and the attachments have to be given; every other option starts
/// out switched off.
pub struct PipelineBuilder<'a> {
    pub vertex_shader: &'a Shader,
    pub fragment_shader: &'a Shader,
    pub geometry_shader: Option<&'a Shader>,
    pub tessellation_control_shader: Option<&'a Shader>,
    pub tessellation_evaluation_shader: Option<&'a Shader>,
    pub input_layout: &'a [VertexStructure],
    pub cull_mode: CullMode,
    pub depth_mode: Option<CompareMode>,
    pub front_stencil: Option<Stencil>,
    pub back_stencil: Option<Stencil>,
    pub stencil_reference_value: i32,
    pub stencil_read_mask: i32,
    pub stencil_write_mask: i32,
    pub blending: Option<Blending>,
    pub alpha_blending: Option<Blending>,
    pub color_attachments: &'a [ColorAttachment],
    pub depth_attachment_bits: i32,
    pub stencil_attachment_bits: i32,
    pub conservative_rasterization: bool,
}

/// The error a shader in the slot of stage `expected` gives, if any.
pub open spec fn stage_error(expected: ShaderType, found: ShaderType) -> Option<PipelineError> {
    if found == expected {
        None
    } else {
        Some(PipelineError::ShaderStage { expected, found })
    }
}

/// The error an optional shader in the slot of stage `expected` gives, if any.
pub open spec fn optional_stage_error(expected: ShaderType, shader: Option<&Shader>) -> Option<
    PipelineError,
> {
    match shader {
        Some(s) => stage_error(expected, s@.stage),
        None => None,
    }
}

impl<'a> PipelineBuilder<'a> {
    /// The first thing wrong with what was collected: a shader in the slot of
    /// another stage, taken in the order vertex, fragment, geometry,
    /// tessellation control, tessellation evaluation; then too many colour
    /// attachments.
    pub open spec fn error(&self) -> Option<PipelineError> {
        if stage_error(ShaderType::Vertex, self.vertex_shader@.stage) is Some {
            stage_error(ShaderType::Vertex, self.vertex_shader@.stage)
        } else if stage_error(ShaderType::Fragment, self.fragment_shader@.stage) is Some {
            stage_error(ShaderType::Fragment, self.fragment_shader@.stage)
        } else if optional_stage_error(ShaderType::Geometry, self.geometry_shader) is Some {
            optional_stage_error(ShaderType::Geometry, self.geometry_shader)
        } else if optional_stage_error(
            ShaderType::TessellationControl,
            self.tessellation_control_shader,
        ) is Some {
            optional_stage_error(ShaderType::TessellationControl, self.tessellation_control_shader)
        } else if optional_stage_error(
            ShaderType::TessellationEvaluation,
            self.tessellation_evaluation_shader,
        ) is Some {
            optional_stage_error(
                ShaderType::TessellationEvaluation,
                self.tessellation_evaluation_shader,
            )
        } else if self.color_attachments@.len() > KINC_G4_MAX_COLOR_ATTACHMENTS {
            Some(PipelineError::TooManyColorAttachments)
        } else {
            None
        }
    }

    /// The fixed-function state with every option resolved.
    pub open spec fn fixed(&self) -> FixedState {
        FixedState {
            geometry_shader: self.geometry_shader is Some,
            tessellation_control_shader: self.tessellation_control_shader is Some,
            tessellation_evaluation_shader: self.tessellation_evaluation_shader is Some,
            cull_mode: self.cull_mode,
            depth_write: self.depth_mode is Some,
            depth_mode: match self.depth_mode {
                Some(mode) => mode,
                None => CompareMode::Always,
            },
            front_stencil: match self.front_stencil {
                Some(stencil) => stencil,
                None => Stencil::disabled(),
            },
            back_stencil: match self.back_stencil {
                Some(stencil) => stencil,
                None => Stencil::disabled(),
            },
            stencil_reference_value: self.stencil_reference_value,
            stencil_read_mask: self.stencil_read_mask,
            stencil_write_mask: self.stencil_write_mask,
            blending: match self.blending {
                Some(blending) => blending,
                None => Blending::disabled(),
            },
            alpha_blending: match self.alpha_blending {
                Some(blending) => blending,
                None => Blending::disabled(),
            },
            depth_attachment_bits: self.depth_attachment_bits,
            stencil_attachment_bits: self.stencil_attachment_bits,
            conservative_rasterization: self.conservative_rasterization,
        }
    }

    /// The layouts that find room in a pipeline: the first sixteen.
    pub open spec fn kept_layouts(&self) -> Seq<VertexLayout> {
        if self.input_layout@.len() <= KINC_G4_MAX_INPUT_LAYOUTS {
            layouts_of(self.input_layout@)
        } else {
            layouts_of(self.input_layout@.subrange(0, KINC_G4_MAX_INPUT_LAYOUTS as int))
        }
    }

    /// What `build` freezes, where it succeeds.
    pub open spec fn compiled(&self) -> PipelineView {
        PipelineView {
            input_layout: self.kept_layouts(),
            color_attachments: self.color_attachments@,
            fixed: self.fixed(),
        }
    }

    /// A builder with the two shaders every pipeline needs, the vertex
    /// layouts of its input slots and its colour attachments; everything else
    /// is switched off.
    pub fn new(
        vertex_shader: &'a Shader,
        fragment_shader: &'a Shader,
        input_layout: &'a [VertexStructure],
        color_attachments: &'a [ColorAttachment],
    ) -> (builder: Self)
        ensures
            builder == (PipelineBuilder {
                vertex_shader,
                fragment_shader,
                geometry_shader: None,
                tessellation_control_shader: None,
                tessellation_evaluation_shader: None,
                input_layout,
                cull_mode: CullMode::Nothing,
                depth_mode: None,
                front_stencil: None,
                back_stencil: None,
                stencil_reference_value: 0,
                stencil_read_mask: 0,
                stencil_write_mask: 0,
                blending: None,
                alpha_blending: None,
                color_attachments,
                depth_attachment_bits: 0,
                stencil_attachment_bits: 0,
                conservative_rasterization: false,
            }),
    {
        PipelineBuilder {
            vertex_shader,
            fragment_shader,
            geometry_shader: None,
            tessellation_control_shader: None,
            tessellation_evaluation_shader: None,
            input_layout,
            cull_mode: CullMode::Nothing,
            depth_mode: None,
            front_stencil: None,
            back_stencil: None,
            stencil_reference_value: 0,
            stencil_read_mask: 0,
            stencil_write_mask: 0,
            blending: None,
            alpha_blending: None,
            color_attachments,
            depth_attachment_bits: 0,
            stencil_attachment_bits: 0,
            conservative_rasterization: false,
        }
    }

    /// Gives the pipeline a geometry stage.
    pub fn geometry_shader(self, geometry_shader: &'a Shader) -> (builder: Self)
        ensures
            builder == (PipelineBuilder { geometry_shader: Some(geometry_shader), ..self }),
    {
        let mut builder = self;
        builder.geometry_shader = Some(geometry_shader);
        builder
    }

    /// Gives the pipeline a tessellation control stage.
    pub fn tessellation_control_shader(self, tessellation_control_shader: &'a Shader) -> (builder: Self)
        ensures
            builder == (PipelineBuilder { tessellation_control_shader: Some(tessellation_control_shader), ..self }),
    {
        let mut builder = self;
        builder.tessellation_control_shader = Some(tessellation_control_shader);
        builder
    }

    /// Gives the pipeline a tessellation evaluation stage.
    pub fn tessellation_evaluation_shader(self, tessellation_evaluation_shader: &'a Shader) -> (builder: Self)
        ensures
            builder == (PipelineBuilder { tessellation_evaluation_shader: Some(tessellation_evaluation_shader), ..self }),
    {
        let mut builder = self;
        builder.tessellation_evaluation_shader = Some(tessellation_evaluation_shader);
        builder
    }

    /// Sets which winding is discarded.
    pub fn cull_mode(self, cull_mode: CullMode) -> (builder: Self)
        ensures
            builder == (PipelineBuilder { cull_mode, ..self }),
    {
        let mut builder = self;
        builder.cull_mode = cull_mode;
        builder
    }

    /// Sets the depth test; `None` switches it off, and depth writes with it.
    pub fn depth_mode(self, depth_mode: Option<CompareMode>) -> (builder: Self)
        ensures
            builder == (PipelineBuilder { depth_mode, ..self }),
    {
        let mut builder = self;
        builder.depth_mode = depth_mode;
        builder
    }

    /// Sets the stencil test of front faces; `None` switches it off.
    pub fn front_stencil(self, front_stencil: Option<Stencil>) -> (builder: Self)
        ensures
            builder == (PipelineBuilder { front_stencil, ..self }),
    {
        let mut builder = self;
        builder.front_stencil = front_stencil;
        builder
    }

    /// Sets the stencil test of back faces; `None` switches it off.
    pub fn back_stencil(self, back_stencil: Option<Stencil>) -> (builder: Self)
        ensures
            builder == (PipelineBuilder { back_stencil, ..self }),
    {
        let mut builder = self;
        builder.back_stencil = back_stencil;
        builder
    }

    /// Sets the value stencil tests compare against.
    pub fn stencil_reference_value(self, stencil_reference_value: i32) -> (builder: Self)
        ensures
            builder == (PipelineBuilder { stencil_reference_value, ..self }),
    {
        let mut builder = self;
        builder.stencil_reference_value = stencil_reference_value;
        builder
    }

    /// Sets the bits a stencil test reads.
    pub fn stencil_read_mask(self, stencil_read_mask: i32) -> (builder: Self)
        ensures
            builder == (PipelineBuilder { stencil_read_mask, ..self }),
    {
        let mut builder = self;
        builder.stencil_read_mask = stencil_read_mask;
        builder
    }

    /// Sets the bits a stencil action writes.
    pub fn stencil_write_mask(self, stencil_write_mask: i32) -> (builder: Self)
        ensures
            builder == (PipelineBuilder { stencil_write_mask, ..self }),
    {
        let mut builder = self;
        builder.stencil_write_mask = stencil_write_mask;
        builder
    }

    /// Sets the blend equation of the colour channels; `None` switches blending off.
    pub fn blending(self, blending: Option<Blending>) -> (builder: Self)
        ensures
            builder == (PipelineBuilder { blending, ..self }),
    {
        let mut builder = self;
        builder.blending = blending;
        builder
    }

    /// Sets the blend equation of the alpha channel; `None` switches blending off.
    pub fn alpha_blending(self, alpha_blending: Option<Blending>) -> (builder: Self)
        ensures
            builder == (PipelineBuilder { alpha_blending, ..self }),
    {
        let mut builder = self;
        builder.alpha_blending = alpha_blending;
        builder
    }

    /// Sets the bit depth of the depth attachment.
    pub fn depth_attachment_bits(self, depth_attachment_bits: i32) -> (builder: Self)
        ensures
            builder == (PipelineBuilder { depth_attachment_bits, ..self }),
    {
        let mut builder = self;
        builder.depth_attachment_bits = depth_attachment_bits;
        builder
    }

    /// Sets the bit depth of the stencil attachment.
    pub fn stencil_attachment_bits(self, stencil_attachment_bits: i32) -> (builder: Self)
        ensures
            builder == (PipelineBuilder { stencil_attachment_bits, ..self }),
    {
        let mut builder = self;
        builder.stencil_attachment_bits = stencil_attachment_bits;
        builder
    }

    /// Switches conservative rasterization on or off.
    pub fn conservative_rasterization(self, conservative_rasterization: bool) -> (builder: Self)
        ensures
            builder == (PipelineBuilder { conservative_rasterization, ..self }),
    {
        let mut builder = self;
        builder.conservative_rasterization = conservative_rasterization;
        builder
    }

    /// Checks what was collected and freezes it. Layouts beyond the sixteenth
    /// are left out without an error; a shader in the wrong slot, or more
    /// colour attachments than a pipeline holds, is an error.
    pub fn build(self) -> (built: Result<Pipeline, PipelineError>)
        ensures
            match built {
                Ok(pipeline) => self.error() is None && pipeline@ == self.compiled(),
                Err(e) => self.error() == Some(e),
            },
    {
        if let Some(e) = check_stage(ShaderType::Vertex, Some(self.vertex_shader)) {
            return Err(e);
        }
        if let Some(e) = check_stage(ShaderType::Fragment, Some(self.fragment_shader)) {
            return Err(e);
        }
        if let Some(e) = check_stage(ShaderType::Geometry, self.geometry_shader) {
            return Err(e);
        }
        if let Some(e) = check_stage(
            ShaderType::TessellationControl,
            self.tessellation_control_shader,
        ) {
            return Err(e);
        }
        if let Some(e) = check_stage(
            ShaderType::TessellationEvaluation,
            self.tessellation_evaluation_shader,
        ) {
            return Err(e);
        }
        if self.color_attachments.len() > KINC_G4_MAX_COLOR_ATTACHMENTS {
            return Err(PipelineError::TooManyColorAttachments);
        }
        let kept: usize = if self.input_layout.len() <= KINC_G4_MAX_INPUT_LAYOUTS {
            self.input_layout.len()
        } else {
            KINC_G4_MAX_INPUT_LAYOUTS
        };
        let mut input_layout: Vec<VertexStructure> = Vec::new();
        let mut i: usize = 0;
        while i < kept
            invariant
                kept <= self.input_layout@.len(),
                i <= kept,
                input_layout@.len() == i,
                forall|j: int| 0 <= j < i ==> input_layout@[j]@ == self.input_layout@[j]@,
            decreases kept - i,
        {
            input_layout.push(self.input_layout[i].clone());
            i += 1;
        }
        let fixed = FixedState {
            geometry_shader: self.geometry_shader.is_some(),
            tessellation_control_shader: self.tessellation_control_shader.is_some(),
            tessellation_evaluation_shader: self.tessellation_evaluation_shader.is_some(),
            cull_mode: self.cull_mode,
            depth_write: self.depth_mode.is_some(),
            depth_mode: match self.depth_mode {
                Some(mode) => mode,
                None => CompareMode::Always,
            },
            front_stencil: resolve_stencil(self.front_stencil),
            back_stencil: resolve_stencil(self.back_stencil),
            stencil_reference_value: self.stencil_reference_value,
            stencil_read_mask: self.stencil_read_mask,
            stencil_write_mask: self.stencil_write_mask,
            blending: resolve_blending(self.blending),
            alpha_blending: resolve_blending(self.alpha_blending),
            depth_attachment_bits: self.depth_attachment_bits,
            stencil_attachment_bits: self.stencil_attachment_bits,
            conservative_rasterization: self.conservative_rasterization,
        };
        let pipeline = Pipeline {
            input_layout,
            color_attachments: slice_to_vec(self.color_attachments),
            fixed,
        };
        assert(pipeline@.input_layout =~= self.kept_layouts());
        Ok(pipeline)
    }
}

fn check_stage(expected: ShaderType, shader: Option<&Shader>) -> (error: Option<PipelineError>)
    ensures
        error == optional_stage_error(expected, shader),
{
    match shader {
        Some(s) => {
            let found = s.stage();
            if found == expected {
                None
            } else {
                Some(PipelineError::ShaderStage { expected, found })
            }
        },
        None => None,
    }
}

fn resolve_stencil(stencil: Option<Stencil>) -> (resolved: Stencil)
    ensures
        resolved == match stencil {
            Some(s) => s,
            None => Stencil::disabled(),
        },
{
    match stencil {
        Some(s) => s,
        None => Stencil {
            mode: CompareMode::Always,
            both_pass: StencilAction::Keep,
            depth_fail: StencilAction::Keep,
            fail: StencilAction::Keep,
        },
    }
}

fn resolve_blending(blending: Option<Blending>) -> (resolved: Blending)
    ensures
        resolved == match blending {
            Some(b) => b,
            None => Blending::disabled(),
        },
{
    match blending {
        Some(b) => b,
        None => Blending {
            source: BlendingFactor::One,
            destination: BlendingFactor::Zero,
            operation: BlendingOperation::Add,
        },
    }
}

/// A pipeline keeps the layouts it was given in their order, up to the
/// sixteenth; later ones are gone and no slot beyond the sixteenth exists.
pub proof fn lemma_kept_layouts(builder: PipelineBuilder)
    ensures
        builder.kept_layouts().len() == if builder.input_layout@.len() <= 16 {
            builder.input_layout@.len()
        } else {
            16
        },
        forall|i: int|
            0 <= i < builder.kept_layouts().len() ==> builder.kept_layouts()[i]
                == builder.input_layout@[i]@,
{
}

/// A compiled pipeline: frozen, and free of the shaders and layouts it was
/// built from.
#[derive(Debug)]
pub struct Pipeline {
    input_layout: Vec<VertexStructure>,
    color_attachments: Vec<ColorAttachment>,
    fixed: FixedState,
}

impl View for Pipeline {
    type V = PipelineView;

    closed spec fn view(&self) -> PipelineView {
        PipelineView {
            input_layout: layouts_of(self.input_layout@),
            color_attachments: self.color_attachments@,
            fixed: self.fixed,
        }
    }
}

impl Pipeline {
    #[verifier::type_invariant]
    spec fn inv(self) -> bool {
        &&& self.input_layout@.len() <= KINC_G4_MAX_INPUT_LAYOUTS
        &&& self.color_attachments@.len() <= KINC_G4_MAX_COLOR_ATTACHMENTS
    }

    /// The vertex layouts, one per input slot in use.
    pub fn input_layout(&self) -> (layouts: &[VertexStructure])
        ensures
            layouts_of(layouts@) == self@.input_layout,
            layouts@.len() <= KINC_G4_MAX_INPUT_LAYOUTS,
    {
        proof {
            use_type_invariant(self);
        }
        self.input_layout.as_slice()
    }

    /// The colour attachments.
    pub fn color_attachments(&self) -> (attachments: &[ColorAttachment])
        ensures
            attachments@ == self@.color_attachments,
            attachments@.len() <= KINC_G4_MAX_COLOR_ATTACHMENTS,
    {
        proof {
            use_type_invariant(self);
        }
        self.color_attachments.as_slice()
    }

    /// The fixed-function state.
    pub fn fixed(&self) -> (fixed: FixedState)
        ensures
            fixed == self@.fixed,
    {
        self.fixed
    }

    /// The pipeline in the engine's own representation.
    pub fn raw(&self) -> (raw: RawPipeline)
        ensures
            raw.represents(self@),
    {
        proof {
            use_type_invariant(self);
        }
        let standard: u32 = RenderTargetFormat::I32.into();
        let mut red: [bool; 8] = [true; 8];
        let mut green: [bool; 8] = [true; 8];
        let mut blue: [bool; 8] = [true; 8];
        let mut alpha: [bool; 8] = [true; 8];
        let mut format: [u32; 8] = [standard; 8];
        let count: usize = self.color_attachments.len();
        let mut i: usize = 0;
        while i < count
            invariant
                count == self.color_attachments@.len(),
                count <= 8,
                i <= count,
                forall|j: int|
                    0 <= j < 8 ==> slot_holds(
                        self.color_attachments@,
                        j,
                        i as int,
                        red@[j],
                        green@[j],
                        blue@[j],
                        alpha@[j],
                        format@[j],
                    ),
            decreases count - i,
        {
            let attachment = self.color_attachments[i];
            red[i] = attachment.write_red;
            green[i] = attachment.write_green;
            blue[i] = attachment.write_blue;
            alpha[i] = attachment.write_alpha;
            format[i] = attachment.format.into();
            i += 1;
        }
        RawPipeline {
            cull_mode: self.fixed.cull_mode.into(),
            depth_write: self.fixed.depth_write,
            depth_mode: self.fixed.depth_mode.into(),
            stencil_front_mode: self.fixed.front_stencil.mode.into(),
            stencil_front_both_pass: self.fixed.front_stencil.both_pass.into(),
            stencil_front_depth_fail: self.fixed.front_stencil.depth_fail.into(),
            stencil_front_fail: self.fixed.front_stencil.fail.into(),
            stencil_back_mode: self.fixed.back_stencil.mode.into(),
            stencil_back_both_pass: self.fixed.back_stencil.both_pass.into(),
            stencil_back_depth_fail: self.fixed.back_stencil.depth_fail.into(),
            stencil_back_fail: self.fixed.back_stencil.fail.into(),
            stencil_reference_value: self.fixed.stencil_reference_value,
            stencil_read_mask: self.fixed.stencil_read_mask,
            stencil_write_mask: self.fixed.stencil_write_mask,
            blend_source: self.fixed.blending.source.into(),
            blend_destination: self.fixed.blending.destination.into(),
            blend_operation: self.fixed.blending.operation.into(),
            alpha_blend_source: self.fixed.alpha_blending.source.into(),
            alpha_blend_destination: self.fixed.alpha_blending.destination.into(),
            alpha_blend_operation: self.fixed.alpha_blending.operation.into(),
            color_write_mask_red: red,
            color_write_mask_green: green,
            color_write_mask_blue: blue,
            color_write_mask_alpha: alpha,
            color_attachment_count: count as i32,
            color_attachment: format,
            depth_attachment_bits: self.fixed.depth_attachment_bits,
            stencil_attachment_bits: self.fixed.stencil_attachment_bits,
            conservative_rasterization: self.fixed.conservative_rasterization,
        }
    }
}

/// Whether slot `j` of the engine's attachment arrays holds what it should
/// once the first `filled` attachments are written: the attachment's own
/// settings below `filled`, the standard attachment's from there on.
pub open spec fn slot_holds(
    attachments: Seq<ColorAttachment>,
    j: int,
    filled: int,
    red: bool,
    green: bool,
    blue: bool,
    alpha: bool,
    format: u32,
) -> bool {
    let attachment = if j < filled {
        attachments[j]
    } else {
        ColorAttachment::standard()
    };
    &&& red == attachment.write_red
    &&& green == attachment.write_green
    &&& blue == attachment.write_blue
    &&& alpha == attachment.write_alpha
    &&& format == attachment.format.code()
}

/// A pipeline in the engine's own representation: every enumeration as its
/// native constant, the attachments spread over arrays of fixed length.
#[derive(Debug, Copy, Clone, PartialEq, Eq)]
pub struct RawPipeline {
    pub cull_mode: u32,
    pub depth_write: bool,
    pub depth_mode: u32,
    pub stencil_front_mode: u32,
    pub stencil_front_both_pass: u32,
    pub stencil_front_depth_fail: u32,
    pub stencil_front_fail: u32,
    pub stencil_back_mode: u32,
    pub stencil_back_both_pass: u32,
    pub stencil_back_depth_fail: u32,
    pub stencil_back_fail: u32,
    pub stencil_reference_value: i32,
    pub stencil_read_mask: i32,
    pub stencil_write_mask: i32,
    pub blend_source: u32,
    pub blend_destination: u32,
    pub blend_operation: u32,
    pub alpha_blend_source: u32,
    pub alpha_blend_destination: u32,
    pub alpha_blend_operation: u32,
    pub color_write_mask_red: [bool; 8],
    pub color_write_mask_green: [bool; 8],
    pub color_write_mask_blue: [bool; 8],
    pub color_write_mask_alpha: [bool; 8],
    pub color_attachment_count: i32,
    pub color_attachment: [u32; 8],
    pub depth_attachment_bits: i32,
    pub stencil_attachment_bits: i32,
    pub conservative_rasterization: bool,
}

impl RawPipeline {
    /// Whether this is `pipeline`, field by field, in native constants.
    pub open spec fn represents(&self, pipeline: PipelineView) -> bool {
        let fixed = pipeline.fixed;
        &&& self.cull_mode == fixed.cull_mode.code()
        &&& self.depth_write == fixed.depth_write
        &&& self.depth_mode == fixed.depth_mode.code()
        &&& self.stencil_front_mode == fixed.front_stencil.mode.code()
        &&& self.stencil_front_both_pass == fixed.front_stencil.both_pass.code()
        &&& self.stencil_front_depth_fail == fixed.front_stencil.depth_fail.code()
        &&& self.stencil_front_fail == fixed.front_stencil.fail.code()
        &&& self.stencil_back_mode == fixed.back_stencil.mode.code()
        &&& self.stencil_back_both_pass == fixed.back_stencil.both_pass.code()
        &&& self.stencil_back_depth_fail == fixed.back_stencil.depth_fail.code()
        &&& self.stencil_back_fail == fixed.back_stencil.fail.code()
        &&& self.stencil_reference_value == fixed.stencil_reference_value
        &&& self.stencil_read_mask == fixed.stencil_read_mask
        &&& self.stencil_write_mask == fixed.stencil_write_mask
        &&& self.blend_source == fixed.blending.source.code()
        &&& self.blend_destination == fixed.blending.destination.code()
        &&& self.blend_operation == fixed.blending.operation.code()
        &&& self.alpha_blend_source == fixed.alpha_blending.source.code()
        &&& self.alpha_blend_destination == fixed.alpha_blending.destination.code()
        &&& self.alpha_blend_operation == fixed.alpha_blending.operation.code()
        &&& self.color_attachment_count == pipeline.color_attachments.len()
        &&& forall|j: int|
            0 <= j < 8 ==> slot_holds(
                pipeline.color_attachments,
                j,
                pipeline.color_attachments.len() as int,
                self.color_write_mask_red@[j],
                self.color_write_mask_green@[j],
                self.color_write_mask_blue@[j],
                self.color_write_mask_alpha@[j],
                self.color_attachment@[j],
            )
        &&& self.depth_attachment_bits == fixed.depth_attachment_bits
        &&& self.stencil_attachment_bits == fixed.stencil_attachment_bits
        &&& self.conservative_rasterization == fixed.conservative_rasterization
    }
}

} // verus!
