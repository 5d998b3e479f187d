//! The render pass: the stretch between `begin` and `end` in which draw state
//! is set and draws are issued, and the context that opens it.

use vstd::prelude::*;
use crate::g4::buffer::{IndexBuffer, VertexBuffer};
use crate::g4::pipeline::Pipeline;
use crate::g4::shader::RenderTarget;
use crate::sys::{KINC_G4_CLEAR_COLOR, KINC_G4_CLEAR_DEPTH, KINC_G4_CLEAR_STENCIL};
use crate::window::Window;

verus! {

/// Every bit a [`ClearMode`] can hold.
pub const CLEAR_ALL: u32 = KINC_G4_CLEAR_COLOR | KINC_G4_CLEAR_DEPTH | KINC_G4_CLEAR_STENCIL;

/// The set of attachments a clear touches.
#[derive(Debug, Copy, Clone, PartialEq, Eq)]
pub struct ClearMode {
    bits: u32,
}

impl View for ClearMode {
    type V = u32;

    /// The flags, one bit each.
    closed spec fn view(&self) -> u32 {
        self.bits
    }
}

impl ClearMode {
    #[verifier::type_invariant]
    spec fn inv(self) -> bool {
        self.bits & !CLEAR_ALL == 0
    }

    /// No attachment.
    pub fn empty() -> (mode: Self)
        ensures
            mode@ == 0,
    {
        assert(0u32 & !CLEAR_ALL == 0) by (bit_vector);
        ClearMode { bits: 0 }
    }

    /// The colour attachments.
    pub fn color() -> (mode: Self)
        ensures
            mode@ == KINC_G4_CLEAR_COLOR,
    {
        assert(KINC_G4_CLEAR_COLOR & !CLEAR_ALL == 0) by (bit_vector);
        ClearMode { bits: KINC_G4_CLEAR_COLOR }
    }

    /// The depth attachment.
    pub fn depth() -> (mode: Self)
        ensures
            mode@ == KINC_G4_CLEAR_DEPTH,
    {
        assert(KINC_G4_CLEAR_DEPTH & !CLEAR_ALL == 0) by (bit_vector);
        ClearMode { bits: KINC_G4_CLEAR_DEPTH }
    }

    /// The stencil attachment.
    pub fn stencil() -> (mode: Self)
        ensures
            mode@ == KINC_G4_CLEAR_STENCIL,
    {
        assert(KINC_G4_CLEAR_STENCIL & !CLEAR_ALL == 0) by (bit_vector);
        ClearMode { bits: KINC_G4_CLEAR_STENCIL }
    }

    /// Every attachment.
    pub fn all() -> (mode: Self)
        ensures
            mode@ == CLEAR_ALL,
    {
        assert(CLEAR_ALL & !CLEAR_ALL == 0) by (bit_vector);
        ClearMode { bits: CLEAR_ALL }
    }

    /// The flags as the engine takes them.
    pub fn bits(&self) -> (bits: u32)
        ensures
            bits == self@,
            bits & !CLEAR_ALL == 0,
    {
        proof {
            use_type_invariant(self);
        }
        self.bits
    }

    /// The set with exactly the flags in `bits`, unless a bit of `bits`
    /// stands for no flag.
    pub fn from_bits(bits: u32) -> (mode: Option<Self>)
        ensures
            match mode {
                Some(m) => m@ == bits && bits & !CLEAR_ALL == 0,
                None => bits & !CLEAR_ALL != 0,
            },
    {
        if bits & !CLEAR_ALL == 0 {
            Some(ClearMode { bits })
        } else {
            None
        }
    }

    /// The set with the flags in `bits`; bits that stand for no flag are
    /// dropped.
    pub fn from_bits_truncate(bits: u32) -> (mode: Self)
        ensures
            mode@ == bits & CLEAR_ALL,
    {
        assert((bits & CLEAR_ALL) & !CLEAR_ALL == 0) by (bit_vector);
        ClearMode { bits: bits & CLEAR_ALL }
    }

    /// Whether the set holds no flag.
    pub fn is_empty(&self) -> (empty: bool)
        ensures
            empty == (self@ == 0),
    {
        self.bits == 0
    }

    /// Whether every flag of `other` is in this set.
    pub fn contains(&self, other: Self) -> (contained: bool)
        ensures
            contained == (self@ & other@ == other@),
    {
        self.bits & other.bits == other.bits
    }

    /// The flags of either set.
    pub fn union(self, other: Self) -> (mode: Self)
        ensures
            mode@ == self@ | other@,
    {
        proof {
            use_type_invariant(&self);
            use_type_invariant(&other);
        }
        let a: u32 = self.bits;
        let b: u32 = other.bits;
        assert((a | b) & !CLEAR_ALL == 0) by (bit_vector)
            requires
                a & !CLEAR_ALL == 0,
                b & !CLEAR_ALL == 0,
        ;
        ClearMode { bits: a | b }
    }
}

/// One piece of work handed to the engine inside a render pass.
#[derive(Debug, Copy, Clone, PartialEq, Eq, Structural)]
pub enum Command {
    /// Clear the attachments in `flags` to a colour, a depth (the bits of a
    /// 32-bit float) and a stencil value.
    Clear { flags: u32, color: u32, depth: u32, stencil: i32 },
    /// Draw into `count` render targets.
    SetRenderTargets { count: i32 },
    /// Take indices from a buffer of `count` indices.
    SetIndexBuffer { count: i32 },
    /// Take vertices from a buffer of `count` vertices of `stride` bytes.
    SetVertexBuffer { count: i32, stride: i32 },
    /// Draw with a pipeline of `input_layouts` vertex layouts.
    SetPipeline { input_layouts: usize },
    /// Draw every index of the bound index buffer.
    DrawIndexedVertices,
    /// Draw `count` indices from index `start`.
    DrawIndexedVerticesFromTo { start: i32, count: i32 },
    /// Draw `count` indices from index `start`, adding `vertex_offset` to each.
    DrawIndexedVerticesFromToFrom { start: i32, count: i32, vertex_offset: i32 },
}

/// Presenting the frame failed. The surface may be lost; the caller decides
/// whether to try again.
#[derive(Debug, Copy, Clone, PartialEq, Eq, Structural)]
pub struct SwapBufferError;

impl SwapBufferError {
    /// The message the error is reported with.
    pub fn message(&self) -> (message: &'static str)
        ensures
            message@ == "swap_buffers failed"@,
    {
        "swap_buffers failed"
    }
}

/// The graphics context. It is either idle or inside the one pass that is
/// open, and remembers for which window.
#[derive(Debug)]
pub struct Graphics4 {
    /// The window of the open pass.
    pub pass: Option<i32>,
}

impl Graphics4 {
    /// Whether no pass is open.
    pub open spec fn idle(&self) -> bool {
        self.pass is None
    }

    /// The context once a pass is open on `window`.
    pub open spec fn begun(&self, window: i32) -> Graphics4 {
        Graphics4 { pass: Some(window) }
    }

    /// The context once the open pass has ended.
    pub open spec fn ended(&self) -> Graphics4 {
        Graphics4 { pass: None }
    }

    /// An idle context.
    pub fn new() -> (graphics: Self)
        ensures
            graphics.idle(),
    {
        Graphics4 { pass: None }
    }

    /// Opens a pass on `window`. The pass borrows the context until it ends,
    /// so no second pass can be open beside it.
    pub fn begin<'a>(&'a mut self, window: &'a Window) -> (pass: RenderPass<'a>)
        requires
            old(self).idle(),
        ensures
            *pass.graphics == old(self).begun(window.index()),
            pass.wf(),
            pass.window == window,
            pass.commands@ == Seq::<Command>::empty(),
            !pass.vertex_buffer_bound,
            !pass.index_buffer_bound,
            !pass.pipeline_bound,
            *final(self) == *final(pass.graphics),
    {
        self.pass = Some(window.id());
        RenderPass {
            graphics: self,
            window,
            commands: Vec::new(),
            vertex_buffer_bound: false,
            index_buffer_bound: false,
            pipeline_bound: false,
        }
    }

    /// Reports what came of presenting the frame, given the engine's answer:
    /// success if `presented`, the presentation error if not. The context
    /// stays as it is either way.
    pub fn swap_buffers(&mut self, presented: bool) -> (swapped: Result<(), SwapBufferError>)
        ensures
            swapped is Ok <==> presented,
            *final(self) == *old(self),
    {
        swap_buffers(presented)
    }
}

/// Reports what came of presenting the frame, given the engine's answer:
/// success if `presented`, the presentation error if not.
pub fn swap_buffers(presented: bool) -> (swapped: Result<(), SwapBufferError>)
    ensures
        swapped is Ok <==> presented,
{
    if presented {
        Ok(())
    } else {
        Err(SwapBufferError)
    }
}

/// An open render pass: the token that draw state is set and draws are
/// issued through. It records, in order, everything handed to the engine.
pub struct RenderPass<'a> {
    pub graphics: &'a mut Graphics4,
    pub window: &'a Window,
    /// What was handed to the engine so far.
    pub commands: Vec<Command>,
    pub vertex_buffer_bound: bool,
    pub index_buffer_bound: bool,
    pub pipeline_bound: bool,
}

impl<'a> RenderPass<'a> {
    /// The context of an open pass is inside that pass.
    pub open spec fn wf(&self) -> bool {
        self.graphics.pass == Some(self.window.index())
    }

    /// Whether a pipeline, a vertex buffer and an index buffer are bound.
    pub open spec fn ready(&self) -> bool {
        self.pipeline_bound && self.vertex_buffer_bound && self.index_buffer_bound
    }

    /// Whether `after` is this pass with `command` handed to the engine and
    /// nothing else changed but what is bound.
    pub open spec fn issued(&self, command: Command, after: &Self) -> bool {
        &&& after.commands@ == self.commands@.push(command)
        &&& after.graphics == self.graphics
        &&& after.window == self.window
    }

    /// Whether `after` has the same buffers and pipeline bound as this pass.
    pub open spec fn same_bindings(&self, after: &Self) -> bool {
        &&& after.vertex_buffer_bound == self.vertex_buffer_bound
        &&& after.index_buffer_bound == self.index_buffer_bound
        &&& after.pipeline_bound == self.pipeline_bound
    }

    /// Whether a draw would find everything it needs.
    pub fn can_draw(&self) -> (ready: bool)
        ensures
            ready == self.ready(),
    {
        self.pipeline_bound && self.vertex_buffer_bound && self.index_buffer_bound
    }

    /// Draws into `render_targets` from now on. There can be no more of them
    /// than an `i32` counts.
    pub fn set_render_targets(&mut self, render_targets: &[&RenderTarget])
        requires
            render_targets@.len() <= i32::MAX,
        ensures
            old(self).issued(
                Command::SetRenderTargets { count: render_targets@.len() as i32 },
                final(self),
            ),
            old(self).same_bindings(final(self)),
    {
        self.commands.push(Command::SetRenderTargets { count: render_targets.len() as i32 });
    }

    /// Binds the buffer draws take their indices from.
    pub fn set_index_buffer(&mut self, index_buffer: &IndexBuffer)
        ensures
            old(self).issued(
                Command::SetIndexBuffer { count: index_buffer@.count as i32 },
                final(self),
            ),
            final(self).index_buffer_bound,
            final(self).vertex_buffer_bound == old(self).vertex_buffer_bound,
            final(self).pipeline_bound == old(self).pipeline_bound,
    {
        self.commands.push(Command::SetIndexBuffer { count: index_buffer.count() });
        self.index_buffer_bound = true;
    }

    /// Binds the buffer draws take their vertices from.
    pub fn set_vertex_buffer(&mut self, vertex_buffer: &VertexBuffer)
        ensures
            old(self).issued(
                Command::SetVertexBuffer {
                    count: vertex_buffer@.count as i32,
                    stride: vertex_buffer@.stride as i32,
                },
                final(self),
            ),
            final(self).vertex_buffer_bound,
            final(self).index_buffer_bound == old(self).index_buffer_bound,
            final(self).pipeline_bound == old(self).pipeline_bound,
    {
        self.commands.push(
            Command::SetVertexBuffer {
                count: vertex_buffer.count(),
                stride: vertex_buffer.stride(),
            },
        );
        self.vertex_buffer_bound = true;
    }

    /// Binds the pipeline draws run through.
    pub fn set_pipeline(&mut self, pipeline: &Pipeline)
        ensures
            old(self).issued(
                Command::SetPipeline { input_layouts: pipeline@.input_layout.len() as usize },
                final(self),
            ),
            final(self).pipeline_bound,
            final(self).vertex_buffer_bound == old(self).vertex_buffer_bound,
            final(self).index_buffer_bound == old(self).index_buffer_bound,
    {
        self.commands.push(Command::SetPipeline { input_layouts: pipeline.input_layout().len() });
        self.pipeline_bound = true;
    }

    /// Draws every index of the bound index buffer. What a draw does while
    /// something is not bound is up to the engine; `can_draw` tells.
    pub fn draw_indexed_vertices(&mut self)
        ensures
            old(self).issued(Command::DrawIndexedVertices, final(self)),
            old(self).same_bindings(final(self)),
    {
        self.commands.push(Command::DrawIndexedVertices);
    }

    /// Draws `count` indices from index `start`.
    pub fn draw_indexed_vertices_from_to(&mut self, start: i32, count: i32)
        ensures
            old(self).issued(Command::DrawIndexedVerticesFromTo { start, count }, final(self)),
            old(self).same_bindings(final(self)),
    {
        self.commands.push(Command::DrawIndexedVerticesFromTo { start, count });
    }

    /// Draws `count` indices from index `start`, adding `vertex_offset` to
    /// each index.
    pub fn draw_indexed_vertices_from_to_from(&mut self, start: i32, count: i32, vertex_offset: i32)
        ensures
            old(self).issued(
                Command::DrawIndexedVerticesFromToFrom { start, count, vertex_offset },
                final(self),
            ),
            old(self).same_bindings(final(self)),
    {
        self.commands.push(Command::DrawIndexedVerticesFromToFrom { start, count, vertex_offset });
    }

    /// Clears the attachments in `flags`. `depth` holds the bits of the
    /// 32-bit float the depth attachment is cleared to.
    pub fn clear(&mut self, flags: ClearMode, color: u32, depth: u32, stencil: i32)
        ensures
            old(self).issued(Command::Clear { flags: flags@, color, depth, stencil }, final(self)),
            old(self).same_bindings(final(self)),
    {
        self.commands.push(Command::Clear { flags: flags.bits(), color, depth, stencil });
    }

    /// Ends the pass: the context is idle again.
    pub fn end(self)
        ensures
            *final(self.graphics) == old(self.graphics).ended(),
    {
        self.graphics.pass = None;
    }
}

/// A pass that is opened on an idle context and ended at once leaves the
/// context idle, as it was: the next pass can be opened, on the same window
/// or another.
pub proof fn lemma_begin_end(graphics: Graphics4, window: i32)
    requires
        graphics.idle(),
    ensures
        !graphics.begun(window).idle(),
        graphics.begun(window).ended().idle(),
        graphics.begun(window).ended() == graphics,
{
}

} // verus!
