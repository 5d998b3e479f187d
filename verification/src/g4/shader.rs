//! Shaders and the engine-owned resources the library only passes along.

use vstd::prelude::*;
use vstd::slice::slice_to_vec;
use crate::g4::state::ShaderType;

verus! {

/// A shader, as contracts see it.
pub struct ShaderView {
    pub stage: ShaderType,
    pub code: Seq<u8>,
}

/// One program unit: the blob the cross-compiler produced, tagged with the
/// stage it is meant for.
#[derive(Debug)]
pub struct Shader {
    code: Vec<u8>,
    stage: ShaderType,
}

impl View for Shader {
    type V = ShaderView;

    closed spec fn view(&self) -> ShaderView {
        ShaderView { stage: self.stage, code: self.code@ }
    }
}

impl Shader {
    /// Keeps a copy of `code` for stage `t`.
    pub fn new(code: &[u8], t: ShaderType) -> (shader: Self)
        ensures
            shader@.stage == t,
            shader@.code == code@,
    {
        Shader { code: slice_to_vec(code), stage: t }
    }

    /// The stage the shader was made for.
    pub fn stage(&self) -> (stage: ShaderType)
        ensures
            stage == self@.stage,
    {
        self.stage
    }

    /// The blob handed to the engine.
    pub fn code(&self) -> (code: &[u8])
        ensures
            code@ == self@.code,
    {
        self.code.as_slice()
    }
}

/// An image the engine samples from. The library never looks inside.
#[derive(Debug)]
pub struct Texture {
    _engine: (),
}

/// A surface the engine draws into. The library never looks inside.
#[derive(Debug)]
pub struct RenderTarget {
    _engine: (),
}

} // verus!
