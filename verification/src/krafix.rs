//! The front of the shader cross-compiler: which kinds of shader it is asked
//! for, under which names, and what counts as its output.

use vstd::prelude::*;
use vstd::slice::slice_subrange;
use vstd::slice::slice_to_vec;
use crate::backend::{GraphicsApi, TargetOS};
use crate::g4::state::ShaderType;

verus! {

/// The kinds of shader the cross-compiler is asked for.
#[derive(Debug, Copy, Clone, PartialEq, Eq, Structural)]
pub enum ShaderKind {
    Vertex,
    Fragment,
}

/// Why the cross-compiler gave no blob.
#[derive(Debug, Copy, Clone, PartialEq, Eq, Structural)]
pub enum CompileError {
    /// The cross-compiler reported a failure, with this status.
    Failed { status: i32 },
    /// The length the cross-compiler reported does not lie inside the buffer
    /// it wrote to.
    BadLength { length: i32 },
}

/// The language version the cross-compiler is asked to emit.
pub const SHADER_VERSION: i32 = 300;

/// The size of the buffer the cross-compiler writes to.
pub const OUTPUT_CAPACITY: usize = 1024 * 1024;

impl ShaderKind {
    /// The kind written as `name`, if there is one.
    pub open spec fn named(name: Seq<char>) -> Option<ShaderKind> {
        if name == "vertex"@ {
            Some(ShaderKind::Vertex)
        } else if name == "fragment"@ {
            Some(ShaderKind::Fragment)
        } else {
            None
        }
    }

    /// Reads a kind from its name: `vertex` or `fragment`.
    pub fn parse(name: &str) -> (kind: Option<ShaderKind>)
        ensures
            kind == Self::named(name@),
    {
        let name: String = name.to_owned();
        if name == "vertex".to_owned() {
            Some(ShaderKind::Vertex)
        } else if name == "fragment".to_owned() {
            Some(ShaderKind::Fragment)
        } else {
            None
        }
    }

    /// The name the cross-compiler knows the kind by.
    pub fn stage_name(&self) -> (name: &'static str)
        ensures
            name@ == match self {
                ShaderKind::Vertex => "vert"@,
                ShaderKind::Fragment => "frag"@,
            },
    {
        match self {
            ShaderKind::Vertex => "vert",
            ShaderKind::Fragment => "frag",
        }
    }

    /// The stage a shader of this kind runs in.
    pub fn shader_type(&self) -> (stage: ShaderType)
        ensures
            stage == match self {
                ShaderKind::Vertex => ShaderType::Vertex,
                ShaderKind::Fragment => ShaderType::Fragment,
            },
    {
        match self {
            ShaderKind::Vertex => ShaderType::Vertex,
            ShaderKind::Fragment => ShaderType::Fragment,
        }
    }
}

/// What the cross-compiler's answer amounts to: the first `length` bytes of
/// `output` where it reported success and a length inside the buffer, and
/// the reason for having no blob otherwise.
pub open spec fn blob_of(output: Seq<u8>, status: i32, length: i32) -> Result<
    Seq<u8>,
    CompileError,
> {
    if status != 0 {
        Err(CompileError::Failed { status })
    } else if length < 0 || length > output.len() {
        Err(CompileError::BadLength { length })
    } else {
        Ok(output.subrange(0, length as int))
    }
}

/// Takes the blob out of the buffer the cross-compiler wrote to, given the
/// status and the length it reported.
pub fn compiled_blob(output: &[u8], status: i32, length: i32) -> (blob: Result<
    Vec<u8>,
    CompileError,
>)
    ensures
        match blob {
            Ok(bytes) => blob_of(output@, status, length) == Ok::<Seq<u8>, CompileError>(bytes@),
            Err(e) => blob_of(output@, status, length) == Err::<Seq<u8>, CompileError>(e),
        },
{
    if status != 0 {
        return Err(CompileError::Failed { status });
    }
    if length < 0 || length as usize > output.len() {
        return Err(CompileError::BadLength { length });
    }
    Ok(slice_to_vec(slice_subrange(output, 0, length as usize)))
}

/// The language shaders are compiled to for a build on `graphics` for `os`,
/// where there is one.
pub open spec fn language_of(graphics: GraphicsApi, os: TargetOS) -> Option<Seq<char>> {
    match graphics {
        GraphicsApi::OpenGL => match os {
            TargetOS::Linux | TargetOS::Android => Some("essl"@),
            TargetOS::Windows => Some("glsl"@),
            _ => None,
        },
        GraphicsApi::Metal => Some("metal"@),
        GraphicsApi::Vulkan => Some("spirv"@),
        GraphicsApi::D3D11 | GraphicsApi::D3D12 => Some("d3d11"@),
    }
}

/// The language shaders are compiled to for a build on `graphics` for `os`:
/// OpenGL takes ESSL on Linux and Android and GLSL on Windows, and has no
/// language elsewhere; Metal, Vulkan and Direct3D each take their own.
pub fn target_language(graphics: GraphicsApi, os: TargetOS) -> (language: Option<&'static str>)
    ensures
        match language {
            Some(name) => language_of(graphics, os) == Some(name@),
            None => language_of(graphics, os) is None,
        },
{
    match graphics {
        GraphicsApi::OpenGL => match os {
            TargetOS::Linux | TargetOS::Android => Some("essl"),
            TargetOS::Windows => Some("glsl"),
            _ => None,
        },
        GraphicsApi::Metal => Some("metal"),
        GraphicsApi::Vulkan => Some("spirv"),
        GraphicsApi::D3D11 | GraphicsApi::D3D12 => Some("d3d11"),
    }
}

/// The name the cross-compiler knows the system it runs on by: Windows and
/// macOS by their own, every other system as Linux.
pub fn system_name(os: TargetOS) -> (name: &'static str)
    ensures
        name@ == match os {
            TargetOS::Windows => "windows"@,
            TargetOS::MacOS => "macos"@,
            _ => "linux"@,
        },
{
    match os {
        TargetOS::Windows => "windows",
        TargetOS::MacOS => "macos",
        _ => "linux",
    }
}

} // verus!
