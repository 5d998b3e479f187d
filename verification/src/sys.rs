//! The constant space of the native engine.
//!
//! Every enumeration of the engine's C interface is an unsigned integer whose
//! values are listed here under the names the engine's headers give them. The
//! typed enums of [`crate::g4`] map to these values and nothing else
//! in the library writes such a number by hand.

use vstd::prelude::*;

verus! {

// Window features, one bit each.
pub const KINC_WINDOW_FEATURE_RESIZEABLE: u32 = 1;
pub const KINC_WINDOW_FEATURE_MINIMIZABLE: u32 = 2;
pub const KINC_WINDOW_FEATURE_MAXIMIZABLE: u32 = 4;
pub const KINC_WINDOW_FEATURE_BORDERLESS: u32 = 8;
pub const KINC_WINDOW_FEATURE_ON_TOP: u32 = 16;

// Window modes.
pub const KINC_WINDOW_MODE_WINDOW: u32 = 0;
pub const KINC_WINDOW_MODE_FULLSCREEN: u32 = 1;
pub const KINC_WINDOW_MODE_EXCLUSIVE_FULLSCREEN: u32 = 2;

// Attachments a clear can touch, one bit each.
pub const KINC_G4_CLEAR_COLOR: u32 = 1;
pub const KINC_G4_CLEAR_DEPTH: u32 = 2;
pub const KINC_G4_CLEAR_STENCIL: u32 = 4;

// Buffer usage hints.
pub const KINC_G4_USAGE_STATIC: u32 = 0;
pub const KINC_G4_USAGE_DYNAMIC: u32 = 1;
pub const KINC_G4_USAGE_READABLE: u32 = 2;

// Index widths.
pub const KINC_G4_INDEX_BUFFER_FORMAT_32BIT: u32 = 0;
pub const KINC_G4_INDEX_BUFFER_FORMAT_16BIT: u32 = 1;

// Shader stages.
pub const KINC_G4_SHADER_TYPE_FRAGMENT: u32 = 0;
pub const KINC_G4_SHADER_TYPE_VERTEX: u32 = 1;
pub const KINC_G4_SHADER_TYPE_GEOMETRY: u32 = 2;
pub const KINC_G4_SHADER_TYPE_TESSELLATION_CONTROL: u32 = 3;
pub const KINC_G4_SHADER_TYPE_TESSELLATION_EVALUATION: u32 = 4;

// Pixel formats of render targets.
pub const KINC_G4_RENDER_TARGET_FORMAT_32BIT: u32 = 0;
pub const KINC_G4_RENDER_TARGET_FORMAT_64BIT_FLOAT: u32 = 1;
pub const KINC_G4_RENDER_TARGET_FORMAT_32BIT_RED_FLOAT: u32 = 2;
pub const KINC_G4_RENDER_TARGET_FORMAT_128BIT_FLOAT: u32 = 3;
pub const KINC_G4_RENDER_TARGET_FORMAT_16BIT_DEPTH: u32 = 4;
pub const KINC_G4_RENDER_TARGET_FORMAT_8BIT_RED: u32 = 5;
pub const KINC_G4_RENDER_TARGET_FORMAT_16BIT_RED_FLOAT: u32 = 6;

// Blend factors.
pub const KINC_G4_BLEND_ONE: u32 = 0;
pub const KINC_G4_BLEND_ZERO: u32 = 1;
pub const KINC_G4_BLEND_SOURCE_ALPHA: u32 = 2;
pub const KINC_G4_BLEND_DEST_ALPHA: u32 = 3;
pub const KINC_G4_BLEND_INV_SOURCE_ALPHA: u32 = 4;
pub const KINC_G4_BLEND_INV_DEST_ALPHA: u32 = 5;
pub const KINC_G4_BLEND_SOURCE_COLOR: u32 = 6;
pub const KINC_G4_BLEND_DEST_COLOR: u32 = 7;
pub const KINC_G4_BLEND_INV_SOURCE_COLOR: u32 = 8;
pub const KINC_G4_BLEND_INV_DEST_COLOR: u32 = 9;

// Blend operations.
pub const KINC_G4_BLENDOP_ADD: u32 = 0;
pub const KINC_G4_BLENDOP_SUBTRACT: u32 = 1;
pub const KINC_G4_BLENDOP_REVERSE_SUBTRACT: u32 = 2;
pub const KINC_G4_BLENDOP_MIN: u32 = 3;
pub const KINC_G4_BLENDOP_MAX: u32 = 4;

// Comparisons of depth and stencil tests.
pub const KINC_G4_COMPARE_ALWAYS: u32 = 0;
pub const KINC_G4_COMPARE_NEVER: u32 = 1;
pub const KINC_G4_COMPARE_EQUAL: u32 = 2;
pub const KINC_G4_COMPARE_NOT_EQUAL: u32 = 3;
pub const KINC_G4_COMPARE_LESS: u32 = 4;
pub const KINC_G4_COMPARE_LESS_EQUAL: u32 = 5;
pub const KINC_G4_COMPARE_GREATER: u32 = 6;
pub const KINC_G4_COMPARE_GREATER_EQUAL: u32 = 7;

// Cull modes.
pub const KINC_G4_CULL_CLOCKWISE: u32 = 0;
pub const KINC_G4_CULL_COUNTER_CLOCKWISE: u32 = 1;
pub const KINC_G4_CULL_NOTHING: u32 = 2;

// Stencil actions.
pub const KINC_G4_STENCIL_KEEP: u32 = 0;
pub const KINC_G4_STENCIL_ZERO: u32 = 1;
pub const KINC_G4_STENCIL_REPLACE: u32 = 2;
pub const KINC_G4_STENCIL_INCREMENT: u32 = 3;
pub const KINC_G4_STENCIL_INCREMENT_WRAP: u32 = 4;
pub const KINC_G4_STENCIL_DECREMENT: u32 = 5;
pub const KINC_G4_STENCIL_DECREMENT_WRAP: u32 = 6;
pub const KINC_G4_STENCIL_INVERT: u32 = 7;

/// Input-layout slots of a pipeline.
pub const KINC_G4_MAX_INPUT_LAYOUTS: usize = 16;

/// Colour attachments of a pipeline.
pub const KINC_G4_MAX_COLOR_ATTACHMENTS: usize = 8;

} // verus!
