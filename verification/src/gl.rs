//! The OpenGL enumerants that the framebuffer hands to the driver.
//!
//! The values are those of the OpenGL registry.

use vstd::prelude::*;

verus! {

/// `glGetError`: no error has been recorded.
pub const NO_ERROR: u32 = 0;

pub const INVALID_ENUM: u32 = 0x0500;

pub const INVALID_VALUE: u32 = 0x0501;

pub const INVALID_OPERATION: u32 = 0x0502;

pub const STACK_OVERFLOW: u32 = 0x0503;

pub const STACK_UNDERFLOW: u32 = 0x0504;

pub const OUT_OF_MEMORY: u32 = 0x0505;

pub const INVALID_FRAMEBUFFER_OPERATION: u32 = 0x0506;

/// Buffer binding point that pixel transfers into textures read from.
pub const PIXEL_UNPACK_BUFFER: u32 = 0x88EC;

pub const MAP_READ_BIT: u32 = 0x0001;

pub const MAP_WRITE_BIT: u32 = 0x0002;

/// Usage hint: written by the CPU every frame, read by the GPU.
pub const STREAM_DRAW: u32 = 0x88E0;

pub const VERTEX_SHADER: u32 = 0x8B31;

pub const FRAGMENT_SHADER: u32 = 0x8B30;

pub const TEXTURE_2D: u32 = 0x0DE1;

/// Four 32-bit float channels.
pub const RGBA32F: u32 = 0x8814;

pub const TEXTURE_MIN_FILTER: u32 = 0x2801;

pub const TEXTURE_MAG_FILTER: u32 = 0x2800;

pub const NEAREST: u32 = 0x2600;

pub const LINEAR: u32 = 0x2601;

pub const COLOR_BUFFER_BIT: u32 = 0x4000;

pub const RGBA: u32 = 0x1908;

pub const UNSIGNED_BYTE: u32 = 0x1401;

pub const TRIANGLE_STRIP: u32 = 0x0005;

} // verus!
