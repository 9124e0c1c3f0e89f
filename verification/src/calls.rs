//! The driver calls that the framebuffer asks for, as values.
//!
//! A call is described in full: the shell that performs it adds nothing and
//! chooses nothing.

use vstd::prelude::*;

verus! {

/// `glow::NativeShader`, the name of a shader object. It is carried from
/// the reply that created it to the calls that use it, and never looked
/// into.
#[verifier::external_type_specification]
#[verifier::external_body]
pub struct ExNativeShader(glow::NativeShader);

/// `glow::NativeProgram`, the name of a program object; carried, never
/// looked into.
#[verifier::external_type_specification]
#[verifier::external_body]
pub struct ExNativeProgram(glow::NativeProgram);

/// `glow::NativeBuffer`, the name of a buffer object; carried, never
/// looked into.
#[verifier::external_type_specification]
#[verifier::external_body]
pub struct ExNativeBuffer(glow::NativeBuffer);

/// `glow::NativeVertexArray`, the name of a vertex-array object; carried,
/// never looked into.
#[verifier::external_type_specification]
#[verifier::external_body]
pub struct ExNativeVertexArray(glow::NativeVertexArray);

/// `glow::NativeTexture`, the name of a texture object; carried, never
/// looked into.
#[verifier::external_type_specification]
#[verifier::external_body]
pub struct ExNativeTexture(glow::NativeTexture);

/// One call into the driver, with every argument.
#[derive(Clone, Copy, Debug, PartialEq, Eq)]
pub enum GlCall {
    CreateShader { shader_type: u32 },
    ShaderSource { shader: glow::NativeShader, source: &'static str },
    CompileShader { shader: glow::NativeShader },
    GetShaderCompileStatus { shader: glow::NativeShader },
    GetShaderInfoLog { shader: glow::NativeShader },
    CreateProgram,
    AttachShader { program: glow::NativeProgram, shader: glow::NativeShader },
    LinkProgram { program: glow::NativeProgram },
    GetProgramLinkStatus { program: glow::NativeProgram },
    GetProgramInfoLog { program: glow::NativeProgram },
    CreateVertexArray,
    BindVertexArray { vertex_array: glow::NativeVertexArray },
    CreateBuffer,
    BindBuffer { target: u32, buffer: glow::NativeBuffer },
    /// Allocates `size` bytes for the buffer bound to `target`.
    BufferDataSize { target: u32, size: i32, usage: u32 },
    CreateTexture,
    BindTexture { target: u32, texture: glow::NativeTexture },
    TextureStorage2d {
        texture: glow::NativeTexture,
        levels: i32,
        internal_format: u32,
        width: i32,
        height: i32,
    },
    TextureParameterI32 { texture: glow::NativeTexture, parameter: u32, value: i32 },
    /// Sets the clear colour; each channel is the bit pattern of a
    /// single-precision number.
    ClearColor { red: u32, green: u32, blue: u32, alpha: u32 },
    Clear { mask: u32 },
    /// Maps `length` bytes, from `offset` on, of the buffer bound to
    /// `target` into the address space of the process.
    MapBufferRange { target: u32, offset: i32, length: i32, access: u32 },
    /// Ends the mapping; what was written becomes visible to the GPU.
    UnmapBuffer { target: u32 },
    /// Copies from the bound pixel-unpack buffer, `buffer_offset` bytes in,
    /// into a region of the texture.
    TextureSubImage2d {
        texture: glow::NativeTexture,
        level: i32,
        x_offset: i32,
        y_offset: i32,
        width: i32,
        height: i32,
        format: u32,
        ty: u32,
        buffer_offset: u32,
    },
    UseProgram { program: glow::NativeProgram },
    DrawArrays { mode: u32, first: i32, count: i32 },
}

} // verus!
