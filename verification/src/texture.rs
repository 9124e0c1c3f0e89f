//! The texture that each frame is copied into and the quad is drawn with.

use vstd::prelude::*;
use crate::calls::GlCall;
use crate::gl;
use crate::pixel_buffer::PixelFormat;

verus! {

/// The number of mip levels of the texture's storage.
pub const MIP_LEVELS: i32 = 1;

/// Makes the texture the current two-dimensional texture.
pub open spec fn spec_bind_call(texture: glow::NativeTexture) -> GlCall {
    GlCall::BindTexture { target: gl::TEXTURE_2D, texture }
}

pub fn bind_call(texture: glow::NativeTexture) -> (call: GlCall)
    ensures
        call == spec_bind_call(texture),
{
    GlCall::BindTexture { target: gl::TEXTURE_2D, texture }
}

/// Allocates immutable storage of one mip level, `width` by `height`
/// texels of four 32-bit floats.
pub open spec fn spec_storage_call(texture: glow::NativeTexture, width: usize, height: usize) -> GlCall {
    GlCall::TextureStorage2d {
        texture,
        levels: MIP_LEVELS,
        internal_format: gl::RGBA32F,
        width: width as i32,
        height: height as i32,
    }
}

pub fn storage_call(texture: glow::NativeTexture, width: usize, height: usize) -> (call: GlCall)
    requires
        width <= i32::MAX,
        height <= i32::MAX,
    ensures
        call == spec_storage_call(texture, width, height),
{
    GlCall::TextureStorage2d {
        texture,
        levels: MIP_LEVELS,
        internal_format: gl::RGBA32F,
        width: width as i32,
        height: height as i32,
    }
}

/// Texels are picked by nearest neighbour where the texture is shrunk.
pub open spec fn spec_min_filter_call(texture: glow::NativeTexture) -> GlCall {
    GlCall::TextureParameterI32 {
        texture,
        parameter: gl::TEXTURE_MIN_FILTER,
        value: gl::NEAREST as i32,
    }
}

pub fn min_filter_call(texture: glow::NativeTexture) -> (call: GlCall)
    ensures
        call == spec_min_filter_call(texture),
{
    GlCall::TextureParameterI32 {
        texture,
        parameter: gl::TEXTURE_MIN_FILTER,
        value: gl::NEAREST as i32,
    }
}

/// Texels are interpolated linearly where the texture is enlarged.
pub open spec fn spec_mag_filter_call(texture: glow::NativeTexture) -> GlCall {
    GlCall::TextureParameterI32 {
        texture,
        parameter: gl::TEXTURE_MAG_FILTER,
        value: gl::LINEAR as i32,
    }
}

pub fn mag_filter_call(texture: glow::NativeTexture) -> (call: GlCall)
    ensures
        call == spec_mag_filter_call(texture),
{
    GlCall::TextureParameterI32 {
        texture,
        parameter: gl::TEXTURE_MAG_FILTER,
        value: gl::LINEAR as i32,
    }
}

/// Copies the whole of the bound pixel buffer, from its first byte, into
/// the whole of the texture's first level.
pub open spec fn spec_upload_call(
    texture: glow::NativeTexture,
    width: usize,
    height: usize,
    format: PixelFormat,
) -> GlCall {
    GlCall::TextureSubImage2d {
        texture,
        level: 0,
        x_offset: 0,
        y_offset: 0,
        width: width as i32,
        height: height as i32,
        format: format.spec_transfer_format(),
        ty: format.spec_transfer_type(),
        buffer_offset: 0,
    }
}

pub fn upload_call(
    texture: glow::NativeTexture,
    width: usize,
    height: usize,
    format: PixelFormat,
) -> (call: GlCall)
    requires
        width <= i32::MAX,
        height <= i32::MAX,
    ensures
        call == spec_upload_call(texture, width, height, format),
{
    GlCall::TextureSubImage2d {
        texture,
        level: 0,
        x_offset: 0,
        y_offset: 0,
        width: width as i32,
        height: height as i32,
        format: format.transfer_format(),
        ty: format.transfer_type(),
        buffer_offset: 0,
    }
}

} // verus!
