//! The GPU-resident buffer that a frame's pixels are written to.

use vstd::prelude::*;
use crate::calls::GlCall;
use crate::gl;

verus! {

/// How a pixel lies in memory. One layout is supported.
#[derive(Clone, Copy, Debug, PartialEq, Eq, Structural)]
pub enum PixelFormat {
    /// Four unsigned bytes: red, green, blue, alpha.
    Rgba8,
}

impl PixelFormat {
    pub open spec fn spec_bytes_per_pixel(self) -> nat {
        4
    }

    pub fn bytes_per_pixel(&self) -> (bytes: usize)
        ensures
            bytes == self.spec_bytes_per_pixel(),
    {
        4
    }

    /// The order of the channels, as the driver names it.
    pub open spec fn spec_transfer_format(self) -> u32 {
        gl::RGBA
    }

    pub fn transfer_format(&self) -> (format: u32)
        ensures
            format == self.spec_transfer_format(),
    {
        gl::RGBA
    }

    /// The type of one channel, as the driver names it.
    pub open spec fn spec_transfer_type(self) -> u32 {
        gl::UNSIGNED_BYTE
    }

    pub fn transfer_type(&self) -> (ty: u32)
        ensures
            ty == self.spec_transfer_type(),
    {
        gl::UNSIGNED_BYTE
    }
}

/// The largest number of pixels whose bytes the driver's signed 32-bit
/// sizes can count.
pub const MAX_PIXELS: usize = 0x1fff_ffff;

/// A buffer object sized for `length` pixels. Its capacity never changes.
///
/// The value stands for the one buffer object and cannot be copied: it
/// keeps whether that object's storage is mapped.
#[derive(Debug, PartialEq, Eq)]
pub struct PixelBuffer {
    /// The name of the buffer object.
    pub raw_buffer: glow::NativeBuffer,
    /// The number of pixels.
    pub length: usize,
    pub format: PixelFormat,
    /// The storage is mapped into the address space of the process: a
    /// guard over it is live, or the driver has yet to unmap it.
    pub mapped: bool,
}

impl PixelBuffer {
    pub open spec fn spec_raw(&self) -> glow::NativeBuffer {
        self.raw_buffer
    }

    pub open spec fn spec_len(&self) -> nat {
        self.length as nat
    }

    pub open spec fn spec_format(&self) -> PixelFormat {
        self.format
    }

    pub open spec fn spec_mapped(&self) -> bool {
        self.mapped
    }

    /// The buffer with its storage mapped, or not.
    pub open spec fn spec_with_mapped(&self, mapped: bool) -> PixelBuffer {
        PixelBuffer { mapped, ..*self }
    }

    /// The byte extent fits the driver's signed 32-bit sizes.
    pub open spec fn wf(&self) -> bool {
        self.spec_len() <= MAX_PIXELS
    }

    /// The size of the storage in bytes.
    pub open spec fn spec_byte_len(&self) -> nat {
        self.spec_len() * self.spec_format().spec_bytes_per_pixel()
    }

    /// Records a buffer object of `length` pixels, its storage not mapped;
    /// `None` where the bytes of so many pixels cannot be counted in a
    /// signed 32-bit size.
    pub fn new(raw_buffer: glow::NativeBuffer, length: usize) -> (buffer: Option<PixelBuffer>)
        ensures
            buffer == (if length <= MAX_PIXELS {
                Some(PixelBuffer { raw_buffer, length, format: PixelFormat::Rgba8, mapped: false })
            } else {
                None
            }),
    {
        if length <= MAX_PIXELS {
            Some(PixelBuffer { raw_buffer, length, format: PixelFormat::Rgba8, mapped: false })
        } else {
            None
        }
    }

    /// Whether the storage is mapped.
    pub fn is_mapped(&self) -> (mapped: bool)
        ensures
            mapped == self.spec_mapped(),
    {
        self.mapped
    }

    /// Records that the driver has mapped the storage, or unmapped it.
    /// Nothing else of the buffer changes.
    pub fn set_mapped(&mut self, mapped: bool)
        ensures
            *final(self) == old(self).spec_with_mapped(mapped),
    {
        self.mapped = mapped;
    }

    pub fn raw(&self) -> (raw: glow::NativeBuffer)
        ensures
            raw == self.spec_raw(),
    {
        self.raw_buffer
    }

    pub fn len(&self) -> (length: usize)
        ensures
            length == self.spec_len(),
    {
        self.length
    }

    pub fn format(&self) -> (format: PixelFormat)
        ensures
            format == self.spec_format(),
    {
        self.format
    }

    pub fn byte_len(&self) -> (bytes: i32)
        requires
            self.wf(),
        ensures
            bytes == self.spec_byte_len(),
    {
        let bytes: usize = self.length * self.format.bytes_per_pixel();
        bytes as i32
    }

    /// Makes the buffer the source of pixel transfers and the target of
    /// the calls that follow.
    pub open spec fn spec_bind_call(&self) -> GlCall {
        GlCall::BindBuffer { target: gl::PIXEL_UNPACK_BUFFER, buffer: self.spec_raw() }
    }

    pub fn bind_call(&self) -> (call: GlCall)
        ensures
            call == self.spec_bind_call(),
    {
        GlCall::BindBuffer { target: gl::PIXEL_UNPACK_BUFFER, buffer: self.raw_buffer }
    }

    /// Allocates the storage, with the hint that the CPU writes it and the
    /// GPU reads it once per frame.
    pub open spec fn spec_allocate_call(&self) -> GlCall {
        GlCall::BufferDataSize {
            target: gl::PIXEL_UNPACK_BUFFER,
            size: self.spec_byte_len() as i32,
            usage: gl::STREAM_DRAW,
        }
    }

    pub fn allocate_call(&self) -> (call: GlCall)
        requires
            self.wf(),
        ensures
            call == self.spec_allocate_call(),
    {
        GlCall::BufferDataSize {
            target: gl::PIXEL_UNPACK_BUFFER,
            size: self.byte_len(),
            usage: gl::STREAM_DRAW,
        }
    }

    /// Maps the whole storage, for reading and writing.
    pub open spec fn spec_map_call(&self) -> GlCall {
        GlCall::MapBufferRange {
            target: gl::PIXEL_UNPACK_BUFFER,
            offset: 0,
            length: self.spec_byte_len() as i32,
            access: gl::MAP_READ_BIT | gl::MAP_WRITE_BIT,
        }
    }

    pub fn map_call(&self) -> (call: GlCall)
        requires
            self.wf(),
        ensures
            call == self.spec_map_call(),
    {
        GlCall::MapBufferRange {
            target: gl::PIXEL_UNPACK_BUFFER,
            offset: 0,
            length: self.byte_len(),
            access: gl::MAP_READ_BIT | gl::MAP_WRITE_BIT,
        }
    }

    /// Ends the mapping of the bound buffer.
    pub open spec fn spec_unmap_call() -> GlCall {
        GlCall::UnmapBuffer { target: gl::PIXEL_UNPACK_BUFFER }
    }

    pub fn unmap_call() -> (call: GlCall)
        ensures
            call == Self::spec_unmap_call(),
    {
        GlCall::UnmapBuffer { target: gl::PIXEL_UNPACK_BUFFER }
    }
}

} // verus!
