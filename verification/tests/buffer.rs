use std::num::NonZeroU32;

use cpf::calls::GlCall;
use cpf::pixel_buffer::{PixelBuffer, PixelFormat, MAX_PIXELS};
use cpf::shader::{draw_quad_call, ShaderStage, FRAGMENT_SHADER_SRC, VERTEX_SHADER_SRC};
use cpf::texture;
use cpf::{MMap, Painter};

fn buffer_name(n: u32) -> glow::NativeBuffer {
    glow::NativeBuffer(NonZeroU32::new(n).unwrap())
}

fn texture_name(n: u32) -> glow::NativeTexture {
    glow::NativeTexture(NonZeroU32::new(n).unwrap())
}

struct Fill([u8; 4]);

impl Painter for Fill {
    type Pixel = [u8; 4];

    fn paint(&mut self, pixels: &mut [[u8; 4]]) {
        for pixel in pixels.iter_mut() {
            *pixel = self.0;
        }
    }
}

struct Counting {
    frames: u8,
}

impl Painter for Counting {
    type Pixel = [u8; 4];

    fn paint(&mut self, pixels: &mut [[u8; 4]]) {
        self.frames += 1;
        for (index, pixel) in pixels.iter_mut().enumerate() {
            *pixel = [index as u8, self.frames, 0, 255];
        }
    }
}

#[test]
fn pixel_format_is_four_bytes_of_rgba() {
    assert_eq!(PixelFormat::Rgba8.bytes_per_pixel(), 4);
    assert_eq!(PixelFormat::Rgba8.bytes_per_pixel(), std::mem::size_of::<[u8; 4]>());
    assert_eq!(PixelFormat::Rgba8.transfer_format(), glow::RGBA);
    assert_eq!(PixelFormat::Rgba8.transfer_type(), glow::UNSIGNED_BYTE);
}

#[test]
fn pixel_buffer_keeps_name_and_length() {
    let buffer = PixelBuffer::new(buffer_name(9), 640 * 640).unwrap();
    assert_eq!(buffer.raw(), buffer_name(9));
    assert_eq!(buffer.len(), 409_600);
    assert_eq!(buffer.format(), PixelFormat::Rgba8);
    assert_eq!(buffer.byte_len(), 1_638_400);
}

#[test]
fn pixel_buffer_of_no_pixels() {
    let buffer = PixelBuffer::new(buffer_name(1), 0).unwrap();
    assert_eq!(buffer.len(), 0);
    assert_eq!(buffer.byte_len(), 0);
}

#[test]
fn pixel_buffer_length_is_bounded_by_signed_sizes() {
    assert_eq!(MAX_PIXELS, (i32::MAX / 4) as usize);
    let largest = PixelBuffer::new(buffer_name(1), MAX_PIXELS).unwrap();
    assert_eq!(largest.byte_len(), 2_147_483_644);
    assert_eq!(PixelBuffer::new(buffer_name(1), MAX_PIXELS + 1), None);
    assert_eq!(PixelBuffer::new(buffer_name(1), usize::MAX), None);
}

#[test]
fn pixel_buffer_calls_carry_its_name_and_extent() {
    let buffer = PixelBuffer::new(buffer_name(5), 12).unwrap();
    assert_eq!(
        buffer.bind_call(),
        GlCall::BindBuffer { target: glow::PIXEL_UNPACK_BUFFER, buffer: buffer_name(5) }
    );
    assert_eq!(
        buffer.allocate_call(),
        GlCall::BufferDataSize {
            target: glow::PIXEL_UNPACK_BUFFER,
            size: 48,
            usage: glow::STREAM_DRAW
        }
    );
    assert_eq!(
        buffer.map_call(),
        GlCall::MapBufferRange { target: 0x88EC, offset: 0, length: 48, access: 3 }
    );
    assert_eq!(
        buffer.map_call(),
        GlCall::MapBufferRange {
            target: glow::PIXEL_UNPACK_BUFFER,
            offset: 0,
            length: 48,
            access: glow::MAP_READ_BIT | glow::MAP_WRITE_BIT
        }
    );
    assert_eq!(
        PixelBuffer::unmap_call(),
        GlCall::UnmapBuffer { target: glow::PIXEL_UNPACK_BUFFER }
    );
}

#[test]
fn texture_calls() {
    let name = texture_name(3);
    assert_eq!(
        texture::bind_call(name),
        GlCall::BindTexture { target: glow::TEXTURE_2D, texture: name }
    );
    assert_eq!(
        texture::storage_call(name, 640, 480),
        GlCall::TextureStorage2d {
            texture: name,
            levels: 1,
            internal_format: glow::RGBA32F,
            width: 640,
            height: 480
        }
    );
    assert_eq!(
        texture::min_filter_call(name),
        GlCall::TextureParameterI32 {
            texture: name,
            parameter: glow::TEXTURE_MIN_FILTER,
            value: glow::NEAREST as i32
        }
    );
    assert_eq!(
        texture::mag_filter_call(name),
        GlCall::TextureParameterI32 {
            texture: name,
            parameter: glow::TEXTURE_MAG_FILTER,
            value: glow::LINEAR as i32
        }
    );
    assert_eq!(
        texture::upload_call(name, 640, 480, PixelFormat::Rgba8),
        GlCall::TextureSubImage2d {
            texture: name,
            level: 0,
            x_offset: 0,
            y_offset: 0,
            width: 640,
            height: 480,
            format: glow::RGBA,
            ty: glow::UNSIGNED_BYTE,
            buffer_offset: 0
        }
    );
}

#[test]
fn shader_stages() {
    assert_eq!(ShaderStage::Vertex.shader_type(), glow::VERTEX_SHADER);
    assert_eq!(ShaderStage::Fragment.shader_type(), glow::FRAGMENT_SHADER);
    assert_eq!(ShaderStage::Vertex.source(), VERTEX_SHADER_SRC);
    assert_eq!(ShaderStage::Fragment.source(), FRAGMENT_SHADER_SRC);
    assert!(VERTEX_SHADER_SRC.starts_with("\n#version 330 core\n"));
    assert!(VERTEX_SHADER_SRC.contains("gl_Position = vec4(vertices[gl_VertexID].xyz, 1.0);"));
    assert!(FRAGMENT_SHADER_SRC.contains("FragColor = texture(texture1, TexCoord);"));
    assert_eq!(
        ShaderStage::Fragment.create_call(),
        GlCall::CreateShader { shader_type: 0x8B30 }
    );
    assert_eq!(
        draw_quad_call(),
        GlCall::DrawArrays { mode: glow::TRIANGLE_STRIP, first: 0, count: 4 }
    );
}

#[test]
fn guard_needs_storage() {
    let mut buffer = PixelBuffer::new(buffer_name(1), 4).unwrap();
    assert!(MMap::<[u8; 4]>::new(&mut buffer, None).is_none());
    assert!(!buffer.is_mapped());
}

#[test]
fn guard_needs_storage_of_the_buffers_extent() {
    let mut buffer = PixelBuffer::new(buffer_name(1), 4).unwrap();
    let mut short = vec![[0u8; 4]; 3];
    let mut long = vec![[0u8; 4]; 5];
    assert!(MMap::new(&mut buffer, Some(&mut short[..])).is_none());
    assert!(MMap::new(&mut buffer, Some(&mut long[..])).is_none());
    assert!(!buffer.is_mapped());
}

#[test]
fn guard_shows_exactly_the_buffers_pixels() {
    let mut buffer = PixelBuffer::new(buffer_name(1), 640 * 480).unwrap();
    let mut storage = vec![[0u8; 4]; 640 * 480];
    let mut guard = MMap::new(&mut buffer, Some(&mut storage[..])).unwrap();
    assert_eq!(guard.len(), 640 * 480);
    assert_eq!(guard.as_mut().len(), 640 * 480);
    guard.paint(&mut Fill([1, 2, 3, 4]));
    assert_eq!(guard.len(), 640 * 480);
}

#[test]
fn written_pixels_are_seen_by_the_next_guard() {
    let mut buffer = PixelBuffer::new(buffer_name(1), 256).unwrap();
    let mut storage = vec![[0u8; 4]; 256];
    {
        let mut guard = MMap::new(&mut buffer, Some(&mut storage[..])).unwrap();
        for (index, pixel) in guard.as_mut().iter_mut().enumerate() {
            *pixel = [index as u8, 255 - index as u8, 7, 255];
        }
        guard.release(&mut buffer);
    }
    let mut guard = MMap::new(&mut buffer, Some(&mut storage[..])).unwrap();
    assert_eq!(guard.len(), 256);
    for (index, pixel) in guard.as_mut().iter().enumerate() {
        assert_eq!(*pixel, [index as u8, 255 - index as u8, 7, 255]);
    }
}

#[test]
fn painter_keeps_its_state_between_frames() {
    let mut buffer = PixelBuffer::new(buffer_name(1), 2).unwrap();
    let mut storage = vec![[0u8; 4]; 2];
    let mut painter = Counting { frames: 0 };
    let mut guard = MMap::new(&mut buffer, Some(&mut storage[..])).unwrap();
    guard.paint(&mut painter);
    guard.release(&mut buffer);
    assert_eq!(storage, vec![[0, 1, 0, 255], [1, 1, 0, 255]]);
    let mut guard = MMap::new(&mut buffer, Some(&mut storage[..])).unwrap();
    guard.paint(&mut painter);
    guard.release(&mut buffer);
    assert_eq!(storage, vec![[0, 2, 0, 255], [1, 2, 0, 255]]);
    assert_eq!(painter.frames, 2);
}

#[test]
fn released_storage_holds_what_was_written() {
    let mut buffer = PixelBuffer::new(buffer_name(1), 3).unwrap();
    let mut storage = vec![[0u8; 4]; 3];
    let mut guard = MMap::new(&mut buffer, Some(&mut storage[..])).unwrap();
    assert!(buffer.is_mapped());
    guard.as_mut()[1] = [5, 6, 7, 8];
    let released = guard.release(&mut buffer);
    assert!(!buffer.is_mapped());
    assert_eq!(released.to_vec(), vec![[0, 0, 0, 0], [5, 6, 7, 8], [0, 0, 0, 0]]);
}

#[test]
fn fresh_guard_over_the_same_storage_shows_what_was_written() {
    let mut buffer = PixelBuffer::new(buffer_name(1), 640 * 640).unwrap();
    let mut storage = vec![[0u8; 4]; 640 * 640];
    let mut guard = MMap::new(&mut buffer, Some(&mut storage[..])).unwrap();
    for (index, pixel) in guard.as_mut().iter_mut().enumerate() {
        *pixel = [index as u8, (index >> 8) as u8, (index >> 16) as u8, 255];
    }
    let mut fresh = guard.reacquire(&mut buffer).unwrap();
    assert!(buffer.is_mapped());
    assert_eq!(fresh.len(), 640 * 640);
    for (index, pixel) in fresh.as_mut().iter().enumerate() {
        assert_eq!(*pixel, [index as u8, (index >> 8) as u8, (index >> 16) as u8, 255]);
    }
}

#[test]
fn guard_is_not_taken_again_for_a_buffer_of_another_extent() {
    let mut buffer = PixelBuffer::new(buffer_name(1), 4).unwrap();
    let mut other = PixelBuffer::new(buffer_name(2), 5).unwrap();
    let mut storage = vec![[0u8; 4]; 4];
    let guard = MMap::new(&mut buffer, Some(&mut storage[..])).unwrap();
    assert!(guard.reacquire(&mut other).is_none());
    assert!(!other.is_mapped());
}

#[test]
fn second_guard_is_not_given_while_the_first_is_live() {
    let mut buffer = PixelBuffer::new(buffer_name(1), 4).unwrap();
    let mut first = vec![[1u8; 4]; 4];
    let mut second = vec![[2u8; 4]; 4];
    assert!(!buffer.is_mapped());
    let mut guard = MMap::new(&mut buffer, Some(&mut first[..])).unwrap();
    assert!(buffer.is_mapped());
    assert!(MMap::new(&mut buffer, Some(&mut second[..])).is_none());
    assert!(buffer.is_mapped());
    guard.as_mut()[0] = [9, 9, 9, 9];
    guard.release(&mut buffer);
    assert!(!buffer.is_mapped());
    assert!(MMap::new(&mut buffer, Some(&mut second[..])).is_some());
    assert!(buffer.is_mapped());
    assert_eq!(first[0], [9, 9, 9, 9]);
    assert_eq!(second, vec![[2u8; 4]; 4]);
}

#[test]
fn guard_that_is_dropped_leaves_the_buffer_mapped() {
    let mut buffer = PixelBuffer::new(buffer_name(1), 2).unwrap();
    let mut storage = vec![[0u8; 4]; 2];
    {
        let _guard = MMap::new(&mut buffer, Some(&mut storage[..])).unwrap();
    }
    assert!(buffer.is_mapped());
    assert!(MMap::new(&mut buffer, Some(&mut storage[..])).is_none());
    buffer.set_mapped(false);
    assert!(MMap::new(&mut buffer, Some(&mut storage[..])).is_some());
}

#[test]
fn new_pixel_buffer_is_not_mapped() {
    let mut buffer = PixelBuffer::new(buffer_name(3), 7).unwrap();
    assert!(!buffer.is_mapped());
    buffer.set_mapped(true);
    assert!(buffer.is_mapped());
    assert_eq!(buffer.len(), 7);
    assert_eq!(buffer.raw(), buffer_name(3));
    buffer.set_mapped(false);
    assert_eq!(buffer, PixelBuffer::new(buffer_name(3), 7).unwrap());
}
